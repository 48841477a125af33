//! The Calls resource: outbound call requests and decoding of provider
//! responses.

use crate::fields::FieldMap;
use vstd::prelude::*;

verus! {

/// A snapshot of a call's provider-side state, as reported in a response.
#[derive(Clone, Copy, Debug, PartialEq, Eq)]
pub enum CallStatus {
    Queued,
    Ringing,
    InProgress,
    Canceled,
    Completed,
    Failed,
    Busy,
    NoAnswer,
}

/// The status named by a wire token, or `None` where the token is not one of
/// the eight the provider uses.
pub open spec fn status_of_token(t: Seq<char>) -> Option<CallStatus> {
    if t == "queued"@ {
        Some(CallStatus::Queued)
    } else if t == "ringing"@ {
        Some(CallStatus::Ringing)
    } else if t == "in-progress"@ {
        Some(CallStatus::InProgress)
    } else if t == "canceled"@ {
        Some(CallStatus::Canceled)
    } else if t == "completed"@ {
        Some(CallStatus::Completed)
    } else if t == "failed"@ {
        Some(CallStatus::Failed)
    } else if t == "busy"@ {
        Some(CallStatus::Busy)
    } else if t == "no-answer"@ {
        Some(CallStatus::NoAnswer)
    } else {
        None
    }
}

/// The wire token of a status: the inverse of `status_of_token` on the eight
/// recognized tokens.
pub open spec fn token_of_status(s: CallStatus) -> Seq<char> {
    match s {
        CallStatus::Queued => "queued"@,
        CallStatus::Ringing => "ringing"@,
        CallStatus::InProgress => "in-progress"@,
        CallStatus::Canceled => "canceled"@,
        CallStatus::Completed => "completed"@,
        CallStatus::Failed => "failed"@,
        CallStatus::Busy => "busy"@,
        CallStatus::NoAnswer => "no-answer"@,
    }
}

/// The status mapping is a bijection between the eight wire tokens and the
/// eight `CallStatus` values: every status is named by its own token, and no
/// two distinct recognized tokens name the same status.
pub proof fn lemma_status_token_bijective()
    ensures
        forall|s: CallStatus| #[trigger] status_of_token(token_of_status(s)) == Some(s),
        forall|t1: Seq<char>, t2: Seq<char>|
            status_of_token(t1) is Some && status_of_token(t2) is Some && t1 != t2
                ==> status_of_token(t1) != status_of_token(t2),
{
    reveal_strlit("queued");
    reveal_strlit("ringing");
    reveal_strlit("in-progress");
    reveal_strlit("canceled");
    reveal_strlit("completed");
    reveal_strlit("failed");
    reveal_strlit("busy");
    reveal_strlit("no-answer");
    assert("queued"@.len() == 6);
    assert("ringing"@.len() == 7);
    assert("in-progress"@.len() == 11);
    assert("canceled"@.len() == 8);
    assert("completed"@.len() == 9);
    assert("failed"@.len() == 6);
    assert("busy"@.len() == 4);
    assert("no-answer"@.len() == 9);
    assert("queued"@[0] == 'q' && "failed"@[0] == 'f');
    assert("completed"@[0] == 'c' && "no-answer"@[0] == 'n');
    assert(status_of_token(token_of_status(CallStatus::Queued)) == Some(CallStatus::Queued));
    assert(status_of_token(token_of_status(CallStatus::Ringing)) == Some(CallStatus::Ringing));
    assert(status_of_token(token_of_status(CallStatus::InProgress)) == Some(
        CallStatus::InProgress,
    ));
    assert(status_of_token(token_of_status(CallStatus::Canceled)) == Some(CallStatus::Canceled));
    assert(status_of_token(token_of_status(CallStatus::Completed)) == Some(CallStatus::Completed));
    assert(status_of_token(token_of_status(CallStatus::Failed)) == Some(CallStatus::Failed));
    assert(status_of_token(token_of_status(CallStatus::Busy)) == Some(CallStatus::Busy));
    assert(status_of_token(token_of_status(CallStatus::NoAnswer)) == Some(CallStatus::NoAnswer));
}

/// The status named by a wire token, or `None` for any other string.
pub fn parse_call_status(s: &str) -> (r: Option<CallStatus>)
    ensures
        r == status_of_token(s@),
{
    let t: String = s.to_owned();
    if t == "queued".to_owned() {
        Some(CallStatus::Queued)
    } else if t == "ringing".to_owned() {
        Some(CallStatus::Ringing)
    } else if t == "in-progress".to_owned() {
        Some(CallStatus::InProgress)
    } else if t == "canceled".to_owned() {
        Some(CallStatus::Canceled)
    } else if t == "completed".to_owned() {
        Some(CallStatus::Completed)
    } else if t == "failed".to_owned() {
        Some(CallStatus::Failed)
    } else if t == "busy".to_owned() {
        Some(CallStatus::Busy)
    } else if t == "no-answer".to_owned() {
        Some(CallStatus::NoAnswer)
    } else {
        None
    }
}

/// Call-control instructions for an outbound call: either a URL the provider
/// fetches for instructions, or the inline markup itself. Exactly one of the
/// two is present.
pub enum CallInstructions<'a> {
    Url(&'a str),
    Twiml(&'a str),
}

/// The parameters of a request to place an outbound call.
pub struct OutboundCall<'a> {
    pub from: &'a str,
    pub to: &'a str,
    pub instructions: CallInstructions<'a>,
}

impl<'a> OutboundCall<'a> {
    pub fn new(from: &'a str, to: &'a str, url: &'a str) -> (r: OutboundCall<'a>)
        ensures
            r == (OutboundCall { from, to, instructions: CallInstructions::Url(url) }),
    {
        OutboundCall { from, to, instructions: CallInstructions::Url(url) }
    }

    pub fn new_with_twiml(from: &'a str, to: &'a str, twiml: &'a str) -> (r: OutboundCall<'a>)
        ensures
            r == (OutboundCall { from, to, instructions: CallInstructions::Twiml(twiml) }),
    {
        OutboundCall { from, to, instructions: CallInstructions::Twiml(twiml) }
    }
}

/// The HTTP method of a request to the provider.
#[derive(Clone, Copy, Debug, PartialEq, Eq)]
pub enum Method {
    Get,
    Post,
}

/// An outbound HTTP request, ready for a transport to perform: a method, a
/// path relative to the API root, and an ordered list of body parameters.
pub struct Request {
    pub method: Method,
    pub path: String,
    pub params: Vec<(String, String)>,
}

/// Builds the request that places an outbound call: a POST to `Calls` whose
/// parameters are, in order, `To`, `From`, and exactly one of `Url` or
/// `Twiml`, each carrying the caller's value verbatim.
pub fn create(call: &OutboundCall<'_>) -> (r: Request)
    requires
        call.from@.len() > 0,
        call.to@.len() > 0,
    ensures
        r.method == Method::Post,
        r.path@ == "Calls"@,
        r.params@.len() == 3,
        r.params@[0].0@ == "To"@ && r.params@[0].1@ == call.to@,
        r.params@[1].0@ == "From"@ && r.params@[1].1@ == call.from@,
        (match call.instructions {
            CallInstructions::Url(u) => r.params@[2].0@ == "Url"@ && r.params@[2].1@ == u@,
            CallInstructions::Twiml(w) => r.params@[2].0@ == "Twiml"@ && r.params@[2].1@ == w@,
        }),
{
    let mut params: Vec<(String, String)> = Vec::new();
    params.push(("To".to_owned(), call.to.to_owned()));
    params.push(("From".to_owned(), call.from.to_owned()));
    match &call.instructions {
        CallInstructions::Url(url) => params.push(("Url".to_owned(), (*url).to_owned())),
        CallInstructions::Twiml(twiml) => params.push(("Twiml".to_owned(), (*twiml).to_owned())),
    }
    Request { method: Method::Post, path: "Calls".to_owned(), params }
}

/// Builds the request that retrieves a call by identifier: a GET of
/// `Calls/{sid}` with no body parameters.
pub fn lookup(sid: &str) -> (r: Request)
    requires
        sid@.len() > 0,
    ensures
        r.method == Method::Get,
        r.path@ == "Calls/"@ + sid@,
        r.params@.len() == 0,
{
    let mut path: String = "Calls/".to_owned();
    path.append(sid);
    Request { method: Method::Get, path, params: Vec::new() }
}

/// A call resource, decoded from a provider response.
#[derive(Debug, PartialEq, Eq)]
pub struct Call {
    pub from: String,
    pub to: String,
    pub sid: String,
    pub status: CallStatus,
}

/// Decoding failure: a response that does not describe a call.
#[derive(Clone, Copy, Debug, PartialEq, Eq)]
pub enum DecodeError {
    /// One of `From`, `To`, `CallSid` is absent.
    MissingField,
    /// `CallStatus` is absent or not one of the eight recognized tokens.
    UnrecognizedStatus,
}

/// Whether the mapping binds the three identifier keys a call record needs.
pub open spec fn has_required_ids(m: Map<Seq<char>, Seq<char>>) -> bool {
    m.contains_key("From"@) && m.contains_key("To"@) && m.contains_key("CallSid"@)
}

/// Whether the mapping binds `CallStatus` to a recognized status token.
pub open spec fn has_known_status(m: Map<Seq<char>, Seq<char>>) -> bool {
    m.contains_key("CallStatus"@) && status_of_token(m["CallStatus"@]) is Some
}

impl Call {
    /// Decodes a flat string mapping into a call record. Succeeds exactly
    /// when `From`, `To` and `CallSid` are present and `CallStatus` holds a
    /// recognized token; the record's string fields are the bound values
    /// verbatim. Extra keys are ignored. All-or-nothing: no partial record.
    pub fn from_map(m: FieldMap) -> (r: Result<Call, DecodeError>)
        ensures
            match r {
                Ok(c) => has_required_ids(m@) && has_known_status(m@) && c.from@ == m@["From"@]
                    && c.to@ == m@["To"@] && c.sid@ == m@["CallSid"@] && Some(c.status)
                    == status_of_token(m@["CallStatus"@]),
                Err(DecodeError::MissingField) => !has_required_ids(m@),
                Err(DecodeError::UnrecognizedStatus) => has_required_ids(m@) && !has_known_status(
                    m@,
                ),
            },
    {
        let from = match m.get("From") {
            Some(v) => v,
            None => {
                return Err(DecodeError::MissingField);
            },
        };
        let to = match m.get("To") {
            Some(v) => v,
            None => {
                return Err(DecodeError::MissingField);
            },
        };
        let sid = match m.get("CallSid") {
            Some(v) => v,
            None => {
                return Err(DecodeError::MissingField);
            },
        };
        let status = match m.get("CallStatus") {
            Some(v) => match parse_call_status(v.as_str()) {
                Some(s) => s,
                None => {
                    return Err(DecodeError::UnrecognizedStatus);
                },
            },
            None => {
                return Err(DecodeError::UnrecognizedStatus);
            },
        };
        Ok(Call { from, to, sid, status })
    }
}

} // verus!
