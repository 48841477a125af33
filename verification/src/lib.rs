//! A typed client binding for a telephony provider's Calls resource: builds
//! the requests that place or retrieve a phone call, and decodes the
//! provider's response — a flat string-keyed mapping — into a call record.
//! Request building and decoding are verified; the HTTP I/O itself is an
//! external collaborator's concern.

pub mod call;
pub mod fields;
