//! A flat string-keyed mapping, the decoder's input: the transport's parsed
//! representation of a provider response body, independent of the original
//! wire encoding.

use vstd::prelude::*;

verus! {

/// The mathematical content of a pair list, read left to right: a later
/// binding of a key overrides an earlier one.
pub closed spec fn map_of_pairs(s: Seq<(String, String)>) -> Map<Seq<char>, Seq<char>>
    decreases s.len(),
{
    if s.len() == 0 {
        Map::empty()
    } else {
        map_of_pairs(s.drop_last()).insert(s.last().0@, s.last().1@)
    }
}

/// A mapping from string keys to string values, as a list of pairs in which
/// the last binding of a key wins.
pub struct FieldMap {
    pairs: Vec<(String, String)>,
}

impl View for FieldMap {
    type V = Map<Seq<char>, Seq<char>>;

    closed spec fn view(&self) -> Map<Seq<char>, Seq<char>> {
        map_of_pairs(self.pairs@)
    }
}

impl FieldMap {
    /// The empty mapping.
    pub fn new() -> (r: FieldMap)
        ensures
            r@ == Map::<Seq<char>, Seq<char>>::empty(),
    {
        FieldMap { pairs: Vec::new() }
    }

    /// Binds `key` to `value`, replacing any earlier binding of `key`.
    pub fn insert(&mut self, key: String, value: String)
        ensures
            final(self)@ == old(self)@.insert(key@, value@),
    {
        let ghost prev = self.pairs@;
        self.pairs.push((key, value));
        proof {
            assert(self.pairs@.drop_last() =~= prev);
        }
    }

    /// Looks `key` up and hands back a copy of its value, or `None` where the
    /// mapping does not bind `key`.
    pub fn get(&self, key: &str) -> (r: Option<String>)
        ensures
            match r {
                Some(v) => self@.contains_key(key@) && v@ == self@[key@],
                None => !self@.contains_key(key@),
            },
    {
        let k: String = key.to_owned();
        let mut i: usize = self.pairs.len();
        proof {
            assert(self.pairs@.take(i as int) =~= self.pairs@);
        }
        while i > 0
            invariant
                i <= self.pairs@.len(),
                k@ == key@,
                self@.contains_key(key@) == map_of_pairs(self.pairs@.take(i as int)).contains_key(
                    key@,
                ),
                self@.contains_key(key@) ==> self@[key@] == map_of_pairs(
                    self.pairs@.take(i as int),
                )[key@],
            decreases i,
        {
            i = i - 1;
            proof {
                assert(self.pairs@.take(i + 1).drop_last() =~= self.pairs@.take(i as int));
                assert(self.pairs@.take(i + 1).last() == self.pairs@[i as int]);
            }
            let pair = &self.pairs[i];
            if pair.0 == k {
                return Some(pair.1.clone());
            }
        }
        proof {
            assert(self.pairs@.take(0) =~= Seq::<(String, String)>::empty());
        }
        None
    }
}

} // verus!
