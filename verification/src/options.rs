use vstd::prelude::*;
use vstd::string::StringExecFns;
use crate::errors::FdwError;

verus! {

/// A flat string key-value mapping, as the host hands options in: server-level
/// options for `init`, table-level options for `begin_scan`. The first pair
/// with a matching key wins.
pub struct Options {
    pub pairs: Vec<(String, String)>,
}

/// The value of the first pair whose key reads `key`, if any.
pub open spec fn opt_lookup(pairs: Seq<(String, String)>, key: Seq<char>) -> Option<Seq<char>>
    decreases pairs.len(),
{
    if pairs.len() == 0 {
        None
    } else if pairs[0].0@ == key {
        Some(pairs[0].1@)
    } else {
        opt_lookup(pairs.drop_first(), key)
    }
}

impl Options {
    /// An empty option set.
    pub fn new() -> (r: Options)
        ensures
            r.pairs@.len() == 0,
    {
        Options { pairs: Vec::new() }
    }

    /// Adds one key-value pair at the end.
    pub fn push(&mut self, key: String, value: String)
        ensures
            final(self).pairs@ == old(self).pairs@.push((key, value)),
    {
        self.pairs.push((key, value));
    }

    /// Looks an optional option up.
    pub fn get(&self, key: &str) -> (r: Option<String>)
        ensures
            match r {
                Some(v) => opt_lookup(self.pairs@, key@) == Some(v@),
                None => opt_lookup(self.pairs@, key@) is None,
            },
    {
        let k = String::from_str(key);
        let n = self.pairs.len();
        let mut i: usize = 0;
        proof {
            assert(self.pairs@.skip(0) =~= self.pairs@);
        }
        while i < n
            invariant
                i <= n,
                n == self.pairs@.len(),
                k@ == key@,
                opt_lookup(self.pairs@, key@) == opt_lookup(self.pairs@.skip(i as int), key@),
            decreases n - i,
        {
            proof {
                assert(self.pairs@.skip(i as int)[0] == self.pairs@[i as int]);
                assert(self.pairs@.skip(i as int).drop_first() =~= self.pairs@.skip(i as int + 1));
            }
            if self.pairs[i].0 == k {
                return Some(self.pairs[i].1.clone());
            }
            i = i + 1;
        }
        proof {
            assert(self.pairs@.skip(n as int) =~= Seq::<(String, String)>::empty());
        }
        None
    }

    /// Looks a required option up; a missing key is an error carrying that key.
    pub fn require(&self, key: &str) -> (r: Result<String, FdwError>)
        ensures
            match opt_lookup(self.pairs@, key@) {
                Some(v) => r matches Ok(s) && s@ == v,
                None => r matches Err(FdwError::MissingOption(k)) && k@ == key@,
            },
    {
        match self.get(key) {
            Some(v) => Ok(v),
            None => Err(FdwError::MissingOption(String::from_str(key))),
        }
    }

    /// Looks an option up, falling back to a fixed default.
    pub fn require_or(&self, key: &str, default_value: &str) -> (r: String)
        ensures
            match opt_lookup(self.pairs@, key@) {
                Some(v) => r@ == v,
                None => r@ == default_value@,
            },
    {
        match self.get(key) {
            Some(v) => v,
            None => String::from_str(default_value),
        }
    }
}

} // verus!
