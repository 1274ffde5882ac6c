//! Named path parameters extracted from a matched route.

use crate::text::str_eq;
use vstd::prelude::*;

verus! {

/// The name/value pairs captured while matching a request path.
pub struct Params(pub Vec<(String, String)>);

impl Params {
    pub fn new(vec: Vec<(String, String)>) -> (r: Params)
        ensures
            r.0 == vec,
    {
        Params(vec)
    }

    /// The value of the first pair named `name`, if any.
    pub fn find(&self, name: &str) -> (r: Option<String>)
        ensures
            match r {
                None => forall|i: int| 0 <= i < self.0@.len() ==> (#[trigger] self.0@[i]).0@ != name@,
                Some(v) => exists|i: int|
                    {
                        &&& 0 <= i < self.0@.len()
                        &&& (#[trigger] self.0@[i]).0@ == name@
                        &&& v == self.0@[i].1
                        &&& forall|j: int| 0 <= j < i ==> (#[trigger] self.0@[j]).0@ != name@
                    },
            },
    {
        let mut i: usize = 0;
        while i < self.0.len()
            invariant
                i <= self.0@.len(),
                forall|j: int| 0 <= j < i ==> (#[trigger] self.0@[j]).0@ != name@,
            decreases self.0@.len() - i,
        {
            if str_eq(self.0[i].0.as_str(), name) {
                return Some(self.0[i].1.clone());
            }
            i += 1;
        }
        None
    }
}

} // verus!
