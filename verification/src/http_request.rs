//! The inbound request surface the upgrade path reads: the full URL and the
//! header list, as plain values. The native HTTP layer delivers header names
//! already lowercased, so lookup here is by exact name.

use vstd::prelude::*;

verus! {

/// The value of the first header named `name`, or `None` when no header of
/// that name is present.
pub open spec fn header_value(headers: Seq<(String, String)>, name: Seq<char>) -> Option<Seq<char>>
    decreases headers.len(),
{
    if headers.len() == 0 {
        None
    } else if headers[0].0@ == name {
        Some(headers[0].1@)
    } else {
        header_value(headers.drop_first(), name)
    }
}

/// An inbound HTTP request, reduced to what the upgrade path reads.
pub struct HttpRequest {
    /// The request's full URL.
    pub full_url: String,
    /// Header name–value pairs in arrival order, names lowercased.
    pub headers: Vec<(String, String)>,
}

impl HttpRequest {
    /// Returns a copy of the value of the first header named `name`, or
    /// `None` when the request carries no such header.
    pub fn get_header(&self, name: &String) -> (r: Option<String>)
        ensures
            match r {
                Some(v) => header_value(self.headers@, name@) == Some(v@),
                None => header_value(self.headers@, name@) is None,
            },
    {
        let mut i: usize = 0;
        proof {
            assert(self.headers@.skip(0) =~= self.headers@);
        }
        while i < self.headers.len()
            invariant
                i <= self.headers.len(),
                header_value(self.headers@, name@) == header_value(
                    self.headers@.skip(i as int),
                    name@,
                ),
            decreases self.headers.len() - i,
        {
            if self.headers[i].0 == *name {
                proof {
                    assert(self.headers@.skip(i as int)[0] == self.headers@[i as int]);
                }
                return Some(self.headers[i].1.clone());
            }
            proof {
                assert(self.headers@.skip(i as int)[0] == self.headers@[i as int]);
                assert(self.headers@.skip(i as int).drop_first() =~= self.headers@.skip(
                    i as int + 1,
                ));
            }
            i = i + 1;
        }
        None
    }
}

} // verus!
