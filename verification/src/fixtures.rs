//! Small pieces that the HTTP client's tests are built on: the key-value data
//! they send, and the reply of a mock service that echoes the request timeout.

use vstd::prelude::*;
use crate::decimal::{decimal, nat_text};

verus! {

/// The pairs of the test data, as character sequences.
pub open spec fn test_data_pairs() -> Seq<(Seq<char>, Seq<char>)> {
    seq![(seq!['k', 'e', 'y', '1'], seq!['v', 'a', 'l', '1']), (seq!['k', 'e', 'y', '2'], seq!['v', 'a', 'l', '2'])]
}

/// The key-value pairs sent as query, form and JSON data: `key1 = val1` and
/// `key2 = val2`. No key occurs twice.
pub fn test_data() -> (data: Vec<(String, String)>)
    ensures
        data@.len() == test_data_pairs().len(),
        forall|i: int|
            0 <= i < data@.len() ==> (#[trigger] data@[i]).0@ == test_data_pairs()[i].0 && data@[i].1@
                == test_data_pairs()[i].1,
        forall|i: int, j: int|
            0 <= i < j < data@.len() ==> (#[trigger] data@[i]).0@ != (#[trigger] data@[j]).0@,
{
    proof {
        reveal_strlit("key1");
        reveal_strlit("val1");
        reveal_strlit("key2");
        reveal_strlit("val2");
    }
    let mut data: Vec<(String, String)> = Vec::new();
    data.push(("key1".to_owned(), "val1".to_owned()));
    data.push(("key2".to_owned(), "val2".to_owned()));
    assert(data@[0].0@ =~= seq!['k', 'e', 'y', '1']);
    assert(data@[1].0@ =~= seq!['k', 'e', 'y', '2']);
    assert(data@[0].0@ != data@[1].0@) by {
        assert(data@[0].0@[3] != data@[1].0@[3]);
    }
    data
}

/// HTTP status 200 OK, what a new response carries.
pub open spec fn status_ok() -> u16 {
    200
}

/// HTTP status 500 Internal Server Error.
pub open spec fn status_internal_server_error() -> u16 {
    500
}

/// The status code and the body of a response.
pub struct TimeoutReply {
    pub status: u16,
    pub body: String,
}

/// A mock service that answers with the request timeout it was given.
pub struct GetTimeoutAsSeconds;

impl GetTimeoutAsSeconds {
    /// With a timeout of `timeout_nanos` nanoseconds, a 200 response whose body is
    /// the timeout's whole seconds in decimal; without one, an empty 500 response.
    pub fn call(&self, timeout_nanos: Option<u128>) -> (reply: TimeoutReply)
        ensures
            match timeout_nanos {
                Some(nanos) => reply.status == status_ok() && reply.body@ == nat_text(
                    nanos as nat / 1_000_000_000,
                ),
                None => reply.status == status_internal_server_error() && reply.body@ == Seq::<
                    char,
                >::empty(),
            },
    {
        match timeout_nanos {
            Some(nanos) => TimeoutReply { status: 200, body: decimal(nanos / 1_000_000_000) },
            None => TimeoutReply { status: 500, body: String::new() },
        }
    }
}

} // verus!
