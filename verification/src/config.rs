//! Startup configuration decisions: the broker address and the topic name.

use vstd::prelude::*;

verus! {

/// The broker address a session uses when the caller supplies none:
/// the bytes of "localhost:9092".
pub open spec fn default_broker_address() -> Seq<u8> {
    seq![108u8, 111u8, 99u8, 97u8, 108u8, 104u8, 111u8, 115u8, 116u8, 58u8, 57u8, 48u8, 57u8, 50u8]
}

/// The single shared topic every session publishes to and subscribes from:
/// the bytes of "chat".
pub open spec fn topic_name() -> Seq<u8> {
    seq![99u8, 104u8, 97u8, 116u8]
}

/// Picks the broker address for a session: the given argument when one was
/// supplied, otherwise the default address.
pub fn broker_address(arg: Option<Vec<u8>>) -> (r: Vec<u8>)
    ensures
        arg matches Some(a) ==> r@ == a@,
        arg is None ==> r@ == default_broker_address(),
{
    match arg {
        Some(a) => a,
        None => {
            let mut v: Vec<u8> = Vec::new();
            v.push(108u8);
            v.push(111u8);
            v.push(99u8);
            v.push(97u8);
            v.push(108u8);
            v.push(104u8);
            v.push(111u8);
            v.push(115u8);
            v.push(116u8);
            v.push(58u8);
            v.push(57u8);
            v.push(48u8);
            v.push(57u8);
            v.push(50u8);
            proof {
                assert(v@ =~= default_broker_address());
            }
            v
        }
    }
}

/// The topic name as bytes, for the publish and subscribe calls.
pub fn topic() -> (r: Vec<u8>)
    ensures
        r@ == topic_name(),
{
    let mut v: Vec<u8> = Vec::new();
    v.push(99u8);
    v.push(104u8);
    v.push(97u8);
    v.push(116u8);
    proof {
        assert(v@ =~= topic_name());
    }
    v
}

} // verus!
