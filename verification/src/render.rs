//! Terminal rendering: how inbound messages, the prompt and the greeting
//! appear as bytes on the output stream.

use vstd::prelude::*;
use crate::bytes::append_bytes;

verus! {

/// How a message from another participant is shown on the terminal:
/// a tab, the sender tag, ": ", the body, and a newline.
pub open spec fn rendered(sender: Seq<u8>, body: Seq<u8>) -> Seq<u8> {
    seq![9u8] + sender + seq![58u8, 32u8] + body + seq![10u8]
}

/// The prompt marker written after every handled event: the bytes of "> ".
pub open spec fn prompt_text() -> Seq<u8> {
    seq![62u8, 32u8]
}

/// The greeting written once at startup: the bytes of "Welcome to Kafka chat!"
/// followed by a newline.
pub open spec fn welcome_text() -> Seq<u8> {
    seq![
        87u8, 101u8, 108u8, 99u8, 111u8, 109u8, 101u8, 32u8, 116u8, 111u8, 32u8, 75u8, 97u8,
        102u8, 107u8, 97u8, 32u8, 99u8, 104u8, 97u8, 116u8, 33u8, 10u8,
    ]
}

/// Renders one inbound message line for the terminal.
pub fn render_line(sender: &Vec<u8>, body: &Vec<u8>) -> (r: Vec<u8>)
    ensures
        r@ == rendered(sender@, body@),
{
    let mut out: Vec<u8> = Vec::new();
    out.push(9u8);
    append_bytes(&mut out, sender);
    out.push(58u8);
    out.push(32u8);
    append_bytes(&mut out, body);
    out.push(10u8);
    proof {
        assert(out@ =~= rendered(sender@, body@));
    }
    out
}

/// The prompt marker as bytes, ready to be written to the output stream.
pub fn prompt() -> (r: Vec<u8>)
    ensures
        r@ == prompt_text(),
{
    let mut v: Vec<u8> = Vec::new();
    v.push(62u8);
    v.push(32u8);
    proof {
        assert(v@ =~= prompt_text());
    }
    v
}

/// The greeting as bytes, ready to be written once at startup.
pub fn welcome_line() -> (r: Vec<u8>)
    ensures
        r@ == welcome_text(),
{
    let mut v: Vec<u8> = Vec::new();
    v.push(87u8);
    v.push(101u8);
    v.push(108u8);
    v.push(99u8);
    v.push(111u8);
    v.push(109u8);
    v.push(101u8);
    v.push(32u8);
    v.push(116u8);
    v.push(111u8);
    v.push(32u8);
    v.push(75u8);
    v.push(97u8);
    v.push(102u8);
    v.push(107u8);
    v.push(97u8);
    v.push(32u8);
    v.push(99u8);
    v.push(104u8);
    v.push(97u8);
    v.push(116u8);
    v.push(33u8);
    v.push(10u8);
    proof {
        assert(v@ =~= welcome_text());
    }
    v
}

} // verus!
