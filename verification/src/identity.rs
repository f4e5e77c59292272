//! The identity resolver: validates the display name a participant enters.
//!
//! The resolver repeatedly prompts and reads one line; an empty line is
//! rejected by prompting again, and the first non-empty line becomes the
//! session identity.  If the input stream closes first, startup aborts:
//! no default name is ever substituted.

use vstd::prelude::*;
use crate::bytes::opt_bytes_view;

verus! {

/// One decision of the identity resolver for one read attempt.
#[derive(Debug)]
pub enum ResolveStep {
    /// A non-empty line was read: it becomes the session identity.
    Accept(Vec<u8>),
    /// An empty line was read: prompt again; nothing is accepted.
    Reprompt,
    /// The input stream closed before a name was read: startup must abort.
    Abort,
}

/// The prompt written before each read attempt: the bytes of
/// "Please enter your name: ".
pub open spec fn name_prompt_text() -> Seq<u8> {
    seq![
        80u8, 108u8, 101u8, 97u8, 115u8, 101u8, 32u8, 101u8, 110u8, 116u8, 101u8, 114u8, 32u8,
        121u8, 111u8, 117u8, 114u8, 32u8, 110u8, 97u8, 109u8, 101u8, 58u8, 32u8,
    ]
}

/// What the resolver must decide for one read attempt: accept exactly the
/// non-empty lines, re-prompt on an empty line, abort when input is closed.
pub open spec fn resolve_decision_ok(line: Option<Seq<u8>>, r: ResolveStep) -> bool {
    match line {
        Option::None => r is Abort,
        Option::Some(l) => if l.len() == 0 {
            r is Reprompt
        } else {
            r matches ResolveStep::Accept(n) && n@ == l
        },
    }
}

/// Decides one read attempt of the identity resolver: `line` is the line
/// that was read, or `None` when the input stream is closed.
pub fn resolve_step(line: Option<Vec<u8>>) -> (r: ResolveStep)
    ensures
        resolve_decision_ok(opt_bytes_view(line), r),
{
    match line {
        Option::None => ResolveStep::Abort,
        Option::Some(l) => {
            if l.len() == 0 {
                ResolveStep::Reprompt
            } else {
                ResolveStep::Accept(l)
            }
        },
    }
}

/// The name prompt as bytes, ready to be written before each read attempt.
pub fn name_prompt() -> (r: Vec<u8>)
    ensures
        r@ == name_prompt_text(),
{
    let mut v: Vec<u8> = Vec::new();
    v.push(80u8);
    v.push(108u8);
    v.push(101u8);
    v.push(97u8);
    v.push(115u8);
    v.push(101u8);
    v.push(32u8);
    v.push(101u8);
    v.push(110u8);
    v.push(116u8);
    v.push(101u8);
    v.push(114u8);
    v.push(32u8);
    v.push(121u8);
    v.push(111u8);
    v.push(117u8);
    v.push(114u8);
    v.push(32u8);
    v.push(110u8);
    v.push(97u8);
    v.push(109u8);
    v.push(101u8);
    v.push(58u8);
    v.push(32u8);
    proof {
        assert(v@ =~= name_prompt_text());
    }
    v
}

/// An empty submission is never accepted: the only decision consistent with
/// the resolver contract for an empty line is to prompt again, so repeated
/// empty submissions re-prompt for as long as they keep coming.
pub proof fn lemma_empty_name_rejected(line: Seq<u8>, r: ResolveStep)
    requires
        line.len() == 0,
        resolve_decision_ok(Option::Some(line), r),
    ensures
        r is Reprompt,
        !(r is Accept),
{
}

/// Whatever the resolver accepts is exactly the line that was read, and it
/// is never empty.
pub proof fn lemma_accepted_name_nonempty(line: Option<Seq<u8>>, r: ResolveStep)
    requires
        resolve_decision_ok(line, r),
    ensures
        r matches ResolveStep::Accept(n) ==> line == Option::Some(n@) && n@.len() > 0,
{
}

} // verus!
