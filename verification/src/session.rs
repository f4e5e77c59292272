//! The session loop's decisions: one chat session from join to exit.
//!
//! The loop multiplexes two event sources — the next inbound delivery and
//! the next local input line — and handles exactly one event per iteration.
//! The decisions live here, verified; the surrounding process performs the
//! waits, the broker calls and the terminal writes, and feeds each outcome
//! back in as a plain event.

use vstd::prelude::*;
use crate::bytes::{append_bytes, bytes_eq, opt_bytes_view};
use crate::render::{render_line, rendered};

verus! {

/// Why a session ended.  A broker connection failure at startup happens
/// before any session exists and is reported by the surrounding process.
#[derive(Clone, Copy, Debug, PartialEq, Eq, Structural)]
pub enum SessionError {
    /// The input stream closed before a non-empty name was read.
    Identity,
    /// The broker rejected or failed to accept a published record.
    Publish,
    /// A broker-level read failed.
    Recv,
    /// An inbound record was missing its sender key or its body.
    MalformedMessage,
}

/// The outcome a terminated session reports.
#[derive(Clone, Copy, Debug, PartialEq, Eq, Structural)]
pub enum ExitOutcome {
    /// Clean end of local input.
    Clean,
    /// A fatal condition, surfaced to the operator.
    Failed(SessionError),
}

/// One inbound delivery attempt, as the subscriber hands it over.
#[derive(Debug)]
pub enum InboundEvent {
    /// A record arrived; broker records may lack a key or a body.
    Record { key: Option<Vec<u8>>, body: Option<Vec<u8>> },
    /// The broker-level read failed.
    ReadFailure,
}

/// One event the session loop wakes up on: whichever of its two suspension
/// points resolved first.
#[derive(Debug)]
pub enum SessionEvent {
    /// The next inbound delivery attempt.
    Inbound(InboundEvent),
    /// A complete line of local input, or `None` once input is closed.
    Input(Option<Vec<u8>>),
}

/// What the session loop must do next, one event having been handled.
#[derive(Debug)]
pub enum Directive {
    /// Write these bytes to the terminal, then redraw the prompt.
    Render(Vec<u8>),
    /// A self-authored message came back: discard it silently, without
    /// redrawing the prompt.
    Suppress,
    /// Publish this (key, body) record to the shared topic, wait for the
    /// broker's acknowledgment, and report it back through
    /// `Session::publish_outcome`.
    Publish(Vec<u8>, Vec<u8>),
    /// Redraw the prompt and keep waiting.
    Prompt,
    /// The session is over; report this outcome.
    Exit(ExitOutcome),
}

/// The body of the join announcement: the bytes of "has joined the chat".
pub open spec fn join_body_text() -> Seq<u8> {
    seq![
        104u8, 97u8, 115u8, 32u8, 106u8, 111u8, 105u8, 110u8, 101u8, 100u8, 32u8, 116u8, 104u8,
        101u8, 32u8, 99u8, 104u8, 97u8, 116u8,
    ]
}

/// What handling an inbound record must decide, given the session identity:
/// a record without a key or without a body is fatal; a record keyed with
/// the session's own identity is discarded silently; every other record is
/// rendered for the terminal.
pub open spec fn inbound_decision_ok(
    identity: Seq<u8>,
    key: Option<Seq<u8>>,
    body: Option<Seq<u8>>,
    d: Directive,
) -> bool {
    match (key, body) {
        (Option::Some(k), Option::Some(b)) => if k == identity {
            d is Suppress
        } else {
            d matches Directive::Render(out) && out@ == rendered(k, b)
        },
        _ => d matches Directive::Exit(ExitOutcome::Failed(SessionError::MalformedMessage)),
    }
}

/// What handling the local-input source must decide: a complete line is
/// published under the session identity; end of input ends the session
/// cleanly.
pub open spec fn input_decision_ok(identity: Seq<u8>, line: Option<Seq<u8>>, d: Directive) -> bool {
    match line {
        Option::Some(l) => d matches Directive::Publish(k, b) && k@ == identity && b@ == l,
        Option::None => d matches Directive::Exit(ExitOutcome::Clean),
    }
}

/// What one loop iteration must decide for one event.
pub open spec fn event_decision_ok(identity: Seq<u8>, event: SessionEvent, d: Directive) -> bool {
    match event {
        SessionEvent::Inbound(InboundEvent::Record { key, body }) => inbound_decision_ok(
            identity,
            opt_bytes_view(key),
            opt_bytes_view(body),
            d,
        ),
        SessionEvent::Inbound(InboundEvent::ReadFailure) => (d matches Directive::Exit(
            ExitOutcome::Failed(SessionError::Recv),
        )),
        SessionEvent::Input(line) => input_decision_ok(identity, opt_bytes_view(line), d),
    }
}

/// What the loop must do once a publish attempt reports back: on success,
/// redraw the prompt and keep going; on failure the error is fatal for the
/// session — it terminates, and the record is never retried.
pub open spec fn publish_decision_ok(ok: bool, d: Directive) -> bool {
    if ok {
        d is Prompt
    } else {
        d matches Directive::Exit(ExitOutcome::Failed(SessionError::Publish))
    }
}

/// One chat session: its identity and whether its loop still runs.
pub struct Session {
    /// The sender tag, resolved once at session start and reused for every
    /// publish of this session.
    pub identity: Vec<u8>,
    /// Whether the session loop is still running.
    pub running: bool,
}

impl Session {
    /// A well-formed session carries a non-empty identity.
    pub open spec fn wf(self) -> bool {
        self.identity@.len() > 0
    }

    /// Starts a session under a freshly resolved, non-empty identity.
    pub fn new(identity: Vec<u8>) -> (s: Session)
        requires
            identity@.len() > 0,
        ensures
            s.wf(),
            s.identity@ == identity@,
            s.running,
    {
        Session { identity, running: true }
    }

    /// The join announcement: a record keyed with the session identity whose
    /// body is the fixed join text.
    pub fn join_record(&self) -> (r: (Vec<u8>, Vec<u8>))
        ensures
            r.0@ == self.identity@,
            r.1@ == join_body_text(),
    {
        let mut key: Vec<u8> = Vec::new();
        append_bytes(&mut key, &self.identity);
        proof {
            assert(key@ =~= self.identity@);
        }
        let mut body: Vec<u8> = Vec::new();
        body.push(104u8);
        body.push(97u8);
        body.push(115u8);
        body.push(32u8);
        body.push(106u8);
        body.push(111u8);
        body.push(105u8);
        body.push(110u8);
        body.push(101u8);
        body.push(100u8);
        body.push(32u8);
        body.push(116u8);
        body.push(104u8);
        body.push(101u8);
        body.push(32u8);
        body.push(99u8);
        body.push(104u8);
        body.push(97u8);
        body.push(116u8);
        proof {
            assert(body@ =~= join_body_text());
        }
        (key, body)
    }

    /// Handles exactly one event: the central decision of one loop
    /// iteration.  The identity never changes, and the session keeps
    /// running exactly as long as the directive is not an exit.
    pub fn step(&mut self, event: SessionEvent) -> (d: Directive)
        requires
            old(self).wf(),
            old(self).running,
        ensures
            final(self).identity@ == old(self).identity@,
            final(self).wf(),
            event_decision_ok(old(self).identity@, event, d),
            final(self).running <==> !(d is Exit),
    {
        match event {
            SessionEvent::Inbound(InboundEvent::Record { key, body }) => {
                match (key, body) {
                    (Option::Some(k), Option::Some(b)) => {
                        if bytes_eq(&k, &self.identity) {
                            Directive::Suppress
                        } else {
                            Directive::Render(render_line(&k, &b))
                        }
                    },
                    _ => {
                        self.running = false;
                        Directive::Exit(ExitOutcome::Failed(SessionError::MalformedMessage))
                    },
                }
            },
            SessionEvent::Inbound(InboundEvent::ReadFailure) => {
                self.running = false;
                Directive::Exit(ExitOutcome::Failed(SessionError::Recv))
            },
            SessionEvent::Input(Option::Some(line)) => {
                let mut key: Vec<u8> = Vec::new();
                append_bytes(&mut key, &self.identity);
                proof {
                    assert(key@ =~= self.identity@);
                }
                Directive::Publish(key, line)
            },
            SessionEvent::Input(Option::None) => {
                self.running = false;
                Directive::Exit(ExitOutcome::Clean)
            },
        }
    }

    /// Folds the broker's acknowledgment of a publish attempt back into the
    /// session.
    pub fn publish_outcome(&mut self, ok: bool) -> (d: Directive)
        requires
            old(self).wf(),
            old(self).running,
        ensures
            final(self).identity@ == old(self).identity@,
            final(self).wf(),
            publish_decision_ok(ok, d),
            final(self).running <==> !(d is Exit),
    {
        if ok {
            Directive::Prompt
        } else {
            self.running = false;
            Directive::Exit(ExitOutcome::Failed(SessionError::Publish))
        }
    }
}

/// A session never renders a record whose sender equals its own identity:
/// for any body, the empty one included, the only decision consistent with
/// the session contract is silent suppression.
pub proof fn lemma_self_suppression(identity: Seq<u8>, body: Seq<u8>, d: Directive)
    requires
        inbound_decision_ok(identity, Option::Some(identity), Option::Some(body), d),
    ensures
        d is Suppress,
        !(d is Render),
{
}

/// Publishing a line in one session and delivering the published record to
/// a session with a different identity yields exactly the rendered line:
/// a tab, the sender, ": ", the body, and a newline.
pub proof fn lemma_publish_then_receive(
    sender: Seq<u8>,
    line: Seq<u8>,
    receiver: Seq<u8>,
    d_send: Directive,
    d_recv: Directive,
)
    requires
        sender.len() > 0,
        receiver != sender,
        input_decision_ok(sender, Option::Some(line), d_send),
        d_send matches Directive::Publish(k, b) ==> inbound_decision_ok(
            receiver,
            Option::Some(k@),
            Option::Some(b@),
            d_recv,
        ),
    ensures
        d_recv matches Directive::Render(out) && out@ == rendered(sender, line),
{
}

/// End of local input terminates the session cleanly: the only decision
/// consistent with the contract is a clean exit, never an error outcome.
pub proof fn lemma_end_of_input_clean(identity: Seq<u8>, d: Directive)
    requires
        input_decision_ok(identity, Option::None, d),
    ensures
        d matches Directive::Exit(ExitOutcome::Clean),
        !(d matches Directive::Exit(ExitOutcome::Failed(_))),
{
}

/// A failed publish is fatal and never retried: the only decision
/// consistent with the contract is to exit reporting the publish error;
/// in particular no further publish is directed.
pub proof fn lemma_publish_failure_fatal(d: Directive)
    requires
        publish_decision_ok(false, d),
    ensures
        d matches Directive::Exit(ExitOutcome::Failed(SessionError::Publish)),
        !(d is Publish),
{
}

} // verus!
