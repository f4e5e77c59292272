use kafka_chat::session::{
    Directive, ExitOutcome, InboundEvent, Session, SessionError, SessionEvent,
};

fn bv(s: &str) -> Vec<u8> {
    s.as_bytes().to_vec()
}

#[test]
fn join_record_is_keyed_with_identity() {
    let s = Session::new(bv("alice"));
    let (key, body) = s.join_record();
    assert_eq!(key, bv("alice"));
    assert_eq!(body, bv("has joined the chat"));
}

#[test]
fn input_line_becomes_publish_under_own_identity() {
    let mut s = Session::new(bv("alice"));
    let d = s.step(SessionEvent::Input(Some(bv("hello"))));
    match d {
        Directive::Publish(key, body) => {
            assert_eq!(key, bv("alice"));
            assert_eq!(body, bv("hello"));
        }
        other => panic!("expected a publish directive, got {:?}", other),
    }
    assert!(s.running);
}

#[test]
fn publish_then_receive_renders_for_other_session() {
    // Session A publishes a line; the broker hands the record to session B.
    let mut a = Session::new(bv("alice"));
    let mut b = Session::new(bv("bob"));
    let d = a.step(SessionEvent::Input(Some(bv("hello"))));
    let (key, body) = match d {
        Directive::Publish(key, body) => (key, body),
        other => panic!("expected a publish directive, got {:?}", other),
    };
    let d = b.step(SessionEvent::Inbound(InboundEvent::Record {
        key: Some(key),
        body: Some(body),
    }));
    match d {
        Directive::Render(out) => assert_eq!(out, bv("\talice: hello\n")),
        other => panic!("expected a render directive, got {:?}", other),
    }
}

#[test]
fn own_message_round_trip_is_suppressed() {
    // Session A's own record comes back from the broker: no rendering.
    let mut a = Session::new(bv("alice"));
    let d = a.step(SessionEvent::Inbound(InboundEvent::Record {
        key: Some(bv("alice")),
        body: Some(bv("hello")),
    }));
    assert!(matches!(d, Directive::Suppress));
    assert!(a.running);
}

#[test]
fn self_suppression_holds_for_empty_body() {
    let mut a = Session::new(bv("alice"));
    let d = a.step(SessionEvent::Inbound(InboundEvent::Record {
        key: Some(bv("alice")),
        body: Some(Vec::new()),
    }));
    assert!(matches!(d, Directive::Suppress));
}

#[test]
fn end_of_input_exits_cleanly() {
    let mut s = Session::new(bv("alice"));
    let d = s.step(SessionEvent::Input(None));
    assert!(matches!(d, Directive::Exit(ExitOutcome::Clean)));
    assert!(!s.running);
}

#[test]
fn publish_failure_is_fatal_without_retry() {
    let mut s = Session::new(bv("alice"));
    let d = s.publish_outcome(false);
    assert!(matches!(
        d,
        Directive::Exit(ExitOutcome::Failed(SessionError::Publish))
    ));
    assert!(!s.running);
}

#[test]
fn publish_success_redraws_prompt() {
    let mut s = Session::new(bv("alice"));
    let d = s.publish_outcome(true);
    assert!(matches!(d, Directive::Prompt));
    assert!(s.running);
}

#[test]
fn record_without_key_is_fatal() {
    let mut s = Session::new(bv("alice"));
    let d = s.step(SessionEvent::Inbound(InboundEvent::Record {
        key: None,
        body: Some(bv("hello")),
    }));
    assert!(matches!(
        d,
        Directive::Exit(ExitOutcome::Failed(SessionError::MalformedMessage))
    ));
    assert!(!s.running);
}

#[test]
fn record_without_body_is_fatal() {
    let mut s = Session::new(bv("alice"));
    let d = s.step(SessionEvent::Inbound(InboundEvent::Record {
        key: Some(bv("bob")),
        body: None,
    }));
    assert!(matches!(
        d,
        Directive::Exit(ExitOutcome::Failed(SessionError::MalformedMessage))
    ));
}

#[test]
fn read_failure_is_fatal() {
    let mut s = Session::new(bv("alice"));
    let d = s.step(SessionEvent::Inbound(InboundEvent::ReadFailure));
    assert!(matches!(
        d,
        Directive::Exit(ExitOutcome::Failed(SessionError::Recv))
    ));
    assert!(!s.running);
}

#[test]
fn two_sessions_full_scenario() {
    // A joins as "alice", B joins as "bob"; A sends "hello"; B's terminal
    // shows the rendered line, A's terminal shows nothing for it.
    let mut a = Session::new(bv("alice"));
    let mut b = Session::new(bv("bob"));

    let (a_key, a_join) = a.join_record();
    // B sees A's join announcement rendered.
    let d = b.step(SessionEvent::Inbound(InboundEvent::Record {
        key: Some(a_key),
        body: Some(a_join),
    }));
    match d {
        Directive::Render(out) => assert_eq!(out, bv("\talice: has joined the chat\n")),
        other => panic!("expected a render directive, got {:?}", other),
    }

    // A sends "hello".
    let d = a.step(SessionEvent::Input(Some(bv("hello"))));
    let (key, body) = match d {
        Directive::Publish(key, body) => (key, body),
        other => panic!("expected a publish directive, got {:?}", other),
    };

    // The broker delivers the record to both subscribers.
    let d = b.step(SessionEvent::Inbound(InboundEvent::Record {
        key: Some(key.clone()),
        body: Some(body.clone()),
    }));
    match d {
        Directive::Render(out) => assert_eq!(out, bv("\talice: hello\n")),
        other => panic!("expected a render directive, got {:?}", other),
    }
    let d = a.step(SessionEvent::Inbound(InboundEvent::Record {
        key: Some(key),
        body: Some(body),
    }));
    assert!(matches!(d, Directive::Suppress));

    assert!(a.running);
    assert!(b.running);
}
