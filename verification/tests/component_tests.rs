use kafka_chat::bytes::{append_bytes, bytes_eq};
use kafka_chat::config::{broker_address, topic};
use kafka_chat::group::fresh_group_id;
use kafka_chat::identity::{name_prompt, resolve_step, ResolveStep};
use kafka_chat::render::{prompt, render_line, welcome_line};

fn bv(s: &str) -> Vec<u8> {
    s.as_bytes().to_vec()
}

#[test]
fn render_line_exact() {
    let out = render_line(&bv("alice"), &bv("hello"));
    assert_eq!(out, bv("\talice: hello\n"));
}

#[test]
fn render_line_empty_body() {
    let out = render_line(&bv("bob"), &Vec::new());
    assert_eq!(out, bv("\tbob: \n"));
}

#[test]
fn terminal_texts_exact() {
    assert_eq!(prompt(), bv("> "));
    assert_eq!(welcome_line(), bv("Welcome to Kafka chat!\n"));
    assert_eq!(name_prompt(), bv("Please enter your name: "));
}

#[test]
fn topic_is_chat() {
    assert_eq!(topic(), bv("chat"));
}

#[test]
fn broker_address_defaults_when_absent() {
    assert_eq!(broker_address(None), bv("localhost:9092"));
}

#[test]
fn broker_address_keeps_given_argument() {
    assert_eq!(broker_address(Some(bv("kafka.example:9999"))), bv("kafka.example:9999"));
}

#[test]
fn resolver_rejects_empty_lines_until_a_name_comes() {
    // Repeated empty submissions each re-prompt; nothing is ever accepted.
    for _ in 0..5 {
        assert!(matches!(resolve_step(Some(Vec::new())), ResolveStep::Reprompt));
    }
    match resolve_step(Some(bv("alice"))) {
        ResolveStep::Accept(name) => assert_eq!(name, bv("alice")),
        other => panic!("expected the name to be accepted, got {:?}", other),
    }
}

#[test]
fn resolver_aborts_on_closed_input() {
    assert!(matches!(resolve_step(None), ResolveStep::Abort));
}

#[test]
fn group_ids_are_fresh_and_prefixed() {
    let g1 = fresh_group_id();
    let g2 = fresh_group_id();
    assert_eq!(g1.len(), 41);
    assert_eq!(g2.len(), 41);
    assert_eq!(&g1[..5], b"chat-");
    assert_eq!(&g2[..5], b"chat-");
    // Two sessions draw distinct tokens, so their delivery groups differ.
    assert_ne!(g1, g2);
    // The token is a hyphenated identifier: lowercase hex digits and dashes.
    for &byte in &g1[5..] {
        assert!(byte == b'-' || byte.is_ascii_hexdigit());
    }
}

#[test]
fn bytes_eq_agrees_with_equality() {
    assert!(bytes_eq(&bv("alice"), &bv("alice")));
    assert!(!bytes_eq(&bv("alice"), &bv("alicia")));
    assert!(!bytes_eq(&bv("alice"), &bv("alic")));
    assert!(bytes_eq(&Vec::new(), &Vec::new()));
}

#[test]
fn append_bytes_concatenates() {
    let mut out = bv("ab");
    append_bytes(&mut out, &bv("cd"));
    assert_eq!(out, bv("abcd"));
}
