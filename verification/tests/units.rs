use chatbot::membership::Membership;
use chatbot::registry::{Handler, Registry};
use chatbot::text::{first_token, message_args, split_tokens};
use chatbot::welcome::welcome_variant;

fn variant_for_draw(draw: f32) -> u8 {
    let percent = (draw * 100.0) as u8;
    welcome_variant(percent)
}

#[test]
fn welcome_variant_is_deterministic_in_the_draw() {
    assert_eq!(variant_for_draw(0.00), 0);
    assert_eq!(variant_for_draw(0.205), 0);
    assert_eq!(variant_for_draw(0.21), 1);
    assert_eq!(variant_for_draw(0.99), 4);
}

#[test]
fn welcome_variant_bucket_boundaries() {
    assert_eq!(welcome_variant(0), 0);
    assert_eq!(welcome_variant(20), 0);
    assert_eq!(welcome_variant(21), 1);
    assert_eq!(welcome_variant(40), 1);
    assert_eq!(welcome_variant(41), 2);
    assert_eq!(welcome_variant(60), 2);
    assert_eq!(welcome_variant(61), 3);
    assert_eq!(welcome_variant(80), 3);
    assert_eq!(welcome_variant(81), 4);
    assert_eq!(welcome_variant(99), 4);
}

#[test]
fn note_seen_is_true_exactly_once() {
    let mut m = Membership::new();
    assert!(m.note_seen(&"alice".to_string()));
    assert!(!m.note_seen(&"alice".to_string()));
    assert!(!m.note_seen(&"alice".to_string()));
    assert!(m.note_seen(&"bob".to_string()));
    assert!(!m.note_seen(&"bob".to_string()));
}

#[test]
fn pre_seeded_names_are_not_new() {
    let mut m = Membership::new();
    m.mark_seen("wizebot".to_string());
    assert!(!m.note_seen(&"wizebot".to_string()));
}

#[test]
fn permission_is_exact_membership() {
    let mut m = Membership::new();
    m.permit("alice".to_string());
    assert!(m.is_permitted(&"alice".to_string()));
    assert!(!m.is_permitted(&"eve".to_string()));
    // Equality is exact: no case normalisation.
    assert!(!m.is_permitted(&"Alice".to_string()));
}

#[test]
fn registering_twice_replaces_the_handler() {
    let mut r = Registry::new();
    r.register("!x".to_string(), Handler::Raid);
    r.register("!x".to_string(), Handler::Uptime);
    assert_eq!(r.lookup(&"!x".to_string()), Some(Handler::Uptime));
}

#[test]
fn lookup_misses_are_none() {
    let r = Registry::new().with_action("!x".to_string(), Handler::Raid);
    assert_eq!(r.lookup(&"!y".to_string()), None);
    assert_eq!(r.lookup(&"!x".to_string()), Some(Handler::Raid));
}

#[test]
fn first_token_is_the_text_before_the_first_space() {
    assert_eq!(first_token("!uptime now"), "!uptime");
    assert_eq!(first_token("!quit"), "!quit");
    assert_eq!(first_token(""), "");
    assert_eq!(first_token(" leading"), "");
}

#[test]
fn split_keeps_empty_tokens() {
    assert_eq!(split_tokens("a  b"), vec!["a", "", "b"]);
    assert_eq!(split_tokens(""), vec![""]);
    assert_eq!(split_tokens("one"), vec!["one"]);
}

#[test]
fn message_args_drop_the_command_token() {
    assert_eq!(message_args("!sr http://a http://b"), vec!["http://a", "http://b"]);
    assert_eq!(message_args("!sr"), Vec::<String>::new());
    assert_eq!(message_args("!sr  x"), vec!["", "x"]);
}
