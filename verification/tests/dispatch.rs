use chatbot::dispatch::{Bot, Effect, Event, Phase, Sound};
use chatbot::membership::Membership;
use chatbot::registry::{Handler, Registry};

fn standard_registry() -> Registry {
    Registry::new()
        .with_action("!raid".to_string(), Handler::Raid)
        .with_action("!follow".to_string(), Handler::Follow)
        .with_action("!host".to_string(), Handler::Host)
        .with_action("!sr".to_string(), Handler::SongRequest)
        .with_action("!uptime".to_string(), Handler::Uptime)
        .with_action("!quit".to_string(), Handler::Quit)
}

fn running_bot(permitted: &[&str], seen: &[&str]) -> Bot {
    let mut membership = Membership::new();
    for name in permitted {
        membership.permit(name.to_string());
    }
    for name in seen {
        membership.mark_seen(name.to_string());
    }
    let mut bot = Bot::new(standard_registry(), membership);
    bot.joined();
    bot.start();
    bot
}

fn message(sender: &str, text: &str) -> Event {
    Event::Message {
        sender: sender.to_string(),
        text: text.to_string(),
    }
}

fn is_welcome(effect: &Effect) -> bool {
    matches!(effect, Effect::Play(Sound::Welcome(v)) if *v <= 4)
}

fn is_handler_effect(effect: &Effect) -> bool {
    !is_welcome(effect)
}

#[test]
fn uptime_command_replies_and_welcomes_new_sender() {
    let mut bot = running_bot(&["alice"], &[]);
    let effects = bot.on_event(&message("alice", "!uptime now"));
    assert_eq!(effects.len(), 2);
    assert_eq!(effects[0], Effect::ReplyUptime);
    assert!(is_welcome(&effects[1]));
    assert_eq!(bot.phase, Phase::Running);

    // alice is now seen: the same message brings no second welcome.
    let effects = bot.on_event(&message("alice", "!uptime now"));
    assert_eq!(effects.len(), 1);
    assert_eq!(effects[0], Effect::ReplyUptime);
}

#[test]
fn unpermitted_sender_triggers_no_handler() {
    let mut bot = running_bot(&["alice"], &[]);
    let effects = bot.on_event(&message("eve", "!quit"));
    assert!(effects.iter().all(|e| !is_handler_effect(e)));
    assert_eq!(bot.phase, Phase::Running);

    // eve was still noted as seen: no welcome the second time either.
    let effects = bot.on_event(&message("eve", "!quit"));
    assert!(effects.is_empty());
    assert_eq!(bot.phase, Phase::Running);
}

#[test]
fn quit_command_replies_then_signals() {
    let mut bot = running_bot(&["bob"], &["bob"]);
    let effects = bot.on_event(&message("bob", "!quit"));
    assert_eq!(effects, vec![Effect::ReplyFarewell, Effect::SignalQuit]);
    // Termination is observed at the next poll, not inside the handler.
    assert_eq!(bot.phase, Phase::Running);

    let effects = bot.on_event(&Event::Quit);
    assert!(effects.is_empty());
    assert_eq!(bot.phase, Phase::Terminating);
    bot.finish();
    assert_eq!(bot.phase, Phase::Stopped);

    // A stopped bot processes no further messages.
    let effects = bot.on_event(&message("bob", "!uptime"));
    assert!(effects.is_empty());
    assert_eq!(bot.phase, Phase::Stopped);
}

#[test]
fn song_request_appends_arguments_in_order() {
    let mut bot = running_bot(&["alice"], &["alice"]);
    let effects = bot.on_event(&message("alice", "!sr http://a http://b"));
    assert_eq!(
        effects,
        vec![Effect::Append(vec![
            "http://a".to_string(),
            "http://b".to_string()
        ])]
    );
}

#[test]
fn song_request_without_arguments_appends_nothing() {
    let mut bot = running_bot(&["alice"], &["alice"]);
    let effects = bot.on_event(&message("alice", "!sr"));
    assert_eq!(effects, vec![Effect::Append(Vec::new())]);
}

#[test]
fn song_request_keeps_empty_tokens() {
    let mut bot = running_bot(&["alice"], &["alice"]);
    let effects = bot.on_event(&message("alice", "!sr  x"));
    assert_eq!(
        effects,
        vec![Effect::Append(vec!["".to_string(), "x".to_string()])]
    );
}

#[test]
fn notification_commands_play_their_sound() {
    let mut bot = running_bot(&["alice"], &["alice"]);
    let effects = bot.on_event(&message("alice", "!raid"));
    assert_eq!(effects, vec![Effect::Play(Sound::Raid)]);
    let effects = bot.on_event(&message("alice", "!follow"));
    assert_eq!(effects, vec![Effect::Play(Sound::Follow)]);
    let effects = bot.on_event(&message("alice", "!host"));
    assert_eq!(effects, vec![Effect::Play(Sound::Host)]);
}

#[test]
fn unregistered_command_is_not_an_error() {
    let mut bot = running_bot(&["alice"], &["alice"]);
    let effects = bot.on_event(&message("alice", "!unknown stuff"));
    assert!(effects.is_empty());
    assert_eq!(bot.phase, Phase::Running);
}

#[test]
fn command_token_includes_the_marker_and_matches_exactly() {
    let mut bot = running_bot(&["alice"], &["alice"]);
    // "uptime" without the marker is not the registered "!uptime".
    let effects = bot.on_event(&message("alice", "uptime"));
    assert!(effects.is_empty());
    // Arguments after the token do not disturb the match.
    let effects = bot.on_event(&message("alice", "!uptime whatever else"));
    assert_eq!(effects, vec![Effect::ReplyUptime]);
}

#[test]
fn eof_is_terminal() {
    let mut bot = running_bot(&[], &[]);
    let effects = bot.on_event(&Event::Eof);
    assert!(effects.is_empty());
    assert_eq!(bot.phase, Phase::Terminating);
}

#[test]
fn other_protocol_events_are_ignored() {
    let mut bot = running_bot(&["alice"], &[]);
    let effects = bot.on_event(&Event::Other);
    assert!(effects.is_empty());
    assert_eq!(bot.phase, Phase::Running);
}

#[test]
fn events_before_the_steady_state_do_nothing() {
    let membership = Membership::new();
    let mut bot = Bot::new(standard_registry(), membership);
    assert_eq!(bot.phase, Phase::Connecting);
    let effects = bot.on_event(&message("alice", "!uptime"));
    assert!(effects.is_empty());
    assert_eq!(bot.phase, Phase::Connecting);
}
