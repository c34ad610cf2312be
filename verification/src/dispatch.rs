//! The dispatcher: the decision logic of the bot's main loop. Given the
//! current bot state and one inbound event it decides which effects to
//! perform — play a notification, append song requests to the queue, reply,
//! or signal shutdown — and how the state changes. The surrounding process
//! polls the session for events, hands each one in, and performs the
//! returned effects; a handler is invoked only for a permitted sender whose
//! message's first token is a registered command name.

use crate::membership::Membership;
use crate::registry::Handler;
use crate::registry::Registry;
use crate::text::first_token;
use crate::text::message_args;
use crate::text::spec_args;
use crate::text::spec_first_token;
use crate::welcome::draw_percent;
use crate::welcome::spec_welcome_variant;
use crate::welcome::welcome_variant;
use vstd::prelude::*;

verus! {

/// One inbound event from the session, as the dispatcher sees it: a chat
/// message with its sender, a request to quit, the end of the stream, or any
/// other protocol event, which the dispatcher ignores.
#[derive(Debug)]
pub enum Event {
    Message { sender: String, text: String },
    Quit,
    Eof,
    Other,
}

/// A notification sound: one for each no-argument command, and the five
/// welcome variants, numbered 0 to 4.
#[derive(Clone, Copy, PartialEq, Eq, Structural, Debug)]
pub enum Sound {
    Raid,
    Follow,
    Host,
    Welcome(u8),
}

/// An outward effect the dispatcher asks its caller to perform. Replies go
/// through the session's shared writer; `SignalQuit` triggers the cooperative
/// cancellation handle, so the next poll yields a terminal event.
#[derive(PartialEq, Debug)]
pub enum Effect {
    Play(Sound),
    Append(Vec<String>),
    ReplyUptime,
    ReplyFarewell,
    SignalQuit,
}

/// The mathematical shape of an effect, with the queue lines as a sequence
/// of character sequences.
pub enum EffectView {
    Play(Sound),
    Append(Seq<Seq<char>>),
    ReplyUptime,
    ReplyFarewell,
    SignalQuit,
}

impl DeepView for Effect {
    type V = EffectView;

    open spec fn deep_view(&self) -> EffectView {
        match self {
            Effect::Play(s) => EffectView::Play(*s),
            Effect::Append(lines) => EffectView::Append(lines.deep_view()),
            Effect::ReplyUptime => EffectView::ReplyUptime,
            Effect::ReplyFarewell => EffectView::ReplyFarewell,
            Effect::SignalQuit => EffectView::SignalQuit,
        }
    }
}

/// The effects a handler produces when invoked on a message's text.
pub open spec fn handler_effects(h: Handler, text: Seq<char>) -> Seq<EffectView> {
    match h {
        Handler::Raid => seq![EffectView::Play(Sound::Raid)],
        Handler::Follow => seq![EffectView::Play(Sound::Follow)],
        Handler::Host => seq![EffectView::Play(Sound::Host)],
        Handler::SongRequest => seq![EffectView::Append(spec_args(text))],
        Handler::Uptime => seq![EffectView::ReplyUptime],
        Handler::Quit => seq![EffectView::ReplyFarewell, EffectView::SignalQuit],
    }
}

/// Invokes a handler on a message's text and returns its effects: the
/// no-argument handlers play their notification, the song-request handler
/// appends every token after the command name, the uptime handler replies,
/// and the quit handler replies and then signals shutdown.
pub fn invoke(h: Handler, text: &str) -> (effects: Vec<Effect>)
    ensures
        effects.deep_view() == handler_effects(h, text@),
{
    let mut effects: Vec<Effect> = Vec::new();
    match h {
        Handler::Raid => effects.push(Effect::Play(Sound::Raid)),
        Handler::Follow => effects.push(Effect::Play(Sound::Follow)),
        Handler::Host => effects.push(Effect::Play(Sound::Host)),
        Handler::SongRequest => effects.push(Effect::Append(message_args(text))),
        Handler::Uptime => effects.push(Effect::ReplyUptime),
        Handler::Quit => {
            effects.push(Effect::ReplyFarewell);
            effects.push(Effect::SignalQuit);
        },
    }
    proof {
        assert(effects.deep_view() =~= handler_effects(h, text@));
    }
    effects
}

/// The dispatcher's lifecycle: connect, join the configured channels, run
/// the steady-state loop, then wind down after a terminal event.
#[derive(Clone, Copy, PartialEq, Eq, Structural, Debug)]
pub enum Phase {
    Connecting,
    Joined,
    Running,
    Terminating,
    Stopped,
}

/// The bot's whole state: the command registry, immutable during the run;
/// the membership tracker; and the lifecycle phase. Exactly one instance
/// exists per running bot, owned by the loop that drives it.
pub struct Bot {
    pub registry: Registry,
    pub membership: Membership,
    pub phase: Phase,
}

/// The handler-invocation part of dispatching one message: empty unless the
/// sender is permitted and the first token of the text is a registered
/// command name.
pub open spec fn spec_handler_part(bot: Bot, sender: Seq<char>, text: Seq<char>) -> Seq<
    EffectView,
> {
    let tok = spec_first_token(text);
    if bot.membership.permitted().contains(sender) && bot.registry@.contains_key(tok) {
        handler_effects(bot.registry@[tok], text)
    } else {
        Seq::empty()
    }
}

/// The welcome part of dispatching one message: one welcome notification,
/// chosen by the draw, exactly when the sender has not been seen before.
pub open spec fn spec_welcome_part(bot: Bot, sender: Seq<char>, draw: u8) -> Seq<EffectView> {
    if !bot.membership.seen().contains(sender) {
        seq![EffectView::Play(Sound::Welcome(spec_welcome_variant(draw)))]
    } else {
        Seq::empty()
    }
}

/// Everything dispatching one message produces: the handler's effects, if
/// any, followed by the welcome notification, if the sender is new.
pub open spec fn spec_message_effects(
    bot: Bot,
    sender: Seq<char>,
    text: Seq<char>,
    draw: u8,
) -> Seq<EffectView> {
    spec_handler_part(bot, sender, text) + spec_welcome_part(bot, sender, draw)
}

impl Bot {
    pub open spec fn wf(&self) -> bool {
        self.registry.wf()
    }

    /// A bot about to connect, with the given commands and seeded membership.
    pub fn new(registry: Registry, membership: Membership) -> (b: Bot)
        requires
            registry.wf(),
        ensures
            b.wf(),
            b.registry == registry,
            b.membership == membership,
            b.phase == Phase::Connecting,
    {
        Bot { registry, membership, phase: Phase::Connecting }
    }

    /// The session is connected and the channels are joined; a failed join is
    /// logged by the caller and does not stop the run.
    pub fn joined(&mut self)
        requires
            old(self).phase == Phase::Connecting,
        ensures
            final(self).phase == Phase::Joined,
            final(self).registry == old(self).registry,
            final(self).membership == old(self).membership,
    {
        self.phase = Phase::Joined;
    }

    /// Enters the steady state: from here on the caller polls the session
    /// and hands every event to `on_event`.
    pub fn start(&mut self)
        requires
            old(self).phase == Phase::Joined,
        ensures
            final(self).phase == Phase::Running,
            final(self).registry == old(self).registry,
            final(self).membership == old(self).membership,
    {
        self.phase = Phase::Running;
    }

    /// Final bookkeeping after the terminal event; the loop never resumes.
    pub fn finish(&mut self)
        requires
            old(self).phase == Phase::Terminating,
        ensures
            final(self).phase == Phase::Stopped,
            final(self).registry == old(self).registry,
            final(self).membership == old(self).membership,
    {
        self.phase = Phase::Stopped;
    }

    /// Dispatches one message: if the sender is permitted and the first token
    /// of the text names a registered command, that handler's effects come
    /// first; then the sender is noted as seen, and a newly seen sender adds
    /// one welcome notification chosen by `draw`.
    pub fn handle_message(&mut self, sender: &String, text: &String, draw: u8) -> (effects: Vec<
        Effect,
    >)
        requires
            old(self).wf(),
        ensures
            final(self).wf(),
            effects.deep_view() == spec_message_effects(*old(self), sender@, text@, draw),
            final(self).registry == old(self).registry,
            final(self).phase == old(self).phase,
            final(self).membership.permitted() == old(self).membership.permitted(),
            final(self).membership.seen() == old(self).membership.seen().insert(sender@),
    {
        let ghost pre = *self;
        let mut effects: Vec<Effect> = Vec::new();
        if self.membership.is_permitted(sender) {
            let tok = first_token(text.as_str());
            if let Some(h) = self.registry.lookup(&tok) {
                effects = invoke(h, text.as_str());
            }
        }
        proof {
            assert(effects.deep_view() =~= spec_handler_part(pre, sender@, text@));
        }
        let first = self.membership.note_seen(sender);
        if first {
            let v = welcome_variant(draw);
            effects.push(Effect::Play(Sound::Welcome(v)));
        }
        proof {
            assert(effects.deep_view() =~= spec_message_effects(pre, sender@, text@, draw));
        }
        effects
    }

    /// One turn of the dispatcher. In the steady state a message is
    /// dispatched as `handle_message` says, under some draw below 100; a
    /// quit signal or the end of the stream moves the bot to `Terminating`
    /// with no effects; any other protocol event is ignored. Outside the
    /// steady state nothing happens at all.
    pub fn on_event(&mut self, ev: &Event) -> (effects: Vec<Effect>)
        requires
            old(self).wf(),
        ensures
            final(self).wf(),
            final(self).registry == old(self).registry,
            final(self).membership.permitted() == old(self).membership.permitted(),
            old(self).phase != Phase::Running ==> *final(self) == *old(self)
                && effects.deep_view() == Seq::<EffectView>::empty(),
            old(self).phase == Phase::Running ==> match ev {
                Event::Message { sender, text } => {
                    &&& final(self).phase == Phase::Running
                    &&& final(self).membership.seen() == old(self).membership.seen().insert(
                        sender@,
                    )
                    &&& exists|draw: u8|
                        draw < 100 && effects.deep_view() == spec_message_effects(
                            *old(self),
                            sender@,
                            text@,
                            draw,
                        )
                },
                Event::Quit | Event::Eof => {
                    &&& final(self).phase == Phase::Terminating
                    &&& final(self).membership.seen() == old(self).membership.seen()
                    &&& effects.deep_view() == Seq::<EffectView>::empty()
                },
                Event::Other => {
                    &&& *final(self) == *old(self)
                    &&& effects.deep_view() == Seq::<EffectView>::empty()
                },
            },
    {
        if !(self.phase == Phase::Running) {
            let effects: Vec<Effect> = Vec::new();
            proof {
                assert(effects.deep_view() =~= Seq::<EffectView>::empty());
            }
            return effects;
        }
        match ev {
            Event::Message { sender, text } => {
                let draw = draw_percent();
                let effects = self.handle_message(sender, text, draw);
                proof {
                    assert(draw < 100 && effects.deep_view() == spec_message_effects(
                        *old(self),
                        sender@,
                        text@,
                        draw,
                    ));
                }
                effects
            },
            Event::Quit | Event::Eof => {
                self.phase = Phase::Terminating;
                let effects: Vec<Effect> = Vec::new();
                proof {
                    assert(effects.deep_view() =~= Seq::<EffectView>::empty());
                }
                effects
            },
            Event::Other => {
                let effects: Vec<Effect> = Vec::new();
                proof {
                    assert(effects.deep_view() =~= Seq::<EffectView>::empty());
                }
                effects
            },
        }
    }
}

/// An identity outside the permission set never reaches a handler: whatever
/// the message text and whatever the draw, dispatching its message produces
/// no handler effects — only, at most, the one welcome notification.
pub proof fn lemma_unpermitted_no_handler(bot: Bot, sender: Seq<char>, text: Seq<char>, draw: u8)
    requires
        !bot.membership.permitted().contains(sender),
    ensures
        spec_handler_part(bot, sender, text) == Seq::<EffectView>::empty(),
        spec_message_effects(bot, sender, text, draw) == spec_welcome_part(bot, sender, draw),
{
    assert(spec_handler_part(bot, sender, text) + spec_welcome_part(bot, sender, draw)
        =~= spec_welcome_part(bot, sender, draw));
}

} // verus!
