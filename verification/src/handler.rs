//! The bot's reactive core: one handler per connection session, driven by the
//! events the connection delivers. The handler only decides; its caller (the
//! connection's runner) performs each decided lookup and send, so everything
//! the bot does to an event is stated and checked here.

use vstd::prelude::*;

use crate::channels::ChannelInfo;
use crate::channels::resolve_channel_id;
use crate::channels::resolved_id;
use crate::config::BotConfig;
use crate::keywords::find_first_keyword;
use crate::keywords::first_match;
use crate::keywords::lemma_first_match_characterizes;
use crate::keywords::lemma_match_iff_keyword_occurs;
use crate::keywords::views_of;
use crate::text::contains_sub;
use crate::text::lower_of;
use crate::text::lowercase;

verus! {

/// One event of the messaging session, as the connection delivers it: a
/// closed set of tags, each carrying only the fields the handler reads.
pub enum Event {
    /// The handshake completed; carries the channel listing it exposed.
    Hello { channels: Vec<ChannelInfo> },
    /// A standard text message. Either field may be absent on a malformed
    /// payload; such an event is skipped, never an error.
    StandardMessage { text: Option<String>, channel: Option<String> },
    /// A message event of another subtype: an edit, a deletion, a bot notice.
    OtherMessageSubtype,
    /// The connection closed.
    Close,
    /// Any other event category.
    Other,
}

/// Where the session stands.
#[derive(Clone, Copy, PartialEq, Eq, Structural, Debug)]
pub enum Phase {
    /// Connected but not yet bound to the configured channel.
    Connecting,
    /// Bound and serving messages.
    Active,
    /// The session is over; no further work is done.
    Closed,
}

/// What the handler asks its caller to do after one event. The handler does
/// no network work itself: the runner carries each outcome out.
pub enum Outcome {
    /// The session is bound to its channel; nothing to send.
    Connected,
    /// No listed channel carries the configured name: a fatal configuration
    /// error, the session is aborted.
    FatalUnknownChannel,
    /// A keyword occurred in the message: look up media for `tag` and, on
    /// success, send the resulting URL to `channel` (`decide_reply` states
    /// what follows from each lookup outcome).
    Triggered { tag: String, channel: String },
    /// Nothing to do for this event.
    Ignored,
    /// The session ended.
    SessionClosed,
}

/// The per-session event handler: the configured trigger data, plus the one
/// mutable cell of the bot, the channel binding written at connect time.
pub struct GiphyBot {
    /// Key for the media-lookup service.
    pub api_key: String,
    /// Trigger keywords, scanned in this order.
    pub keywords: Vec<String>,
    /// The configured channel name, bound at connect time.
    pub channel_name: String,
    /// The id the channel name resolved to; written once, at connect.
    pub resolved_channel: Option<String>,
    /// Where the session stands.
    pub phase: Phase,
}

impl GiphyBot {
    /// The handler's invariant: an active session is bound to a channel.
    pub open spec fn wf(self) -> bool {
        self.phase is Active ==> self.resolved_channel is Some
    }

    /// The state after the connect hook: bound and active when the
    /// configured name resolves against the listing, over otherwise.
    pub open spec fn connect_state(self, channels: Seq<ChannelInfo>) -> GiphyBot {
        match resolved_id(channels, self.channel_name@) {
            Some(id) => GiphyBot {
                phase: Phase::Active,
                resolved_channel: Some(id),
                ..self
            },
            None => GiphyBot { phase: Phase::Closed, ..self },
        }
    }

    /// What the connect hook reports: connected, or fatally misconfigured.
    pub open spec fn connect_outcome(self, channels: Seq<ChannelInfo>) -> Outcome {
        if resolved_id(channels, self.channel_name@) is Some {
            Outcome::Connected
        } else {
            Outcome::FatalUnknownChannel
        }
    }

    /// What one standard message leads to: outside an active session, or
    /// with no text field, nothing; otherwise one lookup of the first
    /// configured keyword contained in the lower-cased text, sent to the
    /// channel the session is bound to — or nothing when no keyword occurs.
    pub open spec fn message_outcome(self, text: Option<String>) -> Outcome {
        if !(self.phase is Active) {
            Outcome::Ignored
        } else {
            match text {
                None => Outcome::Ignored,
                Some(t) => match first_match(views_of(self.keywords@), lower_of(t@)) {
                    Some(i) => Outcome::Triggered {
                        tag: self.keywords@[i],
                        channel: self.resolved_channel->0,
                    },
                    None => Outcome::Ignored,
                },
            }
        }
    }

    /// The invariant, decided at run time, for callers outside the crate:
    /// every constructor and hook of this type keeps it, so a caller that
    /// only goes through them always sees `true`.
    pub fn is_wf(&self) -> (r: bool)
        ensures
            r == self.wf(),
    {
        match (&self.phase, &self.resolved_channel) {
            (Phase::Active, None) => false,
            _ => true,
        }
    }

    /// Make the handler for validated settings; the session starts unbound.
    pub fn new(config: BotConfig) -> (bot: GiphyBot)
        ensures
            bot.api_key == config.api_key,
            bot.keywords == config.keywords,
            bot.channel_name == config.channel_name,
            bot.resolved_channel is None,
            bot.phase is Connecting,
            bot.wf(),
    {
        GiphyBot {
            api_key: config.api_key,
            keywords: config.keywords,
            channel_name: config.channel_name,
            resolved_channel: None,
            phase: Phase::Connecting,
        }
    }

    /// The connect hook: bind the configured channel name to an id from the
    /// handshake's channel listing. A name no listed channel carries is a
    /// fatal configuration error; the session ends before serving a message.
    pub fn on_connect(&mut self, channels: &Vec<ChannelInfo>) -> (r: Outcome)
        ensures
            *final(self) == old(self).connect_state(channels@),
            r == old(self).connect_outcome(channels@),
            final(self).wf(),
    {
        match resolve_channel_id(channels, &self.channel_name) {
            Some(id) => {
                self.resolved_channel = Some(id);
                self.phase = Phase::Active;
                Outcome::Connected
            },
            None => {
                self.phase = Phase::Closed;
                Outcome::FatalUnknownChannel
            },
        }
    }

    /// The message hook: on a standard text message in an active session,
    /// lower-case the text, scan the keywords in configured order, and ask
    /// for one lookup of the first keyword that occurs. A message with no
    /// text field, a session not active, or a text no keyword occurs in all
    /// lead to nothing; the handler's state never changes on a message.
    pub fn on_message(&self, text: &Option<String>) -> (r: Outcome)
        requires
            self.wf(),
        ensures
            r == self.message_outcome(*text),
    {
        if self.phase == Phase::Active {
            match text {
                Some(t) => {
                    let lowered = lowercase(t.as_str());
                    match find_first_keyword(&self.keywords, lowered.as_str()) {
                        Some(i) => {
                            proof {
                                lemma_first_match_characterizes(
                                    views_of(self.keywords@),
                                    lowered@,
                                );
                            }
                            match &self.resolved_channel {
                                Some(c) => Outcome::Triggered {
                                    tag: self.keywords[i].clone(),
                                    channel: c.clone(),
                                },
                                None => unreached(),
                            }
                        },
                        None => Outcome::Ignored,
                    }
                },
                None => Outcome::Ignored,
            }
        } else {
            Outcome::Ignored
        }
    }

    /// The close hook: the session is over. The configuration is kept; this
    /// session's channel binding stays as it was written.
    pub fn on_close(&mut self)
        ensures
            *final(self) == (GiphyBot { phase: Phase::Closed, ..*old(self) }),
    {
        self.phase = Phase::Closed;
    }

    /// The event hook: classify one delivered event and dispatch it to the
    /// hook that serves it. Only `Hello` and `Close` change the handler's
    /// state; message events leave it unchanged, and event categories the bot
    /// does not serve are ignored outright.
    pub fn on_event(&mut self, event: &Event) -> (r: Outcome)
        requires
            old(self).wf(),
        ensures
            final(self).wf(),
            match *event {
                Event::Hello { channels } => *final(self) == old(self).connect_state(channels@)
                    && r == old(self).connect_outcome(channels@),
                Event::StandardMessage { text, channel } => *final(self) == *old(self) && r
                    == old(self).message_outcome(text),
                Event::OtherMessageSubtype => *final(self) == *old(self) && r is Ignored,
                Event::Close => *final(self) == (GiphyBot {
                    phase: Phase::Closed,
                    ..*old(self)
                }) && r is SessionClosed,
                Event::Other => *final(self) == *old(self) && r is Ignored,
            },
    {
        match event {
            Event::Hello { channels } => self.on_connect(channels),
            Event::StandardMessage { text, channel: _ } => self.on_message(text),
            Event::OtherMessageSubtype => Outcome::Ignored,
            Event::Close => {
                self.on_close();
                Outcome::SessionClosed
            },
            Event::Other => Outcome::Ignored,
        }
    }

    /// Channel-binding law: every reply a message triggers is addressed to
    /// the id the configured channel name resolved to at connect time —
    /// no message event can redirect the session elsewhere.
    pub proof fn lemma_sends_go_to_bound_channel(self, text: Option<String>)
        requires
            self.wf(),
        ensures
            self.message_outcome(text) matches Outcome::Triggered { channel, .. } ==> Some(
                channel,
            ) == self.resolved_channel,
    {
    }

    /// Exactly-one-lookup law: a standard message in an active session
    /// triggers a lookup exactly when its lower-cased text contains at least
    /// one configured keyword — and then one single lookup, of the first
    /// configured keyword that occurs (no further keyword is tried).
    pub proof fn lemma_message_triggers_iff(self, t: String)
        requires
            self.wf(),
            self.phase is Active,
        ensures
            self.message_outcome(Some(t)) is Triggered <==> exists|j: int|
                0 <= j < self.keywords@.len() && contains_sub(lower_of(t@), self.keywords@[j]@),
    {
        let kws = views_of(self.keywords@);
        lemma_match_iff_keyword_occurs(kws, lower_of(t@));
        if self.message_outcome(Some(t)) is Triggered {
            let j = choose|j: int| 0 <= j < kws.len() && contains_sub(lower_of(t@), kws[j]);
            assert(contains_sub(lower_of(t@), self.keywords@[j]@));
        }
        if exists|j: int|
            0 <= j < self.keywords@.len() && contains_sub(lower_of(t@), self.keywords@[j]@) {
            let j = choose|j: int|
                0 <= j < self.keywords@.len() && contains_sub(lower_of(t@), self.keywords@[j]@);
            assert(contains_sub(lower_of(t@), kws[j]));
        }
    }
}

} // verus!
