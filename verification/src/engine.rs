//! Request lifecycle engine: turns an incoming chat event into an ordered
//! list of side effects.
//!
//! Each request message moves from open to a terminal state (archived or
//! discarded); no state is persisted, so the engine decides from the event
//! and from the data an adapter fetched for it. The adapter owns the
//! platform connection: it classifies the raw reaction emoji, fetches the
//! current identity, the board configuration and the message between
//! decisions, and then performs the returned effects in order, best-effort
//! (a failed effect is dropped, never retried, and does not stop the ones
//! after it).

use vstd::prelude::*;

use crate::archive::ArchiveRecord;
use crate::archive::ArchiveRecordView;
use crate::archive::Resolution;
use crate::archive::ResolvedRequest;
use crate::archive::ResolvedRequestView;
use crate::archive::compose;
use crate::archive::spec_compose;
use crate::archive::user_mention;
use crate::archive::user_mention_text;
use crate::permission::can_resolve;
use crate::permission::spec_can_resolve;
use crate::store::ChannelPairConfig;

verus! {

/// A new message appeared in some channel.
#[derive(Clone, Copy, PartialEq, Eq, Structural, Debug)]
pub struct NewMessageEvent {
    pub channel_id: u64,
    pub message_id: u64,
    /// The platform posts a notice message into the parent channel when a
    /// thread is created; such a notice is an artifact, not a request.
    pub is_thread_creation_notice: bool,
}

/// A resolution marker was added to some message. The raw emoji has already
/// been classified (see `classify_emoji`); everything else is carried as the
/// platform delivered it.
#[derive(Clone, PartialEq, Eq, Debug)]
pub struct ResolutionEvent {
    pub channel_id: u64,
    pub message_id: u64,
    pub resolution: Resolution,
    pub actor_id: u64,
    pub actor_role_ids: Vec<u64>,
}

/// Mathematical image of a `ResolutionEvent`.
pub struct ResolutionEventView {
    pub channel_id: u64,
    pub message_id: u64,
    pub resolution: Resolution,
    pub actor_id: u64,
    pub actor_role_ids: Seq<u64>,
}

impl View for ResolutionEvent {
    type V = ResolutionEventView;

    open spec fn view(&self) -> ResolutionEventView {
        ResolutionEventView {
            channel_id: self.channel_id,
            message_id: self.message_id,
            resolution: self.resolution,
            actor_id: self.actor_id,
            actor_role_ids: self.actor_role_ids@,
        }
    }
}

/// One side effect for the adapter to perform against the platform.
#[derive(Clone, PartialEq, Eq, Debug)]
pub enum Effect {
    /// Attach a resolution marker to a message.
    AttachMarker { channel_id: u64, message_id: u64, marker: Resolution },
    /// Delete a message.
    DeleteMessage { channel_id: u64, message_id: u64 },
    /// Archive a conversation thread.
    ArchiveThread { thread_id: u64 },
    /// Post an archive record to an archive channel.
    PostArchiveRecord { archive_channel_id: u64, record: ArchiveRecord },
}

/// The effect at `e` posts `record` to `archive_channel_id`.
pub open spec fn is_post_effect(e: Effect, archive_channel_id: u64, record: ArchiveRecordView) -> bool {
    &&& e matches Effect::PostArchiveRecord { archive_channel_id: ch, record: r }
    &&& ch == archive_channel_id
    &&& r@ == record
}

/// What handling a new message must produce. A message in an unconfigured
/// channel is ignored entirely; a thread-creation notice in a configured
/// channel is deleted; any other message in a configured channel is marked
/// open by attaching exactly two markers, approve then reject, in that
/// order, and is not deleted.
pub open spec fn spec_new_message_effects(
    event: NewMessageEvent,
    config_present: bool,
    effects: Seq<Effect>,
) -> bool {
    if !config_present {
        effects.len() == 0
    } else if event.is_thread_creation_notice {
        effects.len() == 1 && effects[0] == (Effect::DeleteMessage {
            channel_id: event.channel_id,
            message_id: event.message_id,
        })
    } else {
        &&& effects.len() == 2
        &&& effects[0] == (Effect::AttachMarker {
            channel_id: event.channel_id,
            message_id: event.message_id,
            marker: Resolution::Approve,
        })
        &&& effects[1] == (Effect::AttachMarker {
            channel_id: event.channel_id,
            message_id: event.message_id,
            marker: Resolution::Reject,
        })
    }
}

/// Handles a new message: `config` is the board configuration for the
/// message's channel, absent when the channel is not a configured request
/// board. The guard on `config` runs before anything else, so events in
/// unrelated channels cost no further work.
pub fn handle_new_message(
    event: &NewMessageEvent,
    config: Option<&ChannelPairConfig>,
) -> (effects: Vec<Effect>)
    ensures
        spec_new_message_effects(*event, config is Some, effects@),
{
    let mut effects: Vec<Effect> = Vec::new();
    if config.is_none() {
        return effects;
    }
    if event.is_thread_creation_notice {
        effects.push(Effect::DeleteMessage {
            channel_id: event.channel_id,
            message_id: event.message_id,
        });
    } else {
        effects.push(Effect::AttachMarker {
            channel_id: event.channel_id,
            message_id: event.message_id,
            marker: Resolution::Approve,
        });
        effects.push(Effect::AttachMarker {
            channel_id: event.channel_id,
            message_id: event.message_id,
            marker: Resolution::Reject,
        });
    }
    effects
}

/// Classifies a raw reaction emoji: the approve marker, the reject marker,
/// or neither. The first gate of reaction handling — anything but the two
/// markers is rejected before any platform or store work happens.
pub fn classify_emoji(emoji: &str) -> (r: Option<Resolution>)
    ensures
        match r {
            Some(Resolution::Approve) => emoji@ == seq!['✅'],
            Some(Resolution::Reject) => emoji@ == seq!['❌'],
            None => emoji@ != seq!['✅'] && emoji@ != seq!['❌'],
        },
{
    let n = emoji.unicode_len();
    if n != 1 {
        assert(emoji@ != seq!['✅'] && emoji@ != seq!['❌']);
        return None;
    }
    let c = emoji.get_char(0);
    if c == '✅' {
        assert(emoji@ =~= seq!['✅']);
        Some(Resolution::Approve)
    } else if c == '❌' {
        assert(emoji@ =~= seq!['❌']);
        Some(Resolution::Reject)
    } else {
        assert(emoji@ != seq!['✅']) by {
            assert(seq!['✅'][0] == '✅');
        }
        assert(emoji@ != seq!['❌']) by {
            assert(seq!['❌'][0] == '❌');
        }
        None
    }
}

/// A reaction is worth processing only when the current platform identity
/// is known and the actor is somebody else: the engine must not resolve a
/// request off its own marker placement.
pub fn is_foreign_reaction(event: &ResolutionEvent, current_user_id: Option<u64>) -> (proceed:
    bool)
    ensures
        proceed == (current_user_id matches Some(u) && u != event.actor_id),
{
    match current_user_id {
        Some(u) => u != event.actor_id,
        None => false,
    }
}

/// What resolving a reaction must produce, given the board configuration
/// for the reaction's channel and the fetched message. No configuration
/// (not a request board), no message (already removed — the request is
/// treated as already resolved) or a disallowed actor yields no side effect
/// at all; an allowed actor yields, in order: archive the associated thread
/// if one exists, post the composed archive record to the board's archive
/// channel, and delete the original message. Archiving and posting come
/// before deletion, so a failed deletion still leaves the request visibly
/// closed.
pub open spec fn spec_resolution_effects(
    event: ResolutionEventView,
    config: Option<ChannelPairConfig>,
    message: Option<ResolvedRequestView>,
    effects: Seq<Effect>,
) -> bool {
    match (config, message) {
        (Some(c), Some(m)) => {
            if !spec_can_resolve(event.actor_id, event.actor_role_ids, m.author.id, c.manager_role) {
                effects.len() == 0
            } else {
                let record = spec_compose(m, event.resolution, user_mention(event.actor_id));
                match m.thread_id {
                    Some(t) => {
                        &&& effects.len() == 3
                        &&& effects[0] == (Effect::ArchiveThread { thread_id: t })
                        &&& is_post_effect(effects[1], c.archive_channel, record)
                        &&& effects[2] == (Effect::DeleteMessage {
                            channel_id: event.channel_id,
                            message_id: event.message_id,
                        })
                    },
                    None => {
                        &&& effects.len() == 2
                        &&& is_post_effect(effects[0], c.archive_channel, record)
                        &&& effects[1] == (Effect::DeleteMessage {
                            channel_id: event.channel_id,
                            message_id: event.message_id,
                        })
                    },
                }
            }
        },
        _ => effects.len() == 0,
    }
}

/// Resolves a reaction. `config` is the board configuration for the
/// reaction's channel; `message` is the fetched request message, absent
/// when it no longer exists. A duplicate resolution event on a message that
/// was already deleted therefore produces zero side effects — no second
/// archive record is ever posted. An actor who is neither the request's
/// author nor a manager-role holder is ignored silently, with no error
/// reply: a deliberate low-noise policy.
pub fn resolution_effects(
    event: &ResolutionEvent,
    config: Option<&ChannelPairConfig>,
    message: Option<&ResolvedRequest>,
) -> (effects: Vec<Effect>)
    ensures
        spec_resolution_effects(
            event@,
            match config {
                Some(c) => Some(*c),
                None => None,
            },
            match message {
                Some(m) => Some(m@),
                None => None,
            },
            effects@,
        ),
{
    let mut effects: Vec<Effect> = Vec::new();
    let (c, m) = match (config, message) {
        (Some(c), Some(m)) => (c, m),
        _ => { return effects; },
    };
    if !can_resolve(event.actor_id, &event.actor_role_ids, m.author.id, c.manager_role) {
        return effects;
    }
    let closed_by = user_mention_text(event.actor_id);
    let record = compose(m, event.resolution, closed_by);
    if let Some(t) = m.thread_id {
        effects.push(Effect::ArchiveThread { thread_id: t });
    }
    effects.push(Effect::PostArchiveRecord { archive_channel_id: c.archive_channel, record });
    effects.push(Effect::DeleteMessage {
        channel_id: event.channel_id,
        message_id: event.message_id,
    });
    effects
}

} // verus!
