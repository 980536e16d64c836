//! Board admin operations: create or destroy a channel-pair configuration.
//!
//! A thin layer over the channel-pair store, driven by parsed admin
//! commands. The surrounding command front end has already resolved the
//! channel and role references and enforced the administrative-capability
//! gate; what remains here is the validation rule — both channels must be
//! guild text channels — and the store call.

use vstd::prelude::*;

use crate::store::ChannelPairConfig;
use crate::store::ChannelPairStore;

verus! {

/// What a board channel is, as far as validation cares: a guild text
/// channel, or anything else (voice, category, direct message, ...).
#[derive(Clone, Copy, PartialEq, Eq, Structural, Debug)]
pub enum ChannelKind {
    GuildText,
    Other,
}

/// A resolved channel reference handed in by the command front end.
#[derive(Clone, Copy, PartialEq, Eq, Structural, Debug)]
pub struct ChannelRef {
    pub id: u64,
    pub kind: ChannelKind,
}

/// Why a board setup command was rejected. Validation errors are surfaced
/// to the invoking user; the operation writes nothing.
#[derive(Clone, Copy, PartialEq, Eq, Structural, Debug)]
pub enum BoardSetupError {
    /// Both channels must be text channels within a guild.
    NotTextChannels,
}

/// Validates a board setup and builds its configuration: both the requests
/// channel and the archive channel must be guild text channels; any other
/// combination is rejected with a validation error and nothing is written
/// anywhere.
pub fn validate_board_setup(
    requests: &ChannelRef,
    archive: &ChannelRef,
    manager_role_id: u64,
) -> (r: Result<ChannelPairConfig, BoardSetupError>)
    ensures
        requests.kind is GuildText && archive.kind is GuildText ==> r == Ok::<
            ChannelPairConfig,
            BoardSetupError,
        >(
            ChannelPairConfig {
                requests_channel: requests.id,
                archive_channel: archive.id,
                manager_role: manager_role_id,
            },
        ),
        !(requests.kind is GuildText && archive.kind is GuildText) ==> r == Err::<
            ChannelPairConfig,
            BoardSetupError,
        >(BoardSetupError::NotTextChannels),
{
    match (requests.kind, archive.kind) {
        (ChannelKind::GuildText, ChannelKind::GuildText) => Ok(
            ChannelPairConfig {
                requests_channel: requests.id,
                archive_channel: archive.id,
                manager_role: manager_role_id,
            },
        ),
        _ => Err(BoardSetupError::NotTextChannels),
    }
}

/// Creates (or replaces) a request board: validates the two channels and
/// upserts the configuration under the requests channel's id. On a
/// validation error the store is left untouched — no partial state is
/// written.
pub fn setup_board(
    store: &mut ChannelPairStore,
    requests: &ChannelRef,
    archive: &ChannelRef,
    manager_role_id: u64,
) -> (r: Result<ChannelPairConfig, BoardSetupError>)
    requires
        old(store).wf(),
    ensures
        final(store).wf(),
        match r {
            Ok(config) => requests.kind is GuildText && archive.kind is GuildText && config == (
            ChannelPairConfig {
                requests_channel: requests.id,
                archive_channel: archive.id,
                manager_role: manager_role_id,
            }) && final(store)@ == old(store)@.insert(config.requests_channel, config),
            Err(e) => e == BoardSetupError::NotTextChannels && !(requests.kind is GuildText
                && archive.kind is GuildText) && final(store)@ == old(store)@,
        },
{
    let config = match validate_board_setup(requests, archive, manager_role_id) {
        Ok(config) => config,
        Err(e) => { return Err(e); },
    };
    store.upsert(config);
    Ok(config)
}

/// Destroys the request board configured for `requests_channel_id`. Total:
/// removing a board that does not exist succeeds as a no-op.
pub fn remove_board(store: &mut ChannelPairStore, requests_channel_id: u64)
    requires
        old(store).wf(),
    ensures
        final(store).wf(),
        final(store)@ == old(store)@.remove(requests_channel_id),
{
    store.delete(requests_channel_id);
}

} // verus!
