use staffbot::admin::remove_board;
use staffbot::admin::setup_board;
use staffbot::admin::validate_board_setup;
use staffbot::admin::BoardSetupError;
use staffbot::admin::ChannelKind;
use staffbot::admin::ChannelRef;
use staffbot::archive::RequestAuthor;
use staffbot::archive::Resolution;
use staffbot::archive::ResolvedRequest;
use staffbot::engine::classify_emoji;
use staffbot::engine::handle_new_message;
use staffbot::engine::is_foreign_reaction;
use staffbot::engine::resolution_effects;
use staffbot::engine::Effect;
use staffbot::engine::NewMessageEvent;
use staffbot::engine::ResolutionEvent;
use staffbot::permission::can_resolve;
use staffbot::store::ChannelPairConfig;
use staffbot::store::ChannelPairStore;

const REQUESTS: u64 = 100;
const ARCHIVE: u64 = 200;
const MANAGER: u64 = 300;
const MESSAGE: u64 = 400;
const AUTHOR: u64 = 500;

fn board() -> ChannelPairConfig {
    ChannelPairConfig {
        requests_channel: REQUESTS,
        archive_channel: ARCHIVE,
        manager_role: MANAGER,
    }
}

fn message(thread_id: Option<u64>) -> ResolvedRequest {
    ResolvedRequest {
        content: "Requesting a role change".to_string(),
        author: RequestAuthor {
            id: AUTHOR,
            name: "Member".to_string(),
            discriminator: 1,
            avatar: None,
        },
        created_at: 1_700_000_000,
        thread_id,
    }
}

fn reaction(resolution: Resolution, actor_id: u64, roles: Vec<u64>) -> ResolutionEvent {
    ResolutionEvent {
        channel_id: REQUESTS,
        message_id: MESSAGE,
        resolution,
        actor_id,
        actor_role_ids: roles,
    }
}

#[test]
fn author_and_manager_may_resolve_others_may_not() {
    // The author themselves, with no roles at all.
    assert!(can_resolve(AUTHOR, &vec![], AUTHOR, MANAGER));
    // A holder of the manager role.
    assert!(can_resolve(7, &vec![1, MANAGER, 2], AUTHOR, MANAGER));
    // Another member, even with unrelated roles.
    assert!(!can_resolve(7, &vec![1, 2, 3], AUTHOR, MANAGER));
    // Nobody at all qualifies with no match on either rule.
    assert!(!can_resolve(7, &vec![], AUTHOR, MANAGER));
}

#[test]
fn new_message_in_configured_channel_gets_two_markers() {
    let event = NewMessageEvent {
        channel_id: REQUESTS,
        message_id: MESSAGE,
        is_thread_creation_notice: false,
    };
    let config = board();
    let effects = handle_new_message(&event, Some(&config));
    assert_eq!(
        effects,
        vec![
            Effect::AttachMarker {
                channel_id: REQUESTS,
                message_id: MESSAGE,
                marker: Resolution::Approve,
            },
            Effect::AttachMarker {
                channel_id: REQUESTS,
                message_id: MESSAGE,
                marker: Resolution::Reject,
            },
        ]
    );
}

#[test]
fn new_message_in_unconfigured_channel_is_ignored() {
    let event = NewMessageEvent {
        channel_id: 9999,
        message_id: MESSAGE,
        is_thread_creation_notice: false,
    };
    let effects = handle_new_message(&event, None);
    assert!(effects.is_empty());
}

#[test]
fn thread_creation_notice_is_deleted_without_markers() {
    let event = NewMessageEvent {
        channel_id: REQUESTS,
        message_id: MESSAGE,
        is_thread_creation_notice: true,
    };
    let config = board();
    let effects = handle_new_message(&event, Some(&config));
    assert_eq!(
        effects,
        vec![Effect::DeleteMessage { channel_id: REQUESTS, message_id: MESSAGE }]
    );
}

#[test]
fn emoji_classification_gates_reactions() {
    assert_eq!(classify_emoji("\u{2705}"), Some(Resolution::Approve));
    assert_eq!(classify_emoji("\u{274C}"), Some(Resolution::Reject));
    assert_eq!(classify_emoji("x"), None);
    assert_eq!(classify_emoji(""), None);
    assert_eq!(classify_emoji("\u{2705}\u{2705}"), None);
}

#[test]
fn own_marker_placement_is_not_processed() {
    let event = reaction(Resolution::Approve, 77, vec![]);
    // The reacting actor is the current identity: the engine's own marker.
    assert!(!is_foreign_reaction(&event, Some(77)));
    // Unknown identity: not processed either.
    assert!(!is_foreign_reaction(&event, None));
    // Somebody else reacting is processed.
    assert!(is_foreign_reaction(&event, Some(1)));
}

#[test]
fn approving_author_with_thread_archives_posts_and_deletes() {
    let event = reaction(Resolution::Approve, AUTHOR, vec![]);
    let config = board();
    let msg = message(Some(MESSAGE));
    let effects = resolution_effects(&event, Some(&config), Some(&msg));
    assert_eq!(effects.len(), 3);
    assert_eq!(effects[0], Effect::ArchiveThread { thread_id: MESSAGE });
    match &effects[1] {
        Effect::PostArchiveRecord { archive_channel_id, record } => {
            assert_eq!(*archive_channel_id, ARCHIVE);
            assert_eq!(record.title, "Request Complete");
            assert_eq!(record.color, 0x9BDB4D);
            assert_eq!(record.description, "Requesting a role change");
            assert_eq!(record.author_name, "Member#0001");
            assert_eq!(record.closed_by, "<@500>");
            assert_eq!(record.thread_note, "<#400>");
            assert_eq!(record.timestamp, 1_700_000_000);
        },
        other => panic!("expected an archive post, got {:?}", other),
    }
    assert_eq!(
        effects[2],
        Effect::DeleteMessage { channel_id: REQUESTS, message_id: MESSAGE }
    );
}

#[test]
fn manager_rejection_without_thread_posts_and_deletes() {
    let event = reaction(Resolution::Reject, 77, vec![MANAGER]);
    let config = board();
    let msg = message(None);
    let effects = resolution_effects(&event, Some(&config), Some(&msg));
    assert_eq!(effects.len(), 2);
    match &effects[0] {
        Effect::PostArchiveRecord { archive_channel_id, record } => {
            assert_eq!(*archive_channel_id, ARCHIVE);
            assert_eq!(record.title, "Request Discarded");
            assert_eq!(record.color, 0xED5353);
            assert_eq!(record.thread_note, "None");
        },
        other => panic!("expected an archive post, got {:?}", other),
    }
    assert_eq!(
        effects[1],
        Effect::DeleteMessage { channel_id: REQUESTS, message_id: MESSAGE }
    );
}

#[test]
fn unauthorized_actor_is_ignored_silently() {
    // Neither the author nor a manager-role holder: no archive post, no
    // deletion, no error reply of any kind.
    let event = reaction(Resolution::Reject, 77, vec![1, 2]);
    let config = board();
    let msg = message(Some(MESSAGE));
    let effects = resolution_effects(&event, Some(&config), Some(&msg));
    assert!(effects.is_empty());
}

#[test]
fn reaction_on_deleted_message_has_no_side_effects() {
    // The fetch failed: the message is already gone, so a duplicate
    // resolution performs nothing — no double archive post.
    let event = reaction(Resolution::Approve, AUTHOR, vec![]);
    let config = board();
    let effects = resolution_effects(&event, Some(&config), None);
    assert!(effects.is_empty());
}

#[test]
fn reaction_in_unconfigured_channel_is_ignored() {
    let event = reaction(Resolution::Approve, AUTHOR, vec![]);
    let msg = message(None);
    let effects = resolution_effects(&event, None, Some(&msg));
    assert!(effects.is_empty());
}

#[test]
fn board_setup_requires_two_text_channels() {
    let text = ChannelRef { id: 1, kind: ChannelKind::GuildText };
    let voice = ChannelRef { id: 2, kind: ChannelKind::Other };
    assert_eq!(
        validate_board_setup(&text, &voice, MANAGER),
        Err(BoardSetupError::NotTextChannels)
    );
    assert_eq!(
        validate_board_setup(&voice, &text, MANAGER),
        Err(BoardSetupError::NotTextChannels)
    );
    let ok = validate_board_setup(
        &ChannelRef { id: REQUESTS, kind: ChannelKind::GuildText },
        &ChannelRef { id: ARCHIVE, kind: ChannelKind::GuildText },
        MANAGER,
    );
    assert_eq!(ok, Ok(board()));
}

#[test]
fn board_setup_and_removal_drive_the_store() {
    let mut store = ChannelPairStore::new();
    let requests = ChannelRef { id: REQUESTS, kind: ChannelKind::GuildText };
    let archive = ChannelRef { id: ARCHIVE, kind: ChannelKind::GuildText };
    let created = setup_board(&mut store, &requests, &archive, MANAGER);
    assert_eq!(created, Ok(board()));
    assert_eq!(store.get(REQUESTS), Some(board()));

    // A validation error writes nothing.
    let bad = ChannelRef { id: 3, kind: ChannelKind::Other };
    let refused = setup_board(&mut store, &bad, &archive, MANAGER);
    assert_eq!(refused, Err(BoardSetupError::NotTextChannels));
    assert_eq!(store.get(3), None);

    remove_board(&mut store, REQUESTS);
    assert_eq!(store.get(REQUESTS), None);
    // Removing a board that is already gone still succeeds.
    remove_board(&mut store, REQUESTS);
    assert_eq!(store.get(REQUESTS), None);
}
