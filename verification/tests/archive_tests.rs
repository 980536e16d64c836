use staffbot::archive::compose;
use staffbot::archive::RequestAuthor;
use staffbot::archive::Resolution;
use staffbot::archive::ResolvedRequest;
use staffbot::archive::user_mention_text;
use staffbot::archive::channel_mention_text;
use staffbot::archive::author_tag_text;
use staffbot::archive::small_avatar_url_text;
use staffbot::archive::default_avatar_url_text;
use staffbot::archive::FAILURE_COLOR;
use staffbot::archive::SUCCESS_COLOR;
use staffbot::ids::id_text;

fn request(avatar: Option<&str>, thread_id: Option<u64>) -> ResolvedRequest {
    ResolvedRequest {
        content: "Please fix the door".to_string(),
        author: RequestAuthor {
            id: 42,
            name: "Aurora".to_string(),
            discriminator: 7,
            avatar: avatar.map(|h| h.to_string()),
        },
        created_at: 1_650_000_000,
        thread_id,
    }
}

#[test]
fn approve_record_uses_success_color_and_title() {
    let record = compose(&request(None, None), Resolution::Approve, "<@9>".to_string());
    assert_eq!(record.title, "Request Complete");
    assert_eq!(record.color, 0x9BDB4D);
    assert_eq!(record.color, SUCCESS_COLOR);
}

#[test]
fn reject_record_uses_failure_color_and_title() {
    let record = compose(&request(None, None), Resolution::Reject, "<@9>".to_string());
    assert_eq!(record.title, "Request Discarded");
    assert_eq!(record.color, 0xED5353);
    assert_eq!(record.color, FAILURE_COLOR);
}

#[test]
fn record_copies_content_verbatim_and_keeps_creation_time() {
    let record = compose(&request(None, None), Resolution::Approve, "<@9>".to_string());
    assert_eq!(record.description, "Please fix the door");
    assert_eq!(record.timestamp, 1_650_000_000);
    assert_eq!(record.closed_by, "<@9>");
}

#[test]
fn author_line_pads_discriminator_to_four_digits() {
    let record = compose(&request(None, None), Resolution::Approve, "<@9>".to_string());
    assert_eq!(record.author_name, "Aurora#0007");
    assert_eq!(author_tag_text("Someone", 1234), "Someone#1234");
    assert_eq!(author_tag_text("Someone", 42), "Someone#0042");
    assert_eq!(author_tag_text("Someone", 0), "Someone#0000");
    // A discriminator wider than four digits is kept whole, not truncated.
    assert_eq!(author_tag_text("Someone", 54321), "Someone#54321");
}

#[test]
fn author_icon_is_small_avatar_when_one_is_set() {
    let record = compose(&request(Some("abc123"), None), Resolution::Approve, "<@9>".to_string());
    assert_eq!(
        record.author_icon,
        "https://cdn.discordapp.com/avatars/42/abc123.png?size=24"
    );
    assert_eq!(
        small_avatar_url_text(42, "abc123"),
        "https://cdn.discordapp.com/avatars/42/abc123.png?size=24"
    );
}

#[test]
fn author_icon_falls_back_to_platform_default() {
    let record = compose(&request(None, None), Resolution::Approve, "<@9>".to_string());
    // Discriminator 7, and the platform keys default avatars by
    // discriminator modulo five.
    assert_eq!(record.author_icon, "https://cdn.discordapp.com/embed/avatars/2.png");
    assert_eq!(
        default_avatar_url_text(7),
        "https://cdn.discordapp.com/embed/avatars/2.png"
    );
}

#[test]
fn thread_note_references_thread_or_reads_none() {
    let with_thread = compose(&request(None, Some(555)), Resolution::Approve, "<@9>".to_string());
    assert_eq!(with_thread.thread_note, "<#555>");
    let without = compose(&request(None, None), Resolution::Approve, "<@9>".to_string());
    assert_eq!(without.thread_note, "None");
}

#[test]
fn mention_text_formats() {
    assert_eq!(user_mention_text(42), "<@42>");
    assert_eq!(channel_mention_text(901), "<#901>");
}

#[test]
fn id_text_renders_canonical_decimals() {
    assert_eq!(id_text(0), "0");
    assert_eq!(id_text(10), "10");
    assert_eq!(id_text(1066155867516170250), "1066155867516170250");
    assert_eq!(id_text(u64::MAX), "18446744073709551615");
}
