//! Archive composer: builds the structured record that is posted to a
//! board's archive channel when a request is resolved.
//!
//! The mapping is fixed: an approved request is archived under the title
//! "Request Complete" with the success color, a rejected one under
//! "Request Discarded" with the failure color. The body is the original
//! message content verbatim, the author line is `name#discriminator` with
//! the discriminator zero-padded to four digits, the author icon is a small
//! fixed-size avatar (or the platform default when none is set), the
//! "Thread" field references the associated thread or reads "None", and the
//! timestamp is the original message's creation time, not the resolution
//! time.

use vstd::prelude::*;

use crate::ids::dec_seq_of;
use crate::ids::id_text;

verus! {

/// The two ways a request can be resolved: approved (complete) or rejected
/// (unnecessary).
#[derive(Clone, Copy, PartialEq, Eq, Structural, Debug)]
pub enum Resolution {
    Approve,
    Reject,
}

/// Accent color of an archive record for an approved request.
pub const SUCCESS_COLOR: u32 = 0x9BDB4D;

/// Accent color of an archive record for a rejected request.
pub const FAILURE_COLOR: u32 = 0xED5353;

/// Identity of a request's author as the platform reports it.
#[derive(Clone, PartialEq, Eq, Debug)]
pub struct RequestAuthor {
    pub id: u64,
    pub name: String,
    pub discriminator: u16,
    /// Avatar hash, absent when the author uses the platform default.
    pub avatar: Option<String>,
}

/// Mathematical image of a `RequestAuthor`.
pub struct RequestAuthorView {
    pub id: u64,
    pub name: Seq<char>,
    pub discriminator: u16,
    pub avatar: Option<Seq<char>>,
}

impl View for RequestAuthor {
    type V = RequestAuthorView;

    open spec fn view(&self) -> RequestAuthorView {
        RequestAuthorView {
            id: self.id,
            name: self.name@,
            discriminator: self.discriminator,
            avatar: match self.avatar {
                Some(h) => Some(h@),
                None => None,
            },
        }
    }
}

/// A request at the moment it is resolved: the original message's content,
/// author, creation time, and associated thread if one exists.
#[derive(Clone, PartialEq, Eq, Debug)]
pub struct ResolvedRequest {
    pub content: String,
    pub author: RequestAuthor,
    /// Creation time of the original message, in seconds since the epoch.
    pub created_at: i64,
    /// The associated conversation thread; on this platform a thread shares
    /// the identifier of the message it was started from.
    pub thread_id: Option<u64>,
}

/// Mathematical image of a `ResolvedRequest`.
pub struct ResolvedRequestView {
    pub content: Seq<char>,
    pub author: RequestAuthorView,
    pub created_at: i64,
    pub thread_id: Option<u64>,
}

impl View for ResolvedRequest {
    type V = ResolvedRequestView;

    open spec fn view(&self) -> ResolvedRequestView {
        ResolvedRequestView {
            content: self.content@,
            author: self.author@,
            created_at: self.created_at,
            thread_id: self.thread_id,
        }
    }
}

/// The structured record posted to the archive channel.
#[derive(Clone, PartialEq, Eq, Debug)]
pub struct ArchiveRecord {
    pub title: String,
    pub color: u32,
    /// The original message content, verbatim: the archive is a faithful
    /// copy, with no truncation and no sanitization.
    pub description: String,
    pub author_name: String,
    pub author_icon: String,
    pub closed_by: String,
    pub thread_note: String,
    /// Equal to the original message's creation time, so the archive
    /// preserves when the request was filed.
    pub timestamp: i64,
}

/// Mathematical image of an `ArchiveRecord`.
pub struct ArchiveRecordView {
    pub title: Seq<char>,
    pub color: u32,
    pub description: Seq<char>,
    pub author_name: Seq<char>,
    pub author_icon: Seq<char>,
    pub closed_by: Seq<char>,
    pub thread_note: Seq<char>,
    pub timestamp: i64,
}

impl View for ArchiveRecord {
    type V = ArchiveRecordView;

    open spec fn view(&self) -> ArchiveRecordView {
        ArchiveRecordView {
            title: self.title@,
            color: self.color,
            description: self.description@,
            author_name: self.author_name@,
            author_icon: self.author_icon@,
            closed_by: self.closed_by@,
            thread_note: self.thread_note@,
            timestamp: self.timestamp,
        }
    }
}

/// `s` left-padded with `'0'` to at least four characters.
pub open spec fn pad4(s: Seq<char>) -> Seq<char>
    decreases 4 - s.len(),
{
    if s.len() >= 4 {
        s
    } else {
        pad4(seq!['0'] + s)
    }
}

/// The author line of an archive record: `name#discriminator`, with the
/// discriminator zero-padded to at least four digits.
pub open spec fn author_tag(name: Seq<char>, discriminator: u16) -> Seq<char> {
    name + seq!['#'] + pad4(dec_seq_of(discriminator as nat))
}

/// Inline reference to a channel or thread, as the platform renders it.
pub open spec fn channel_mention(id: u64) -> Seq<char> {
    "<#"@ + dec_seq_of(id as nat) + ">"@
}

/// Inline reference to a user, as the platform renders it.
pub open spec fn user_mention(id: u64) -> Seq<char> {
    "<@"@ + dec_seq_of(id as nat) + ">"@
}

/// Location of an author's own avatar, at the small fixed size.
pub open spec fn small_avatar_url(id: u64, avatar_hash: Seq<char>) -> Seq<char> {
    "https://cdn.discordapp.com/avatars/"@ + dec_seq_of(id as nat) + "/"@ + avatar_hash
        + ".png?size=24"@
}

/// Location of the platform default avatar for an author without one of
/// their own; the platform keys it by discriminator modulo five.
pub open spec fn default_avatar_url(discriminator: u16) -> Seq<char> {
    "https://cdn.discordapp.com/embed/avatars/"@ + dec_seq_of((discriminator % 5) as nat)
        + ".png"@
}

/// What `compose` builds: the fixed title/color mapping, the verbatim body,
/// the padded author tag, the icon choice, the closer, the thread reference
/// or "None", and the original creation time.
pub open spec fn spec_compose(
    request: ResolvedRequestView,
    resolution: Resolution,
    closed_by: Seq<char>,
) -> ArchiveRecordView {
    ArchiveRecordView {
        title: match resolution {
            Resolution::Approve => "Request Complete"@,
            Resolution::Reject => "Request Discarded"@,
        },
        color: match resolution {
            Resolution::Approve => SUCCESS_COLOR,
            Resolution::Reject => FAILURE_COLOR,
        },
        description: request.content,
        author_name: author_tag(request.author.name, request.author.discriminator),
        author_icon: match request.author.avatar {
            Some(hash) => small_avatar_url(request.author.id, hash),
            None => default_avatar_url(request.author.discriminator),
        },
        closed_by: closed_by,
        thread_note: match request.thread_id {
            Some(t) => channel_mention(t),
            None => "None"@,
        },
        timestamp: request.created_at,
    }
}

/// Left-pads `s` with `'0'` to at least four characters.
fn pad4_text(s: String) -> (r: String)
    ensures
        r@ == pad4(s@),
{
    let n = s.as_str().unicode_len();
    if n >= 4 {
        return s;
    }
    proof {
        reveal_strlit("0");
        reveal_strlit("00");
        reveal_strlit("000");
        reveal_strlit("0000");
        reveal_with_fuel(pad4, 5);
    }
    let prefix = if n == 3 {
        proof {
            reveal_with_fuel(pad4, 5);
            assert(pad4(s@) =~= "0"@ + s@);
        }
        "0"
    } else if n == 2 {
        proof {
            reveal_with_fuel(pad4, 5);
            assert(pad4(seq!['0'] + s@) =~= seq!['0'] + (seq!['0'] + s@));
            assert(pad4(s@) =~= "00"@ + s@);
        }
        "00"
    } else if n == 1 {
        proof {
            reveal_with_fuel(pad4, 5);
            assert(pad4(seq!['0'] + (seq!['0'] + s@)) =~= seq!['0'] + (seq!['0'] + (seq!['0'] + s@)));
            assert(pad4(seq!['0'] + s@) =~= seq!['0'] + (seq!['0'] + (seq!['0'] + s@)));
            assert(pad4(s@) =~= "000"@ + s@);
        }
        "000"
    } else {
        proof {
            reveal_with_fuel(pad4, 6);
            assert(pad4(seq!['0'] + (seq!['0'] + (seq!['0'] + s@))) =~= seq!['0'] + (seq!['0'] + (seq!['0'] + (seq!['0'] + s@))));
            assert(pad4(seq!['0'] + (seq!['0'] + s@)) =~= seq!['0'] + (seq!['0'] + (seq!['0'] + (seq!['0'] + s@))));
            assert(pad4(seq!['0'] + s@) =~= seq!['0'] + (seq!['0'] + (seq!['0'] + (seq!['0'] + s@))));
            assert(pad4(s@) =~= "0000"@ + s@);
        }
        "0000"
    };
    prefix.to_owned().concat(s.as_str())
}

/// Builds the author line `name#discriminator`.
pub fn author_tag_text(name: &str, discriminator: u16) -> (r: String)
    ensures
        r@ == author_tag(name@, discriminator),
{
    proof {
        reveal_strlit("#");
        assert("#"@ =~= seq!['#']);
    }
    let padded = pad4_text(id_text(discriminator as u64));
    let r = name.to_owned().concat("#").concat(padded.as_str());
    assert(r@ =~= author_tag(name@, discriminator));
    r
}

/// Builds an inline channel or thread reference.
pub fn channel_mention_text(id: u64) -> (r: String)
    ensures
        r@ == channel_mention(id),
{
    "<#".to_owned().concat(id_text(id).as_str()).concat(">")
}

/// Builds an inline user reference.
pub fn user_mention_text(id: u64) -> (r: String)
    ensures
        r@ == user_mention(id),
{
    "<@".to_owned().concat(id_text(id).as_str()).concat(">")
}

/// Builds the small fixed-size avatar location for an author's own avatar.
pub fn small_avatar_url_text(id: u64, avatar_hash: &str) -> (r: String)
    ensures
        r@ == small_avatar_url(id, avatar_hash@),
{
    "https://cdn.discordapp.com/avatars/".to_owned().concat(id_text(id).as_str()).concat(
        "/",
    ).concat(avatar_hash).concat(".png?size=24")
}

/// Builds the platform default avatar location.
pub fn default_avatar_url_text(discriminator: u16) -> (r: String)
    ensures
        r@ == default_avatar_url(discriminator),
{
    "https://cdn.discordapp.com/embed/avatars/".to_owned().concat(
        id_text((discriminator % 5) as u64).as_str(),
    ).concat(".png")
}

/// Composes the archive record for a resolved request. `closed_by` is the
/// rendering of the actor who resolved it, already built by the caller.
pub fn compose(
    request: &ResolvedRequest,
    resolution: Resolution,
    closed_by: String,
) -> (record: ArchiveRecord)
    ensures
        record@ == spec_compose(request@, resolution, closed_by@),
{
    let title = match resolution {
        Resolution::Approve => "Request Complete".to_owned(),
        Resolution::Reject => "Request Discarded".to_owned(),
    };
    let color = match resolution {
        Resolution::Approve => SUCCESS_COLOR,
        Resolution::Reject => FAILURE_COLOR,
    };
    let author_name = author_tag_text(request.author.name.as_str(), request.author.discriminator);
    let author_icon = match &request.author.avatar {
        Some(hash) => small_avatar_url_text(request.author.id, hash.as_str()),
        None => default_avatar_url_text(request.author.discriminator),
    };
    let thread_note = match request.thread_id {
        Some(t) => channel_mention_text(t),
        None => "None".to_owned(),
    };
    ArchiveRecord {
        title,
        color,
        description: request.content.clone(),
        author_name,
        author_icon,
        closed_by,
        thread_note,
        timestamp: request.created_at,
    }
}

} // verus!
