//! The thread snapshot of a stored session.
use vstd::prelude::*;
use crate::json::JsonValue;
use crate::paths::ends_with;
use crate::text::{chars_of, string_from_chars};
use crate::tool_kind::owned;
use vstd::string::StringExecFns;

verus! {

/// One stored entry of a session thread, in its JSON form.
pub struct StoredEntry {
    pub id: String,
    pub payload: JsonValue,
}

/// The entries, title and creation time of a session thread.
pub struct SessionThreadSnapshot {
    pub entries: Vec<StoredEntry>,
    pub title: String,
    pub created_at: String,
    pub current_mode_id: Option<String>,
}

/// The first (at most) eight characters of a session id.
pub open spec fn short_id(session_id: Seq<char>) -> Seq<char> {
    if session_id.len() <= 8 {
        session_id
    } else {
        session_id.subrange(0, 8)
    }
}

/// The title of an empty thread: `Session ` and the short id.
pub open spec fn empty_title(session_id: Seq<char>) -> Seq<char> {
    "Session "@ + short_id(session_id)
}

/// The current time in RFC 3339, as `chrono::Utc::now().to_rfc3339()`
/// gives it. `Utc::now` panics when the clock reads before 1970 (an
/// `expect` on `duration_since`) and `DateTime::from(SystemTime)` unwraps
/// an out-of-range date; this library does not panic, so the same steps
/// are taken with their failures kept: `SystemTime::now`, measured from the
/// Unix epoch, made a `DateTime<Utc>` with `DateTime::from_timestamp`
/// (`None` out of range) and formatted with `DateTime::to_rfc3339`. `None`
/// when the clock reads before 1970 or beyond what chrono can represent.
/// Claimed of the text: chrono writes a UTC time as a date of at least
/// four year digits, `-MM-DDTHH:MM:SS`, an optional fraction and the
/// offset `+00:00`, so it has at least 25 characters and ends with
/// `+00:00`. Which time it holds depends on the clock and is not claimed.
#[verifier::external_body]
fn now_rfc3339() -> (r: Option<String>)
    ensures
        r matches Some(t) ==> rfc3339_utc_shape(t@),
{
    match std::time::SystemTime::now().duration_since(std::time::UNIX_EPOCH) {
        Ok(d) => match chrono::DateTime::<chrono::Utc>::from_timestamp(d.as_secs() as i64, d.subsec_nanos()) {
            Some(t) => Some(t.to_rfc3339()),
            None => None,
        },
        Err(_) => None,
    }
}

/// The shape of an RFC 3339 UTC time as chrono writes it: at least 25
/// characters, ending with the offset `+00:00`.
pub open spec fn rfc3339_utc_shape(t: Seq<char>) -> bool {
    t.len() >= 25 && ends_with(t, "+00:00"@)
}

impl SessionThreadSnapshot {
    /// An empty thread for `session_id` created at `created_at`.
    pub fn empty_at(session_id: &str, created_at: String) -> (r: Self)
        ensures
            r.entries@.len() == 0,
            r.title@ == empty_title(session_id@),
            r.created_at == created_at,
            r.current_mode_id is None,
    {
        let chars = chars_of(session_id);
        let n: usize = if chars.len() <= 8 {
            chars.len()
        } else {
            8
        };
        let short = string_from_chars(&chars, 0, n);
        assert(chars@.subrange(0, chars.len() as int) =~= chars@);
        let mut title = owned("Session ");
        title.append(short.as_str());
        SessionThreadSnapshot {
            entries: Vec::new(),
            title,
            created_at,
            current_mode_id: None,
        }
    }

    /// An empty thread for `session_id`, created now. Its title is
    /// `Session ` followed by the first eight characters of the id. When the
    /// clock cannot be read as a date, the creation time is left empty.
    pub fn empty(session_id: &str) -> (r: Self)
        ensures
            r.entries@.len() == 0,
            r.created_at@.len() == 0 || rfc3339_utc_shape(r.created_at@),
            r.title@ == empty_title(session_id@),
            r.current_mode_id is None,
    {
        let now = match now_rfc3339() {
            Some(t) => t,
            None => String::new(),
        };
        Self::empty_at(session_id, now)
    }
}

} // verus!
