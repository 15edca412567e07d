//! The folder watcher's decisions: which file-system events put a path on
//! the job queue, and what is logged about each.
use crate::logger::LogMessage;
use crate::text::push_str;
use vstd::prelude::*;

verus! {

/// The lower-case form of a string, as std's `str::to_lowercase` gives it.
pub uninterp spec fn lower_of(s: Seq<char>) -> Seq<char>;

/// Relies on `str::to_lowercase`: the result depends on the characters
/// alone, and an empty string stays empty.
#[verifier::external_body]
fn lowercase(s: &str) -> (r: String)
    ensures
        r@ == lower_of(s@),
        s@.len() == 0 ==> r@.len() == 0,
{
    s.to_lowercase()
}

/// Whether `s` ends with `suffix`.
pub open spec fn ends_with(s: Seq<char>, suffix: Seq<char>) -> bool {
    suffix.len() <= s.len() && s.subrange(s.len() - suffix.len(), s.len() as int) == suffix
}

/// Whether an already lower-cased path names a JPEG image.
pub open spec fn is_jpeg_name(lowered: Seq<char>) -> bool {
    ends_with(lowered, ".jpg"@) || ends_with(lowered, ".jpeg"@)
}

/// Whether `s` ends with `suffix`.
pub fn str_ends_with(s: &str, suffix: &str) -> (r: bool)
    ensures
        r == ends_with(s@, suffix@),
{
    let n = s.unicode_len();
    let m = suffix.unicode_len();
    if m > n {
        return false;
    }
    let offset = n - m;
    let mut k: usize = 0;
    while k < m
        invariant
            n == s@.len(),
            m == suffix@.len(),
            offset == n - m,
            k <= m,
            forall|j: int| 0 <= j < k ==> s@[offset + j] == suffix@[j],
        decreases m - k,
    {
        if s.get_char(offset + k) != suffix.get_char(k) {
            assert(s@.subrange(offset as int, n as int)[k as int] != suffix@[k as int]);
            return false;
        }
        k = k + 1;
    }
    assert(s@.subrange(offset as int, n as int) =~= suffix@);
    true
}

/// Whether a path that has already been lower-cased names a JPEG image.
pub fn lowered_is_jpeg(lowered: &str) -> (r: bool)
    ensures
        r == is_jpeg_name(lowered@),
{
    str_ends_with(lowered, ".jpg") || str_ends_with(lowered, ".jpeg")
}

/// Whether `path` names a JPEG image, whatever the case of its extension.
pub fn is_jpeg_path(path: &str) -> (r: bool)
    ensures
        r == is_jpeg_name(lower_of(path@)),
{
    let lowered = lowercase(path);
    lowered_is_jpeg(lowered.as_str())
}

/// The first path of a file-system event, as far as the watcher can read it.
pub enum EventPath {
    /// The event named no path.
    Missing,
    /// The first path is not valid Unicode.
    NotUnicode,
    /// The first path, as text.
    Text(String),
}

/// A file-system event, reduced to what the watcher decides on.
pub struct WatchEvent {
    /// Whether the event reports a creation.
    pub create: bool,
    /// The event as text, for the log.
    pub description: String,
    /// Its first path.
    pub first_path: EventPath,
}

/// What the watcher does about one event: entries to log and, for a new
/// image, the path to put on the job queue.
pub struct WatchOutcome {
    pub entries: Vec<LogMessage>,
    pub job: Option<String>,
}

/// The origin that the watcher puts on its entries.
pub fn origin() -> (r: String)
    ensures
        r@ == "FolderWatcher"@,
{
    String::from_str("FolderWatcher")
}

/// A notice from the watcher with this text.
pub open spec fn watcher_notice(m: LogMessage, text: Seq<char>) -> bool {
    m matches LogMessage::Notice { origin, message } && origin@ == "FolderWatcher"@
        && message@ == text
}

/// An error from the watcher with this text.
pub open spec fn watcher_error(m: LogMessage, text: Seq<char>) -> bool {
    m matches LogMessage::Error { origin, message } && origin@ == "FolderWatcher"@
        && message@ == text
}

fn notice(message: String) -> (r: LogMessage)
    ensures
        watcher_notice(r, message@),
{
    LogMessage::Notice { origin: origin(), message }
}

fn error(message: String) -> (r: LogMessage)
    ensures
        watcher_error(r, message@),
{
    LogMessage::Error { origin: origin(), message }
}

fn join(a: &str, b: &str) -> (r: String)
    ensures
        r@ == a@ + b@,
{
    let mut s = String::new();
    push_str(&mut s, a);
    push_str(&mut s, b);
    s
}

/// Decides what a watch result means. Every event is logged; a creation
/// whose first path names a JPEG image (in any case) puts that path on the
/// job queue; other creations are logged as skipped or ignored; a watch
/// error is logged as an error.
pub fn handle_event(result: Result<WatchEvent, String>) -> (r: WatchOutcome)
    ensures
        match result {
            Err(e) => {
                &&& r.job is None
                &&& r.entries@.len() == 1
                &&& watcher_error(r.entries@[0], "handle_event returned an error: "@ + e@)
            },
            Ok(ev) => {
                &&& r.entries@.len() >= 1
                &&& watcher_notice(r.entries@[0], ev.description@)
                &&& !ev.create ==> r.job is None && r.entries@.len() == 1
                &&& ev.create ==> r.entries@.len() == 2 && match ev.first_path {
                    EventPath::Missing => {
                        &&& r.job is None
                        &&& watcher_notice(r.entries@[1], "Create event had no paths! Skipping."@)
                    },
                    EventPath::NotUnicode => {
                        &&& r.job is None
                        &&& watcher_error(
                            r.entries@[1],
                            "Converting path to a Unicode string failed. Skipping."@,
                        )
                    },
                    EventPath::Text(p) => if is_jpeg_name(lower_of(p@)) {
                        &&& r.job == Some(p)
                        &&& watcher_notice(r.entries@[1], "Added image to print queue: "@ + p@)
                    } else {
                        &&& r.job is None
                        &&& watcher_notice(r.entries@[1], "Ignoring non-JPEG file: "@ + p@)
                    },
                }
            },
        },
{
    let mut entries: Vec<LogMessage> = Vec::new();
    match result {
        Err(e) => {
            entries.push(error(join("handle_event returned an error: ", e.as_str())));
            WatchOutcome { entries, job: None }
        },
        Ok(ev) => {
            entries.push(notice(ev.description));
            if !ev.create {
                return WatchOutcome { entries, job: None };
            }
            match ev.first_path {
                EventPath::Missing => {
                    entries.push(notice(String::from_str("Create event had no paths! Skipping.")));
                    WatchOutcome { entries, job: None }
                },
                EventPath::NotUnicode => {
                    entries.push(
                        error(
                            String::from_str(
                                "Converting path to a Unicode string failed. Skipping.",
                            ),
                        ),
                    );
                    WatchOutcome { entries, job: None }
                },
                EventPath::Text(p) => {
                    if is_jpeg_path(p.as_str()) {
                        entries.push(notice(join("Added image to print queue: ", p.as_str())));
                        WatchOutcome { entries, job: Some(p) }
                    } else {
                        entries.push(notice(join("Ignoring non-JPEG file: ", p.as_str())));
                        WatchOutcome { entries, job: None }
                    }
                },
            }
        },
    }
}

/// The entry that reports a watch that could not start; the watcher then
/// exits.
pub fn watch_failed(reason: &str) -> (r: LogMessage)
    ensures
        watcher_error(r, "Exiting due to error: "@ + reason@),
{
    error(join("Exiting due to error: ", reason))
}

/// The entry that reports a watch on `folder` that could not be ended.
pub fn unwatch_failed(folder: &str, reason: &str) -> (r: LogMessage)
    ensures
        watcher_error(r, "Could not unwatch "@ + folder@ + ": "@ + reason@),
{
    let mut s = String::new();
    push_str(&mut s, "Could not unwatch ");
    push_str(&mut s, folder);
    push_str(&mut s, ": ");
    push_str(&mut s, reason);
    error(s)
}

} // verus!
