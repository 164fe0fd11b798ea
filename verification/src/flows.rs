//! The decisions of the request handlers and of start-up, apart from their I/O.
use vstd::prelude::*;
use crate::text::{trim_text, trimmed, same_text, concat2, opt_text};
use crate::lookup::IsbnResult;
use crate::isbn::{normalize_isbn, spec_normalize_isbn};

verus! {

/// A read to record, with its book's details cleaned up.
#[derive(Debug)]
pub struct NewRead {
    pub title: String,
    pub author: String,
    pub isbn: Option<String>,
    pub cover_url: Option<String>,
}

/// An optional form field, trimmed; `None` when missing or blank.
pub open spec fn optional_field(field: Option<Seq<char>>) -> Option<Seq<char>> {
    match field {
        Some(f) => if trimmed(f).len() > 0 { Some(trimmed(f)) } else { None },
        None => None,
    }
}

/// The text of an optional string slice.
pub open spec fn opt_str(s: Option<&str>) -> Option<Seq<char>> {
    match s {
        Some(t) => Some(t@),
        None => None,
    }
}

fn clean_field(field: Option<&str>) -> (r: Option<String>)
    ensures
        opt_text(r) == optional_field(opt_str(field)),
{
    match field {
        Some(f) => {
            let t = trim_text(f);
            if t.as_str().is_empty() { None } else { Some(t) }
        },
        None => None,
    }
}

/// What logging a read does next.
#[derive(Debug)]
pub enum LogReadStep {
    /// Store the book (creating it, or filling in its ISBN and cover), then
    /// report its id, or its absence when storing failed.
    SaveBook(NewRead),
    /// Record a read of the book with this id, then report whether that worked.
    RecordRead(u128),
    /// Answer with a redirect to this path.
    Redirect(&'static str),
}

/// Where the log form sends the reader after a read was logged.
pub open spec fn logged_path() -> Seq<char> {
    "/log?logged=true"@
}

/// Where the log form sends the reader when nothing was logged.
pub open spec fn log_path() -> Seq<char> {
    "/log"@
}

/// The first step of logging a read from the log form. The title and author
/// are trimmed; a blank title logs nothing and goes back to the form; the
/// ISBN and cover address count only when not blank, trimmed too.
pub fn log_read_start(title: &str, author: &str, isbn: Option<&str>, cover_url: Option<&str>) -> (s: LogReadStep)
    ensures
        trimmed(title@).len() == 0 ==> (s matches LogReadStep::Redirect(p) && p@ == log_path()),
        trimmed(title@).len() > 0 ==> (s matches LogReadStep::SaveBook(r) && {
            &&& r.title@ == trimmed(title@)
            &&& r.author@ == trimmed(author@)
            &&& opt_text(r.isbn) == optional_field(opt_str(isbn))
            &&& opt_text(r.cover_url) == optional_field(opt_str(cover_url))
        }),
{
    let t = trim_text(title);
    if t.as_str().is_empty() {
        return LogReadStep::Redirect("/log");
    }
    let a = trim_text(author);
    LogReadStep::SaveBook(NewRead { title: t, author: a, isbn: clean_field(isbn), cover_url: clean_field(cover_url) })
}

/// After the book was stored (`Some` of its id) or could not be (`None`):
/// record the read, or go back to the form.
pub fn log_read_after_save(book_id: Option<u128>) -> (s: LogReadStep)
    ensures
        match book_id {
            Some(id) => s == LogReadStep::RecordRead(id),
            None => (s matches LogReadStep::Redirect(p) && p@ == log_path()),
        },
{
    match book_id {
        Some(id) => LogReadStep::RecordRead(id),
        None => LogReadStep::Redirect("/log"),
    }
}

/// After recording the read: confirm when it worked, else back to the form.
pub fn log_read_after_record(recorded: bool) -> (s: LogReadStep)
    ensures
        s matches LogReadStep::Redirect(p) && p@ == (if recorded { logged_path() } else { log_path() }),
{
    if recorded {
        LogReadStep::Redirect("/log?logged=true")
    } else {
        LogReadStep::Redirect("/log")
    }
}

/// The environment variable that switches a feature off: `{feature}_DISABLED`.
pub fn disable_switch(feature: &str) -> (r: String)
    ensures
        r@ == feature@ + "_DISABLED"@,
{
    concat2(feature, "_DISABLED")
}

/// Whether a feature runs, given the value of its `_DISABLED` variable (`None`
/// when unset or unreadable): it runs unless the value is exactly `true`.
pub fn feature_enabled(switch_value: Option<&str>) -> (on: bool)
    ensures
        on == !(switch_value matches Some(v) && v@ == "true"@),
{
    match switch_value {
        Some(v) => !same_text(v, "true"),
        None => true,
    }
}

/// How releasing the migration lock went.
#[derive(Debug, Clone, Copy, PartialEq, Eq, Structural)]
pub enum LockRelease {
    /// The lock was released.
    Released,
    /// The database said the lock was not held; start-up goes on.
    NotHeld,
    /// The database gave no answer; start-up fails.
    NoAnswer,
}

/// Reads the answer of `pg_advisory_unlock`.
pub fn lock_release(answer: Option<bool>) -> (r: LockRelease)
    ensures
        r == match answer {
            Some(true) => LockRelease::Released,
            Some(false) => LockRelease::NotHeld,
            None => LockRelease::NoAnswer,
        },
{
    match answer {
        Some(true) => LockRelease::Released,
        Some(false) => LockRelease::NotHeld,
        None => LockRelease::NoAnswer,
    }
}

/// Why an ISBN lookup gives no book.
#[derive(Debug, Clone, Copy, PartialEq, Eq, Structural)]
pub enum IsbnLookupError {
    /// The ISBN text is not 10 or 13 digits or `X` (400 Bad Request).
    BadRequest,
    /// Neither Open Library nor Google Books knows the ISBN (404 Not Found).
    NotFound,
}

/// The ISBN that the lookup endpoint looks up for the text in its path, or
/// a bad request when the text is not an ISBN.
pub fn isbn_request(raw: &str) -> (r: Result<String, IsbnLookupError>)
    ensures
        match spec_normalize_isbn(raw@) {
            Some(isbn) => r matches Ok(s) && s@ == isbn,
            None => r matches Err(e) && e == IsbnLookupError::BadRequest,
        },
{
    match normalize_isbn(raw) {
        Some(isbn) => Ok(isbn),
        None => Err(IsbnLookupError::BadRequest),
    }
}

/// The answer of the ISBN endpoint once the lookup is over.
pub fn lookup_answer(found: Option<IsbnResult>) -> (r: Result<IsbnResult, IsbnLookupError>)
    ensures
        match found {
            Some(b) => r == Ok::<IsbnResult, IsbnLookupError>(b),
            None => r is Err && r->Err_0 is NotFound,
        },
{
    match found {
        Some(b) => Ok(b),
        None => Err(IsbnLookupError::NotFound),
    }
}

} // verus!
