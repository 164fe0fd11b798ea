use bookworm::flows::{
    disable_switch, feature_enabled, lock_release, log_read_after_record, log_read_after_save, log_read_start,
    isbn_request, lookup_answer, IsbnLookupError, LockRelease, LogReadStep,
};

fn redirect(step: LogReadStep) -> &'static str {
    match step {
        LogReadStep::Redirect(p) => p,
        other => panic!("expected a redirect, got {other:?}"),
    }
}

#[test]
fn log_read_empty_title_redirects_without_creating() {
    assert_eq!(redirect(log_read_start("", "Someone", None, None)), "/log");
    assert_eq!(redirect(log_read_start("   ", "Someone", None, None)), "/log");
}

#[test]
fn log_read_empty_author_is_valid() {
    match log_read_start("Some Book", "", None, None) {
        LogReadStep::SaveBook(r) => {
            assert_eq!(r.title, "Some Book");
            assert_eq!(r.author, "");
        },
        other => panic!("expected to save the book, got {other:?}"),
    }
}

#[test]
fn log_read_trims_whitespace_from_title_and_author() {
    match log_read_start("  Goodnight Moon  ", "  Margaret  ", None, None) {
        LogReadStep::SaveBook(r) => {
            assert_eq!(r.title, "Goodnight Moon");
            assert_eq!(r.author, "Margaret");
        },
        other => panic!("expected to save the book, got {other:?}"),
    }
}

#[test]
fn log_read_with_isbn_stores_isbn() {
    let cover = "https://covers.openlibrary.org/b/isbn/9780064430173-M.jpg";
    match log_read_start("Test ISBN Book", "Test Author", Some("9780064430173"), Some(cover)) {
        LogReadStep::SaveBook(r) => {
            assert_eq!(r.isbn.as_deref(), Some("9780064430173"));
            assert_eq!(r.cover_url.as_deref(), Some(cover));
        },
        other => panic!("expected to save the book, got {other:?}"),
    }
}

#[test]
fn log_read_drops_blank_isbn_and_cover() {
    match log_read_start("T", "A", Some("   "), Some("")) {
        LogReadStep::SaveBook(r) => {
            assert_eq!(r.isbn, None);
            assert_eq!(r.cover_url, None);
        },
        other => panic!("expected to save the book, got {other:?}"),
    }
}

#[test]
fn log_read_creates_book_and_read_event() {
    assert!(matches!(log_read_after_save(Some(7)), LogReadStep::RecordRead(7)));
    assert_eq!(redirect(log_read_after_record(true)), "/log?logged=true");
}

#[test]
fn log_read_failures_return_to_the_form() {
    assert_eq!(redirect(log_read_after_save(None)), "/log");
    assert_eq!(redirect(log_read_after_record(false)), "/log");
}

#[test]
fn features_run_unless_disabled_is_true() {
    assert_eq!(disable_switch("SERVER"), "SERVER_DISABLED");
    assert!(feature_enabled(None));
    assert!(feature_enabled(Some("false")));
    assert!(feature_enabled(Some("TRUE")));
    assert!(!feature_enabled(Some("true")));
}

#[test]
fn lock_release_reads_the_answer() {
    assert_eq!(lock_release(Some(true)), LockRelease::Released);
    assert_eq!(lock_release(Some(false)), LockRelease::NotHeld);
    assert_eq!(lock_release(None), LockRelease::NoAnswer);
}

#[test]
fn lookup_answer_is_not_found_without_a_book() {
    assert!(matches!(lookup_answer(None), Err(IsbnLookupError::NotFound)));
}

#[test]
fn isbn_request_accepts_or_rejects_the_path_text() {
    assert_eq!(isbn_request("978-0-06-443017-3"), Ok("9780064430173".to_string()));
    assert_eq!(isbn_request("abc"), Err(IsbnLookupError::BadRequest));
}
