use bookworm::json::JsonValue;
use bookworm::lookup::{lookup_next, lookup_start, IsbnResult, LookupStage, LookupStep};

fn text(s: &str) -> JsonValue {
    JsonValue::Text(s.to_string())
}

fn obj(members: Vec<(&str, JsonValue)>) -> JsonValue {
    JsonValue::Object(members.into_iter().map(|(k, v)| (k.to_string(), v)).collect())
}

fn arr(items: Vec<JsonValue>) -> JsonValue {
    JsonValue::Array(items)
}

fn fetch(step: LookupStep) -> (LookupStage, String, bool) {
    match step {
        LookupStep::Fetch { stage, url, require_success } => (stage, url, require_success),
        LookupStep::Done(r) => panic!("expected a request, got {r:?}"),
    }
}

fn done(step: LookupStep) -> Option<IsbnResult> {
    match step {
        LookupStep::Done(r) => r,
        LookupStep::Fetch { url, .. } => panic!("expected an answer, got a request for {url}"),
    }
}

const ISBN: &str = "9780064430173";

fn goodnight_moon_edition() -> JsonValue {
    obj(vec![
        ("title", text("Goodnight Moon")),
        ("authors", arr(vec![obj(vec![("key", text("/authors/OL2A"))])])),
        ("works", arr(vec![obj(vec![("key", text("/works/OL7W"))])])),
        ("covers", arr(vec![JsonValue::Number("123".to_string())])),
    ])
}

#[test]
fn lookup_starts_with_open_library_edition() {
    let (stage, url, checked) = fetch(lookup_start(ISBN));
    assert!(matches!(stage, LookupStage::Edition));
    assert_eq!(url, "https://openlibrary.org/isbn/9780064430173.json");
    assert!(checked);
}

#[test]
fn lookup_asks_for_edition_author_then_answers() {
    let (stage, url, checked) = fetch(lookup_next(ISBN, LookupStage::Edition, Some(goodnight_moon_edition())));
    assert_eq!(url, "https://openlibrary.org/authors/OL2A.json");
    assert!(!checked);
    let author = obj(vec![("name", text("Margaret Wise Brown"))]);
    let book = done(lookup_next(ISBN, stage, Some(author))).expect("a book");
    assert_eq!(book.title, "Goodnight Moon");
    assert_eq!(book.author, "Margaret Wise Brown");
    assert_eq!(book.isbn, ISBN);
    assert_eq!(
        book.cover_url.as_deref(),
        Some("https://covers.openlibrary.org/b/isbn/9780064430173-M.jpg")
    );
}

#[test]
fn lookup_falls_back_to_work_author_when_edition_author_has_no_name() {
    let (stage, _, _) = fetch(lookup_next(ISBN, LookupStage::Edition, Some(goodnight_moon_edition())));
    let (stage, url, checked) = fetch(lookup_next(ISBN, stage, None));
    assert!(matches!(stage, LookupStage::Work(_)));
    assert_eq!(url, "https://openlibrary.org/works/OL7W.json");
    assert!(!checked);
    let work = obj(vec![(
        "authors",
        arr(vec![obj(vec![("author", obj(vec![("key", text("/authors/OL9A"))]))])]),
    )]);
    let (stage, url, _) = fetch(lookup_next(ISBN, stage, Some(work)));
    assert!(matches!(stage, LookupStage::WorkAuthor(_)));
    assert_eq!(url, "https://openlibrary.org/authors/OL9A.json");
    let book = done(lookup_next(ISBN, stage, Some(obj(vec![("name", text("Clement Hurd"))])))).unwrap();
    assert_eq!(book.author, "Clement Hurd");
}

#[test]
fn lookup_work_author_uses_plain_key_when_no_author_object() {
    let edition = obj(vec![("works", arr(vec![obj(vec![("key", text("/works/W1"))])]))]);
    let (stage, url, _) = fetch(lookup_next(ISBN, LookupStage::Edition, Some(edition)));
    assert_eq!(url, "https://openlibrary.org/works/W1.json");
    let work = obj(vec![("authors", arr(vec![obj(vec![("key", text("/authors/A5"))])]))]);
    let (_, url, _) = fetch(lookup_next(ISBN, stage, Some(work)));
    assert_eq!(url, "https://openlibrary.org/authors/A5.json");
}

#[test]
fn lookup_without_author_or_work_answers_with_empty_author() {
    let edition = obj(vec![("covers", arr(vec![]))]);
    let book = done(lookup_next(ISBN, LookupStage::Edition, Some(edition))).unwrap();
    assert_eq!(book.title, "Unknown Title");
    assert_eq!(book.author, "");
    assert_eq!(book.cover_url, None);
}

#[test]
fn lookup_failed_work_answers_with_empty_author() {
    let (stage, _, _) = fetch(lookup_next(ISBN, LookupStage::Edition, Some(goodnight_moon_edition())));
    let (stage, _, _) = fetch(lookup_next(ISBN, stage, Some(obj(vec![("name", text(""))]))));
    let book = done(lookup_next(ISBN, stage, None)).unwrap();
    assert_eq!(book.title, "Goodnight Moon");
    assert_eq!(book.author, "");
}

#[test]
fn lookup_goes_to_google_books_when_edition_missing() {
    let (stage, url, checked) = fetch(lookup_next(ISBN, LookupStage::Edition, None));
    assert!(matches!(stage, LookupStage::GoogleBooks));
    assert_eq!(url, "https://www.googleapis.com/books/v1/volumes?q=isbn:9780064430173");
    assert!(checked);
    let reply = obj(vec![(
        "items",
        arr(vec![obj(vec![(
            "volumeInfo",
            obj(vec![
                ("title", text("Goodnight Moon")),
                ("authors", arr(vec![text("Margaret Wise Brown"), text("Clement Hurd")])),
                ("imageLinks", obj(vec![("thumbnail", text("http://books.google.com/c?id=1"))])),
            ]),
        )])]),
    )]);
    let book = done(lookup_next(ISBN, stage, Some(reply))).unwrap();
    assert_eq!(book.title, "Goodnight Moon");
    assert_eq!(book.author, "Margaret Wise Brown");
    assert_eq!(book.cover_url.as_deref(), Some("https://books.google.com/c?id=1"));
}

#[test]
fn lookup_google_without_title_finds_nothing() {
    let reply = obj(vec![("items", arr(vec![obj(vec![("volumeInfo", obj(vec![]))])]))]);
    assert!(done(lookup_next(ISBN, LookupStage::GoogleBooks, Some(reply))).is_none());
    assert!(done(lookup_next(ISBN, LookupStage::GoogleBooks, Some(obj(vec![("items", arr(vec![]))])))).is_none());
    assert!(done(lookup_next(ISBN, LookupStage::GoogleBooks, None)).is_none());
}

#[test]
fn lookup_reads_the_first_member_with_a_key() {
    let edition = obj(vec![("title", text("First")), ("title", text("Second"))]);
    let book = done(lookup_next(ISBN, LookupStage::Edition, Some(edition))).unwrap();
    assert_eq!(book.title, "First");
}
