//! Looking a book up by ISBN: Open Library first, then Google Books.
//!
//! The lookup alternates network requests and decisions. The decisions stand
//! here as a step function: from the stage the lookup is in and the document
//! that the last request returned, it gives the next request to make or the
//! final answer. The caller performs each request.
use vstd::prelude::*;
use crate::json::{JsonValue, at, text_of, first_of, is_nonempty_array, member, text, first, nonempty_array};
use crate::text::{replaced, replace_text, concat2, concat3};

verus! {

/// Book data found for an ISBN.
#[derive(Debug)]
pub struct IsbnResult {
    pub title: String,
    pub author: String,
    pub cover_url: Option<String>,
    pub isbn: String,
}

/// The book data of an `IsbnResult`, as text.
pub struct IsbnBook {
    pub title: Seq<char>,
    pub author: Seq<char>,
    pub cover_url: Option<Seq<char>>,
    pub isbn: Seq<char>,
}

impl View for IsbnResult {
    type V = IsbnBook;

    open spec fn view(&self) -> IsbnBook {
        IsbnBook {
            title: self.title@,
            author: self.author@,
            cover_url: match self.cover_url {
                Some(c) => Some(c@),
                None => None,
            },
            isbn: self.isbn@,
        }
    }
}

/// Where a lookup stands while it waits for a document.
#[derive(Debug)]
pub enum LookupStage {
    /// Waiting for the Open Library edition record.
    Edition,
    /// Waiting for the author record named by the edition.
    EditionAuthor(JsonValue),
    /// Waiting for the work record named by the edition.
    Work(JsonValue),
    /// Waiting for the author record named by the work.
    WorkAuthor(JsonValue),
    /// Waiting for the Google Books search result.
    GoogleBooks,
}

/// What a lookup does next.
#[derive(Debug)]
pub enum LookupStep {
    /// Request `url` and feed the JSON reply back at `stage`; when
    /// `require_success` holds, a reply with an error status counts as none.
    Fetch { stage: LookupStage, url: String, require_success: bool },
    /// The lookup is over: the book found, or `None` when nothing was found.
    Done(Option<IsbnResult>),
}

/// `LookupStep` with its text as character sequences.
pub enum LookupPlan {
    Fetch { stage: LookupStage, url: Seq<char>, require_success: bool },
    Done(Option<IsbnBook>),
}

impl View for LookupStep {
    type V = LookupPlan;

    open spec fn view(&self) -> LookupPlan {
        match self {
            LookupStep::Fetch { stage, url, require_success } => LookupPlan::Fetch {
                stage: *stage,
                url: url@,
                require_success: *require_success,
            },
            LookupStep::Done(r) => LookupPlan::Done(
                match r {
                    Some(b) => Some(b@),
                    None => None,
                },
            ),
        }
    }
}

/// Open Library's record of the edition with this ISBN.
pub open spec fn edition_url(isbn: Seq<char>) -> Seq<char> {
    "https://openlibrary.org/isbn/"@ + isbn + ".json"@
}

/// Open Library's record for a key such as `/authors/OL1A` or `/works/OL1W`.
pub open spec fn record_url(key: Seq<char>) -> Seq<char> {
    "https://openlibrary.org"@ + key + ".json"@
}

/// Open Library's medium cover image for an ISBN.
pub open spec fn cover_url(isbn: Seq<char>) -> Seq<char> {
    "https://covers.openlibrary.org/b/isbn/"@ + isbn + "-M.jpg"@
}

/// The Google Books search for an ISBN.
pub open spec fn google_books_url(isbn: Seq<char>) -> Seq<char> {
    "https://www.googleapis.com/books/v1/volumes?q=isbn:"@ + isbn
}

/// The edition's title, or "Unknown Title".
pub open spec fn edition_title(edition: JsonValue) -> Seq<char> {
    match text_of(at(Some(edition), "title"@)) {
        Some(t) => t,
        None => "Unknown Title"@,
    }
}

/// The `key` of the first element of a list of references.
pub open spec fn first_key(list: Option<JsonValue>) -> Option<Seq<char>> {
    text_of(at(first_of(list), "key"@))
}

/// The key of the edition's first author.
pub open spec fn edition_author_key(edition: JsonValue) -> Option<Seq<char>> {
    first_key(at(Some(edition), "authors"@))
}

/// The key of the edition's first work.
pub open spec fn work_key(edition: JsonValue) -> Option<Seq<char>> {
    first_key(at(Some(edition), "works"@))
}

/// The key of a work's first author: its `author.key`, else its own `key`.
pub open spec fn work_author_key(work: JsonValue) -> Option<Seq<char>> {
    match first_of(at(Some(work), "authors"@)) {
        None => None,
        Some(a) => match text_of(at(at(Some(a), "author"@), "key"@)) {
            Some(k) => Some(k),
            None => text_of(at(Some(a), "key"@)),
        },
    }
}

/// The `name` in an author record, or empty text when there is none.
pub open spec fn author_name(reply: Option<JsonValue>) -> Seq<char> {
    match text_of(at(reply, "name"@)) {
        Some(n) => n,
        None => Seq::empty(),
    }
}

/// The book that Open Library's edition record describes, with `author`.
pub open spec fn open_library_book(isbn: Seq<char>, edition: JsonValue, author: Seq<char>) -> IsbnBook {
    IsbnBook {
        title: edition_title(edition),
        author: author,
        cover_url: if is_nonempty_array(at(Some(edition), "covers"@)) {
            Some(cover_url(isbn))
        } else {
            None
        },
        isbn: isbn,
    }
}

/// The book that a Google Books search result names first, if it has a title.
/// A thumbnail address has every `http://` in it turned into `https://`.
pub open spec fn google_book(isbn: Seq<char>, reply: JsonValue) -> Option<IsbnBook> {
    match first_of(at(Some(reply), "items"@)) {
        None => None,
        Some(item) => {
            let info = at(Some(item), "volumeInfo"@);
            match text_of(at(info, "title"@)) {
                None => None,
                Some(title) => Some(IsbnBook {
                    title: title,
                    author: match text_of(first_of(at(info, "authors"@))) {
                        Some(a) => a,
                        None => Seq::empty(),
                    },
                    cover_url: match text_of(at(at(info, "imageLinks"@), "thumbnail"@)) {
                        Some(u) => Some(replaced(u, "http://"@, "https://"@)),
                        None => None,
                    },
                    isbn: isbn,
                }),
            }
        },
    }
}

/// After the edition's own author gave no name: ask for its work, if it has one.
pub open spec fn plan_work(isbn: Seq<char>, edition: JsonValue) -> LookupPlan {
    match work_key(edition) {
        Some(w) => LookupPlan::Fetch {
            stage: LookupStage::Work(edition),
            url: record_url(w),
            require_success: false,
        },
        None => LookupPlan::Done(Some(open_library_book(isbn, edition, Seq::empty()))),
    }
}

/// The first request of a lookup.
pub open spec fn plan_start(isbn: Seq<char>) -> LookupPlan {
    LookupPlan::Fetch { stage: LookupStage::Edition, url: edition_url(isbn), require_success: true }
}

/// The next step of a lookup at `stage`, given the reply to its last request
/// (`None` when the request failed or its body was not JSON).
pub open spec fn plan_next(isbn: Seq<char>, stage: LookupStage, reply: Option<JsonValue>) -> LookupPlan {
    match stage {
        LookupStage::Edition => match reply {
            None => LookupPlan::Fetch {
                stage: LookupStage::GoogleBooks,
                url: google_books_url(isbn),
                require_success: true,
            },
            Some(edition) => match edition_author_key(edition) {
                Some(k) => LookupPlan::Fetch {
                    stage: LookupStage::EditionAuthor(edition),
                    url: record_url(k),
                    require_success: false,
                },
                None => plan_work(isbn, edition),
            },
        },
        LookupStage::EditionAuthor(edition) => {
            let name = author_name(reply);
            if name.len() > 0 {
                LookupPlan::Done(Some(open_library_book(isbn, edition, name)))
            } else {
                plan_work(isbn, edition)
            }
        },
        LookupStage::Work(edition) => match reply {
            Some(work) => match work_author_key(work) {
                Some(k) => LookupPlan::Fetch {
                    stage: LookupStage::WorkAuthor(edition),
                    url: record_url(k),
                    require_success: false,
                },
                None => LookupPlan::Done(Some(open_library_book(isbn, edition, Seq::empty()))),
            },
            None => LookupPlan::Done(Some(open_library_book(isbn, edition, Seq::empty()))),
        },
        LookupStage::WorkAuthor(edition) => LookupPlan::Done(
            Some(open_library_book(isbn, edition, author_name(reply))),
        ),
        LookupStage::GoogleBooks => LookupPlan::Done(
            match reply {
                Some(r) => google_book(isbn, r),
                None => None,
            },
        ),
    }
}

/// How far a stage is along the lookup.
pub open spec fn stage_rank(stage: LookupStage) -> int {
    match stage {
        LookupStage::Edition => 0,
        LookupStage::EditionAuthor(_) => 1,
        LookupStage::Work(_) => 2,
        LookupStage::WorkAuthor(_) => 3,
        LookupStage::GoogleBooks => 4,
    }
}

/// Whether a stage belongs to the Open Library part of the lookup, after the
/// edition record was found.
pub open spec fn found_edition(stage: LookupStage) -> bool {
    match stage {
        LookupStage::EditionAuthor(_) | LookupStage::Work(_) | LookupStage::WorkAuthor(_) => true,
        _ => false,
    }
}

fn open_library_result(isbn: &str, edition: &JsonValue, author: String) -> (r: IsbnResult)
    ensures
        r@ == open_library_book(isbn@, *edition, author@),
{
    let title = match text(member(Some(edition), "title")) {
        Some(t) => t.clone(),
        None => String::from_str("Unknown Title"),
    };
    let cover = if nonempty_array(member(Some(edition), "covers")) {
        Some(concat3("https://covers.openlibrary.org/b/isbn/", isbn, "-M.jpg"))
    } else {
        None
    };
    IsbnResult { title, author, cover_url: cover, isbn: String::from_str(isbn) }
}

fn first_key_of(list: Option<&JsonValue>) -> (r: Option<&String>)
    ensures
        match r {
            Some(k) => first_key(crate::json::deref(list)) == Some(k@),
            None => first_key(crate::json::deref(list)) is None,
        },
{
    text(member(first(list), "key"))
}

fn name_in(reply: &Option<JsonValue>) -> (r: String)
    ensures
        r@ == author_name(*reply),
{
    let doc = match reply {
        Some(d) => Some(d),
        None => None,
    };
    match text(member(doc, "name")) {
        Some(n) => n.clone(),
        None => String::new(),
    }
}

fn google_result(isbn: &str, reply: &JsonValue) -> (r: Option<IsbnResult>)
    ensures
        match r {
            Some(b) => google_book(isbn@, *reply) == Some(b@),
            None => google_book(isbn@, *reply) is None,
        },
{
    let item = match first(member(Some(reply), "items")) {
        Some(i) => i,
        None => return None,
    };
    let info = member(Some(item), "volumeInfo");
    let title = match text(member(info, "title")) {
        Some(t) => t.clone(),
        None => return None,
    };
    let author = match text(first(member(info, "authors"))) {
        Some(a) => a.clone(),
        None => String::new(),
    };
    let cover = match text(member(member(info, "imageLinks"), "thumbnail")) {
        Some(u) => {
            proof {
                reveal_strlit("http://");
            }
            Some(replace_text(u.as_str(), "http://", "https://"))
        },
        None => None,
    };
    Some(IsbnResult { title, author, cover_url: cover, isbn: String::from_str(isbn) })
}

fn work_step(isbn: &str, edition: JsonValue) -> (r: LookupStep)
    ensures
        r@ == plan_work(isbn@, edition),
{
    let key = match first_key_of(member(Some(&edition), "works")) {
        Some(k) => Some(concat3("https://openlibrary.org", k.as_str(), ".json")),
        None => None,
    };
    match key {
        Some(url) => LookupStep::Fetch { stage: LookupStage::Work(edition), url, require_success: false },
        None => {
            let book = open_library_result(isbn, &edition, String::new());
            LookupStep::Done(Some(book))
        },
    }
}

/// The first request of a lookup for `isbn`: Open Library's edition record.
pub fn lookup_start(isbn: &str) -> (r: LookupStep)
    ensures
        r@ == plan_start(isbn@),
{
    LookupStep::Fetch {
        stage: LookupStage::Edition,
        url: concat3("https://openlibrary.org/isbn/", isbn, ".json"),
        require_success: true,
    }
}

/// The next step of a lookup for `isbn` at `stage`, given the reply to the
/// request that stage waits for (`None` when it failed).
pub fn lookup_next(isbn: &str, stage: LookupStage, reply: Option<JsonValue>) -> (r: LookupStep)
    ensures
        r@ == plan_next(isbn@, stage, reply),
{
    match stage {
        LookupStage::Edition => match reply {
            None => LookupStep::Fetch {
                stage: LookupStage::GoogleBooks,
                url: concat2("https://www.googleapis.com/books/v1/volumes?q=isbn:", isbn),
                require_success: true,
            },
            Some(edition) => {
                let key = match first_key_of(member(Some(&edition), "authors")) {
                    Some(k) => Some(concat3("https://openlibrary.org", k.as_str(), ".json")),
                    None => None,
                };
                match key {
                    Some(url) => LookupStep::Fetch {
                        stage: LookupStage::EditionAuthor(edition),
                        url,
                        require_success: false,
                    },
                    None => work_step(isbn, edition),
                }
            },
        },
        LookupStage::EditionAuthor(edition) => {
            let name = name_in(&reply);
            if name.as_str().is_empty() {
                work_step(isbn, edition)
            } else {
                LookupStep::Done(Some(open_library_result(isbn, &edition, name)))
            }
        },
        LookupStage::Work(edition) => {
            let key = match &reply {
                Some(work) => {
                    let authors = member(Some(work), "authors");
                    match first(authors) {
                        None => None,
                        Some(a) => match text(member(member(Some(a), "author"), "key")) {
                            Some(k) => Some(k),
                            None => text(member(Some(a), "key")),
                        },
                    }
                },
                None => None,
            };
            match key {
                Some(k) => LookupStep::Fetch {
                    stage: LookupStage::WorkAuthor(edition),
                    url: concat3("https://openlibrary.org", k.as_str(), ".json"),
                    require_success: false,
                },
                None => LookupStep::Done(Some(open_library_result(isbn, &edition, String::new()))),
            }
        },
        LookupStage::WorkAuthor(edition) => {
            let name = name_in(&reply);
            LookupStep::Done(Some(open_library_result(isbn, &edition, name)))
        },
        LookupStage::GoogleBooks => LookupStep::Done(
            match &reply {
                Some(r) => google_result(isbn, r),
                None => None,
            },
        ),
    }
}

/// A lookup only moves forward: each request it asks for belongs to a later
/// stage than the one it was at, so it makes at most four requests.
pub proof fn law_lookup_moves_forward(isbn: Seq<char>, stage: LookupStage, reply: Option<JsonValue>)
    ensures
        plan_next(isbn, stage, reply) matches LookupPlan::Fetch { stage: next, .. }
            ==> stage_rank(next) > stage_rank(stage),
{
}

/// Once Open Library has the edition, the lookup answers from Open Library:
/// it never asks Google Books and always ends with a book.
pub proof fn law_found_edition_is_final(isbn: Seq<char>, stage: LookupStage, reply: Option<JsonValue>)
    requires
        found_edition(stage) || (stage is Edition && reply is Some),
    ensures
        match plan_next(isbn, stage, reply) {
            LookupPlan::Fetch { stage: next, .. } => found_edition(next),
            LookupPlan::Done(book) => book is Some,
        },
{
}

/// After the edition record, the lookup asks for the author named by the
/// first element of the edition's `authors` list: exactly
/// `https://openlibrary.org{key}.json` for that element's `key`, whatever
/// follows it in the list.
pub proof fn law_edition_asks_first_author(
    isbn: Seq<char>,
    edition: JsonValue,
    authors: Vec<JsonValue>,
    key: Seq<char>,
)
    requires
        at(Some(edition), "authors"@) == Some(JsonValue::Array(authors)),
        authors@.len() > 0,
        text_of(at(Some(authors@[0]), "key"@)) == Some(key),
    ensures
        plan_next(isbn, LookupStage::Edition, Some(edition)) == (LookupPlan::Fetch {
            stage: LookupStage::EditionAuthor(edition),
            url: "https://openlibrary.org"@ + key + ".json"@,
            require_success: false,
        }),
{
}

/// Without an author key but with works, the lookup asks for the first work
/// named in the edition's `works` list.
pub proof fn law_edition_asks_first_work(
    isbn: Seq<char>,
    edition: JsonValue,
    works: Vec<JsonValue>,
    key: Seq<char>,
)
    requires
        text_of(at(first_of(at(Some(edition), "authors"@)), "key"@)) is None,
        at(Some(edition), "works"@) == Some(JsonValue::Array(works)),
        works@.len() > 0,
        text_of(at(Some(works@[0]), "key"@)) == Some(key),
    ensures
        plan_next(isbn, LookupStage::Edition, Some(edition)) == (LookupPlan::Fetch {
            stage: LookupStage::Work(edition),
            url: "https://openlibrary.org"@ + key + ".json"@,
            require_success: false,
        }),
{
}

/// A found author name becomes the book's author, with the edition's title,
/// and the ISBN looked up.
pub proof fn law_author_name_credited(isbn: Seq<char>, edition: JsonValue, reply: JsonValue, name: Seq<char>)
    requires
        text_of(at(Some(reply), "name"@)) == Some(name),
        name.len() > 0,
    ensures
        plan_next(isbn, LookupStage::EditionAuthor(edition), Some(reply)) matches LookupPlan::Done(Some(book))
            && book.author == name && book.isbn == isbn && book.title == edition_title(edition),
{
}

/// The book that Open Library describes takes the edition's `title`, or
/// "Unknown Title" when it has none, and the medium cover image for the ISBN
/// exactly when the edition lists covers.
pub proof fn law_open_library_book_fields(isbn: Seq<char>, edition: JsonValue, author: Seq<char>)
    ensures
        open_library_book(isbn, edition, author).title == (match text_of(at(Some(edition), "title"@)) {
            Some(t) => t,
            None => "Unknown Title"@,
        }),
        open_library_book(isbn, edition, author).author == author,
        open_library_book(isbn, edition, author).isbn == isbn,
        (match at(Some(edition), "covers"@) {
            Some(JsonValue::Array(covers)) => covers@.len() > 0,
            _ => false,
        }) ==> open_library_book(isbn, edition, author).cover_url
            == Some("https://covers.openlibrary.org/b/isbn/"@ + isbn + "-M.jpg"@),
        !(match at(Some(edition), "covers"@) {
            Some(JsonValue::Array(covers)) => covers@.len() > 0,
            _ => false,
        }) ==> open_library_book(isbn, edition, author).cover_url is None,
{
}

/// Google Books answers with its first item: its volume's title, and the
/// ISBN looked up; a first item without a title gives no book.
pub proof fn law_google_first_item(isbn: Seq<char>, reply: JsonValue, items: Vec<JsonValue>)
    requires
        at(Some(reply), "items"@) == Some(JsonValue::Array(items)),
        items@.len() > 0,
    ensures
        match text_of(at(at(Some(items@[0]), "volumeInfo"@), "title"@)) {
            Some(t) => plan_next(isbn, LookupStage::GoogleBooks, Some(reply)) matches LookupPlan::Done(Some(book))
                && book.title == t && book.isbn == isbn,
            None => plan_next(isbn, LookupStage::GoogleBooks, Some(reply)) == LookupPlan::Done(None),
        },
{
}

} // verus!
