//! What each page shows, decided from the data the handlers load.
use vstd::prelude::*;
use crate::goal::{
    accent, accent_color, books_remaining, checkbox_grid, goal_percent, milestones, milestones_reached,
    milestones_reached_by, percent_of_goal, total_rereads, max, block_fill, milestone_threshold, milestone_emoji,
    milestone_color, Milestone,
    CheckboxGrid,
};
use crate::calendar::{
    Countdown, countdown, spec_countdown, is_day_number, iso_date, iso_date_text, short_date, short_date_text,
    long_date, long_date_text,
};
use crate::links::{library_href, library_href_spec};
use crate::text::{same_text, opt_text};

verus! {

/// Whether a book's author line is shown: only for a non-empty author.
pub fn shows_author(author: &str) -> (b: bool)
    ensures
        b == (author@.len() > 0),
{
    !author.is_empty()
}

/// How one entry of a list is drawn.
pub struct EntryStyle {
    /// The accent color of its badge, cycling with its position.
    pub color: &'static str,
    /// Whether it shows its author line.
    pub show_author: bool,
}

fn entry_styles(authors: &Vec<String>) -> (styles: Vec<EntryStyle>)
    ensures
        styles@.len() == authors@.len(),
        forall|i: int| 0 <= i < authors@.len() ==> {
            &&& (#[trigger] styles@[i]).color@ == accent_color(i)
            &&& styles@[i].show_author == (authors@[i]@.len() > 0)
        },
{
    let mut styles: Vec<EntryStyle> = Vec::new();
    let mut i: usize = 0;
    while i < authors.len()
        invariant
            i <= authors@.len(),
            styles@.len() == i,
            forall|k: int| 0 <= k < i ==> {
                &&& (#[trigger] styles@[k]).color@ == accent_color(k)
                &&& styles@[k].show_author == (authors@[k]@.len() > 0)
            },
        decreases authors@.len() - i,
    {
        styles.push(EntryStyle { color: accent(i), show_author: shows_author(authors[i].as_str()) });
        i += 1;
    }
    styles
}

/// The log form page.
pub struct LogFormView {
    /// Whether to show the "Book logged!" notice.
    pub show_notice: bool,
    /// The number the next logged read will have.
    pub next_read_number: i64,
    /// How each recently added book is drawn, newest first.
    pub recent: Vec<EntryStyle>,
}

/// The log form, given the `logged` query parameter, the read count and the
/// authors of the recently added books.
pub fn log_form_view(logged: Option<&str>, total_reads: i64, recent_authors: &Vec<String>) -> (v: LogFormView)
    requires
        total_reads < i64::MAX,
    ensures
        v.show_notice == (logged matches Some(p) && p@ == "true"@),
        v.next_read_number == total_reads + 1,
        v.recent@.len() == recent_authors@.len(),
        forall|i: int| 0 <= i < recent_authors@.len() ==> {
            &&& (#[trigger] v.recent@[i]).color@ == accent_color(i)
            &&& v.recent@[i].show_author == (recent_authors@[i]@.len() > 0)
        },
{
    let show_notice = match logged {
        Some(p) => same_text(p, "true"),
        None => false,
    };
    LogFormView { show_notice, next_read_number: total_reads + 1, recent: entry_styles(recent_authors) }
}

/// The library page asked for (0 when none) and the number of books before it.
pub fn library_window(page: Option<u32>) -> (w: (u32, i64))
    ensures
        w.0 == match page { Some(p) => p, None => 0 },
        w.1 == w.0 * 50,
{
    let p = match page {
        Some(p) => p,
        None => 0,
    };
    (p, p as i64 * 50)
}

/// What the library page decides on for one listed book.
pub struct ListedBook {
    pub read_count: i64,
    pub author: String,
    /// The day number of its latest read.
    pub last_read_day: i32,
}

/// How one book of the library listing is drawn.
pub struct LibraryRowStyle {
    /// Its position in the whole listing, counting from 1.
    pub number: i64,
    pub color: &'static str,
    /// Whether it shows a "×n" read-count badge: only when read more than once.
    pub show_read_count: bool,
    pub show_author: bool,
    /// The date of its latest read, `YYYY-MM-DD`.
    pub last_read: String,
}

/// The library page.
pub struct LibraryView {
    pub page: u32,
    /// The text in the search box.
    pub search_text: String,
    pub show_reread_notice: bool,
    pub show_deleted_notice: bool,
    pub rows: Vec<LibraryRowStyle>,
    /// The link to the previous page, from page 1 on.
    pub previous: Option<String>,
    /// The link to the next page, when this page is full.
    pub next: Option<String>,
}

/// The text of an optional string slice, empty when absent.
pub open spec fn text_or_empty(s: Option<&str>) -> Seq<char> {
    match s {
        Some(t) => t@,
        None => Seq::empty(),
    }
}

/// The library page `page`, listing `books`, for the search `search`; the
/// notices show when the `reread` or `deleted` parameters are present.
pub fn library_view(page: u32, search: Option<&str>, reread: bool, deleted: bool, books: &Vec<ListedBook>) -> (v: LibraryView)
    requires
        !(page == u32::MAX && books@.len() == 50),
        page * 50 + books@.len() + 1 <= i64::MAX,
        forall|i: int| 0 <= i < books@.len() ==> is_day_number((#[trigger] books@[i]).last_read_day as int),
    ensures
        v.page == page,
        v.search_text@ == text_or_empty(search),
        v.show_reread_notice == reread,
        v.show_deleted_notice == deleted,
        v.rows@.len() == books@.len(),
        forall|i: int| 0 <= i < books@.len() ==> {
            &&& (#[trigger] v.rows@[i]).number == page * 50 + i + 1
            &&& v.rows@[i].color@ == accent_color(i)
            &&& v.rows@[i].show_read_count == (books@[i].read_count > 1)
            &&& v.rows@[i].show_author == (books@[i].author@.len() > 0)
            &&& v.rows@[i].last_read@ == iso_date_text(books@[i].last_read_day as int)
        },
        match v.previous {
            Some(l) => page > 0 && l@ == library_href_spec(page - 1, search),
            None => page == 0,
        },
        match v.next {
            Some(l) => books@.len() == 50 && l@ == library_href_spec(page + 1, search),
            None => books@.len() != 50,
        },
{
    let offset = page as i64 * 50;
    let mut rows: Vec<LibraryRowStyle> = Vec::new();
    let mut i: usize = 0;
    while i < books.len()
        invariant
            offset == page * 50,
            page * 50 + books@.len() + 1 <= i64::MAX,
            forall|j: int| 0 <= j < books@.len() ==> is_day_number((#[trigger] books@[j]).last_read_day as int),
            i <= books@.len(),
            rows@.len() == i,
            forall|k: int| 0 <= k < i ==> {
                &&& (#[trigger] rows@[k]).number == page * 50 + k + 1
                &&& rows@[k].color@ == accent_color(k)
                &&& rows@[k].show_read_count == (books@[k].read_count > 1)
                &&& rows@[k].show_author == (books@[k].author@.len() > 0)
                &&& rows@[k].last_read@ == iso_date_text(books@[k].last_read_day as int)
            },
        decreases books@.len() - i,
    {
        let b = &books[i];
        rows.push(LibraryRowStyle {
            number: offset + i as i64 + 1,
            color: accent(i),
            show_read_count: b.read_count > 1,
            show_author: shows_author(b.author.as_str()),
            last_read: iso_date(b.last_read_day),
        });
        i += 1;
    }
    let search_text = match search {
        Some(q) => String::from_str(q),
        None => String::new(),
    };
    let previous = if page > 0 { Some(library_href(page - 1, search)) } else { None };
    let next = if books.len() == 50 { Some(library_href(page + 1, search)) } else { None };
    LibraryView {
        page,
        search_text,
        show_reread_notice: reread,
        show_deleted_notice: deleted,
        rows,
        previous,
        next,
    }
}

/// Whether the progress page counts all reads (`?mode=reads`) rather than
/// unique books.
pub open spec fn counts_reads(mode: Option<&str>) -> bool {
    mode matches Some(m) && m@ == "reads"@
}

/// Whether a progress page `mode` asks for all reads to be counted.
pub fn reads_mode(mode: Option<&str>) -> (b: bool)
    ensures
        b == counts_reads(mode),
{
    match mode {
        Some(m) => same_text(m, "reads"),
        None => false,
    }
}

/// The count the progress page tracks.
pub open spec fn progress_count(mode: Option<&str>, total_reads: i64, unique_books: i64) -> i64 {
    if counts_reads(mode) { total_reads } else { unique_books }
}

/// The progress page.
pub struct ProgressView {
    /// Whether it counts all reads rather than unique books.
    pub counts_reads: bool,
    /// The count it tracks.
    pub count: i64,
    /// "total reads" or "unique books".
    pub count_label: &'static str,
    /// "Reads" or "Books", for the per-month and per-week rates.
    pub rate_noun: &'static str,
    /// Progress toward 1,000, in whole percent, at most 100.
    pub percent: i64,
    /// How many more the goal needs.
    pub remaining: i64,
    pub countdown: Countdown,
    pub milestones: Vec<Milestone>,
    /// The ten blocks of 100 checkboxes.
    pub grids: Vec<CheckboxGrid>,
}

/// The progress page for `mode`, given the reading counts and the day
/// number of today.
pub fn progress_view(mode: Option<&str>, total_reads: i64, unique_books: i64, today: i32) -> (v: ProgressView)
    requires
        i64::MIN <= progress_count(mode, total_reads, unique_books) * 100 <= i64::MAX,
        1000 - progress_count(mode, total_reads, unique_books) <= i64::MAX,
        progress_count(mode, total_reads, unique_books) - 900 >= i64::MIN,
    ensures
        v.counts_reads == counts_reads(mode),
        v.count == progress_count(mode, total_reads, unique_books),
        v.count_label@ == (if counts_reads(mode) { "total reads"@ } else { "unique books"@ }),
        v.rate_noun@ == (if counts_reads(mode) { "Reads"@ } else { "Books"@ }),
        v.percent == percent_of_goal(v.count as int),
        v.remaining == max(1000 - v.count, 0),
        (v.countdown.days_left as int, v.countdown.days_elapsed as int, v.countdown.total_days as int)
            == spec_countdown(today as int),
        v.milestones@.len() == 5,
        forall|i: int| 0 <= i < 5 ==> {
            &&& (#[trigger] v.milestones@[i]).threshold == milestone_threshold(i)
            &&& v.milestones@[i].emoji@ == milestone_emoji(i)
            &&& v.milestones@[i].color@ == milestone_color(i)
            &&& v.milestones@[i].earned == (v.count >= milestone_threshold(i))
        },
        v.grids@.len() == 10,
        forall|b: int| 0 <= b < 10 ==> {
            &&& (#[trigger] v.grids@[b]).start == b * 100
            &&& v.grids@[b].filled == block_fill(b, v.count as int)
            &&& v.grids@[b].complete == (v.grids@[b].filled >= 100)
            &&& v.grids@[b].color@ == accent_color(b)
            &&& v.grids@[b].cells@.len() == 100
            &&& forall|k: int| 0 <= k < 100 ==> (#[trigger] v.grids@[b].cells@[k]) == (k < v.grids@[b].filled)
        },
{
    let reads = reads_mode(mode);
    let count = if reads { total_reads } else { unique_books };
    let mut grids: Vec<CheckboxGrid> = Vec::new();
    let mut b: usize = 0;
    while b < 10
        invariant
            b <= 10,
            count - 900 >= i64::MIN,
            grids@.len() == b,
            forall|j: int| 0 <= j < b ==> {
                &&& (#[trigger] grids@[j]).start == j * 100
                &&& grids@[j].filled == block_fill(j, count as int)
                &&& grids@[j].complete == (grids@[j].filled >= 100)
                &&& grids@[j].color@ == accent_color(j)
                &&& grids@[j].cells@.len() == 100
                &&& forall|k: int| 0 <= k < 100 ==> (#[trigger] grids@[j].cells@[k]) == (k < grids@[j].filled)
            },
        decreases 10 - b,
    {
        grids.push(checkbox_grid(b, count));
        b += 1;
    }
    ProgressView {
        counts_reads: reads,
        count,
        count_label: if reads { "total reads" } else { "unique books" },
        rate_noun: if reads { "Reads" } else { "Books" },
        percent: goal_percent(count),
        remaining: books_remaining(count),
        countdown: countdown(today),
        milestones: milestones(count),
        grids,
    }
}

/// How the goal stands on the stats page.
#[derive(Debug, Clone, Copy, PartialEq, Eq, Structural)]
pub enum GoalStatus {
    /// Kindergarten has started and the goal was met.
    GoalReached,
    /// Kindergarten has started without the goal met.
    PeriodEnded,
    /// Fewer than 15 books a month are still needed.
    OnTrack,
    /// Fewer than 25 books a month are still needed.
    KeepItUp,
    /// 25 or more books a month are still needed.
    ReadMore,
}

/// The goal status, given the days left, the unique books, and whether the
/// books per month still needed are below 15 and below 25.
pub open spec fn spec_goal_status(days_left: int, unique_books: int, below_15: bool, below_25: bool) -> GoalStatus {
    if days_left == 0 && unique_books >= 1000 {
        GoalStatus::GoalReached
    } else if days_left == 0 {
        GoalStatus::PeriodEnded
    } else if below_15 {
        GoalStatus::OnTrack
    } else if below_25 {
        GoalStatus::KeepItUp
    } else {
        GoalStatus::ReadMore
    }
}

/// Classifies how the goal stands; the two rate comparisons are made by the
/// caller on the floating-point books-per-month figure.
pub fn goal_status(days_left: i64, unique_books: i64, below_15: bool, below_25: bool) -> (s: GoalStatus)
    ensures
        s == spec_goal_status(days_left as int, unique_books as int, below_15, below_25),
{
    if days_left == 0 && unique_books >= 1000 {
        GoalStatus::GoalReached
    } else if days_left == 0 {
        GoalStatus::PeriodEnded
    } else if below_15 {
        GoalStatus::OnTrack
    } else if below_25 {
        GoalStatus::KeepItUp
    } else {
        GoalStatus::ReadMore
    }
}

/// How a goal status is drawn.
pub struct StatusStyle {
    pub background: &'static str,
    pub border: &'static str,
    pub heading: &'static str,
    /// Whether the books per month still needed are shown below the heading.
    pub shows_rate: bool,
}

/// The drawing of each goal status: (background, border, heading, shows the rate).
pub open spec fn spec_status_style(s: GoalStatus) -> (Seq<char>, Seq<char>, Seq<char>, bool) {
    match s {
        GoalStatus::GoalReached => ("bg-accent-bg-green"@, "border-accent-green"@, "Goal reached! 🏆"@, false),
        GoalStatus::PeriodEnded => ("bg-accent-bg-red"@, "border-accent-red"@, "Goal period ended"@, false),
        GoalStatus::OnTrack => ("bg-accent-bg-green"@, "border-accent-green"@, "On track! 🎉"@, true),
        GoalStatus::KeepItUp => ("bg-accent-bg-yellow"@, "border-accent-yellow"@, "Keep it up! 📚"@, true),
        GoalStatus::ReadMore => ("bg-accent-bg-red"@, "border-accent-red"@, "Time to read more! 🏃"@, true),
    }
}

/// How a goal status is drawn.
pub fn status_style(s: &GoalStatus) -> (st: StatusStyle)
    ensures
        (st.background@, st.border@, st.heading@, st.shows_rate) == spec_status_style(*s),
{
    match s {
        GoalStatus::GoalReached => StatusStyle {
            background: "bg-accent-bg-green",
            border: "border-accent-green",
            heading: "Goal reached! 🏆",
            shows_rate: false,
        },
        GoalStatus::PeriodEnded => StatusStyle {
            background: "bg-accent-bg-red",
            border: "border-accent-red",
            heading: "Goal period ended",
            shows_rate: false,
        },
        GoalStatus::OnTrack => StatusStyle {
            background: "bg-accent-bg-green",
            border: "border-accent-green",
            heading: "On track! 🎉",
            shows_rate: true,
        },
        GoalStatus::KeepItUp => StatusStyle {
            background: "bg-accent-bg-yellow",
            border: "border-accent-yellow",
            heading: "Keep it up! 📚",
            shows_rate: true,
        },
        GoalStatus::ReadMore => StatusStyle {
            background: "bg-accent-bg-red",
            border: "border-accent-red",
            heading: "Time to read more! 🏃",
            shows_rate: true,
        },
    }
}

/// The stats page's figures.
pub struct StatsView {
    pub total_reads: i64,
    pub unique_books: i64,
    /// Reads beyond each book's first; never negative.
    pub total_rereads: i64,
    /// The milestone badges, earned by unique books.
    pub milestones: Vec<Milestone>,
    /// How many of the five milestones are reached.
    pub milestones_reached: usize,
    /// Days until kindergarten starts.
    pub days_left: i64,
    /// Unique books still to read.
    pub books_remaining: i64,
}

/// The stats page's figures from the reading counts and today's day number.
pub fn stats_view(total_reads: i64, unique_books: i64, today: i32) -> (v: StatsView)
    requires
        i64::MIN <= total_reads - unique_books <= i64::MAX,
        1000 - unique_books <= i64::MAX,
    ensures
        v.total_reads == total_reads,
        v.unique_books == unique_books,
        v.total_rereads == max(total_reads - unique_books, 0),
        v.milestones@.len() == 5,
        forall|i: int| 0 <= i < 5 ==> {
            &&& (#[trigger] v.milestones@[i]).threshold == milestone_threshold(i)
            &&& v.milestones@[i].emoji@ == milestone_emoji(i)
            &&& v.milestones@[i].color@ == milestone_color(i)
            &&& v.milestones@[i].earned == (unique_books >= milestone_threshold(i))
        },
        v.milestones_reached == milestones_reached_by(unique_books as int),
        v.days_left == spec_countdown(today as int).0,
        v.books_remaining == max(1000 - unique_books, 0),
{
    StatsView {
        total_reads,
        unique_books,
        total_rereads: total_rereads(total_reads, unique_books),
        milestones: milestones(unique_books),
        milestones_reached: milestones_reached(unique_books),
        days_left: countdown(today).days_left,
        books_remaining: books_remaining(unique_books),
    }
}

/// What marks an entry of a book's reading timeline.
#[derive(Debug, Clone, Copy, PartialEq, Eq, Structural)]
pub enum ReadMarker {
    /// The book's first read (the oldest entry).
    FirstRead,
    /// The most recent read, when it is not also the first.
    MostRecent,
    Plain,
}

/// One read in a book's timeline, newest first.
pub struct TimelineEntry {
    /// The read's number: the oldest read is 1.
    pub number: usize,
    pub color: &'static str,
    pub marker: ReadMarker,
    /// The read's date, written like `January 5, 2025`.
    pub date: String,
}

/// The marker of entry `i` of `n` timeline entries, newest first.
pub open spec fn spec_marker(i: int, n: int) -> ReadMarker {
    if i == n - 1 {
        ReadMarker::FirstRead
    } else if i == 0 {
        ReadMarker::MostRecent
    } else {
        ReadMarker::Plain
    }
}

/// A book's page, decided from the dates of its reads.
pub struct BookDetailView {
    pub times_read: usize,
    /// The date of the first read, written like `Jan 5, 2025`.
    pub first_read: Option<String>,
    /// The date of the most recent read, written like `Jan 5, 2025`.
    pub last_read: Option<String>,
    pub timeline: Vec<TimelineEntry>,
}

/// A book's page for reads on the days numbered `read_days`, newest first.
pub fn book_detail_view(read_days: &Vec<i32>) -> (v: BookDetailView)
    requires
        forall|i: int| 0 <= i < read_days@.len() ==> is_day_number(#[trigger] read_days@[i] as int),
    ensures
        v.times_read == read_days@.len(),
        opt_text(v.first_read) == (if read_days@.len() > 0 {
            Some(short_date_text(read_days@.last() as int))
        } else {
            None::<Seq<char>>
        }),
        opt_text(v.last_read) == (if read_days@.len() > 0 {
            Some(short_date_text(read_days@[0] as int))
        } else {
            None::<Seq<char>>
        }),
        v.timeline@.len() == read_days@.len(),
        forall|i: int| 0 <= i < read_days@.len() ==> {
            &&& (#[trigger] v.timeline@[i]).number == read_days@.len() - i
            &&& v.timeline@[i].color@ == accent_color(i)
            &&& v.timeline@[i].marker == spec_marker(i, read_days@.len() as int)
            &&& v.timeline@[i].date@ == long_date_text(read_days@[i] as int)
        },
{
    let n = read_days.len();
    let mut timeline: Vec<TimelineEntry> = Vec::new();
    let mut i: usize = 0;
    while i < n
        invariant
            n == read_days@.len(),
            forall|j: int| 0 <= j < read_days@.len() ==> is_day_number(#[trigger] read_days@[j] as int),
            i <= n,
            timeline@.len() == i,
            forall|k: int| 0 <= k < i ==> {
                &&& (#[trigger] timeline@[k]).number == n - k
                &&& timeline@[k].color@ == accent_color(k)
                &&& timeline@[k].marker == spec_marker(k, n as int)
                &&& timeline@[k].date@ == long_date_text(read_days@[k] as int)
            },
        decreases n - i,
    {
        let marker = if i == n - 1 {
            ReadMarker::FirstRead
        } else if i == 0 {
            ReadMarker::MostRecent
        } else {
            ReadMarker::Plain
        };
        timeline.push(TimelineEntry { number: n - i, color: accent(i), marker, date: long_date(read_days[i]) });
        i += 1;
    }
    let first_read = if n > 0 { Some(short_date(read_days[n - 1])) } else { None };
    let last_read = if n > 0 { Some(short_date(read_days[0])) } else { None };
    BookDetailView { times_read: n, first_read, last_read, timeline }
}

/// The reading timeline numbers a book's reads from its number of reads down
/// to 1, and marks exactly one entry as the first read: the one numbered 1.
pub proof fn law_timeline_counts_down(read_count: int, i: int, j: int)
    requires
        0 <= i < read_count,
        0 <= j < read_count,
    ensures
        1 <= read_count - i <= read_count,
        i != j ==> read_count - i != read_count - j,
        spec_marker(i, read_count) is FirstRead <==> read_count - i == 1,
        spec_marker(i, read_count) is FirstRead && spec_marker(j, read_count) is FirstRead ==> i == j,
{
}

/// The goal status is drawn by how many books a month are still needed:
/// under 15 is "On track! 🎉" in green, under 25 "Keep it up! 📚" in yellow,
/// 25 or more "Time to read more! 🏃" in red; once kindergarten has started,
/// "Goal reached! 🏆" in green with 1,000 books, else "Goal period ended" in
/// red, neither with a rate.
pub proof fn law_status_drawing(days_left: int, unique_books: int, below_15: bool, below_25: bool)
    ensures
        days_left != 0 && below_15 ==> spec_status_style(spec_goal_status(days_left, unique_books, below_15, below_25))
            == ("bg-accent-bg-green"@, "border-accent-green"@, "On track! 🎉"@, true),
        days_left != 0 && !below_15 && below_25 ==> spec_status_style(
            spec_goal_status(days_left, unique_books, below_15, below_25),
        ) == ("bg-accent-bg-yellow"@, "border-accent-yellow"@, "Keep it up! 📚"@, true),
        days_left != 0 && !below_15 && !below_25 ==> spec_status_style(
            spec_goal_status(days_left, unique_books, below_15, below_25),
        ) == ("bg-accent-bg-red"@, "border-accent-red"@, "Time to read more! 🏃"@, true),
        days_left == 0 && unique_books >= 1000 ==> spec_status_style(
            spec_goal_status(days_left, unique_books, below_15, below_25),
        ) == ("bg-accent-bg-green"@, "border-accent-green"@, "Goal reached! 🏆"@, false),
        days_left == 0 && unique_books < 1000 ==> spec_status_style(
            spec_goal_status(days_left, unique_books, below_15, below_25),
        ) == ("bg-accent-bg-red"@, "border-accent-red"@, "Goal period ended"@, false),
{
}

/// In a timeline of `n` reads, newest first, only the newest entry is marked
/// most recent, and only when there are at least two reads; only the oldest
/// is marked as the first read; every other entry is unmarked.
pub proof fn law_timeline_markers(i: int, n: int)
    requires
        0 <= i < n,
    ensures
        spec_marker(i, n) is MostRecent <==> (i == 0 && n >= 2),
        spec_marker(i, n) is FirstRead <==> i == n - 1,
        spec_marker(i, n) is Plain <==> (0 < i && i < n - 1),
{
}

} // verus!
