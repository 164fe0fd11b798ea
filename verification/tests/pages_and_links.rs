use bookworm::layout::{nav_header, page_title, rainbow_title, tailwind_config};
use bookworm::links::{book_path, library_href, read_again_path};
use bookworm::pages::{
    book_detail_view, goal_status, library_view, library_window, log_form_view, progress_view, shows_author,
    stats_view, status_style, GoalStatus, ListedBook, ReadMarker,
};
use chrono::Datelike;

fn today(y: i32, m: u32, d: u32) -> i32 {
    chrono::NaiveDate::from_ymd_opt(y, m, d).unwrap().num_days_from_ce()
}

fn books(n: usize) -> Vec<ListedBook> {
    (0..n).map(|i| ListedBook { read_count: 1, author: format!("Author {i}"), last_read_day: today(2025, 2, 1) }).collect()
}

#[test]
fn layout_uses_warm_cream_background() {
    assert!(tailwind_config().contains("FFF6EC"));
}

#[test]
fn layout_loads_baloo2_and_nunito_fonts() {
    let config = tailwind_config();
    assert!(config.contains("Baloo 2"));
    assert!(config.contains("Nunito"));
}

#[test]
fn pages_include_bookworm_in_title() {
    assert_eq!(page_title("Stats"), "Stats | Bookworm");
}

#[test]
fn rainbow_title_spells_bookworm() {
    let letters = rainbow_title();
    let word: String = letters.iter().map(|(c, _)| *c).collect();
    assert_eq!(word, "Bookworm");
    assert_eq!(letters[0].1, "#FF6B6B");
    assert_eq!(letters[7].1, "#40D0C8");
}

#[test]
fn pages_include_library_tab_link() {
    let h = nav_header("add", 0, 0);
    assert!(h.tabs.iter().any(|t| t.href == "/library"));
}

#[test]
fn pages_include_progress_tab_link() {
    let h = nav_header("add", 0, 0);
    assert!(h.tabs.iter().any(|t| t.href == "/progress"));
}

#[test]
fn nav_header_marks_only_the_active_tab() {
    let h = nav_header("library", 12, 7);
    let active: Vec<&str> = h.tabs.iter().filter(|t| t.active).map(|t| t.name).collect();
    assert_eq!(active, vec!["library"]);
    assert_eq!(h.tabs[1].color, "blue");
    assert_eq!(h.total_reads, 12);
    assert_eq!(h.books_to_go, 993);
    assert!(!h.goal_reached);
    assert!(nav_header("nowhere", 0, 0).tabs.iter().all(|t| !t.active));
}

#[test]
fn nav_header_goal_reached_at_one_thousand() {
    let h = nav_header("stats", 1500, 1000);
    assert!(h.goal_reached);
    assert_eq!(h.books_to_go, 0);
    assert_eq!(h.percent, 100);
}

#[test]
fn book_links_use_hyphenated_ids() {
    let id = 0x0123456789abcdef0011223344556677u128;
    assert_eq!(book_path(id), "/books/01234567-89ab-cdef-0011-223344556677");
    assert_eq!(read_again_path(id), "/books/01234567-89ab-cdef-0011-223344556677/read-again");
    assert_eq!(book_path(0), "/books/00000000-0000-0000-0000-000000000000");
}

#[test]
fn library_links_encode_the_search() {
    assert_eq!(library_href(2, None), "/library?page=2");
    assert_eq!(library_href(0, Some("Goodnight Moon")), "/library?page=0&q=Goodnight%20Moon");
    assert_eq!(library_href(1, Some("é&a-b_c.d~")), "/library?page=1&q=%C3%A9%26a-b_c.d~");
}

#[test]
fn history_page_zero_has_no_previous_link() {
    let v = library_view(0, None, false, false, &books(3));
    assert!(v.previous.is_none());
}

#[test]
fn history_paginates_at_50_items() {
    let first = library_view(0, None, false, false, &books(50));
    assert_eq!(first.rows.len(), 50);
    assert_eq!(first.next.as_deref(), Some("/library?page=1"));
    let second = library_view(1, None, false, false, &books(10));
    assert_eq!(second.rows.len(), 10);
    assert_eq!(second.previous.as_deref(), Some("/library?page=0"));
    assert!(second.next.is_none());
    assert_eq!(second.rows[0].number, 51);
}

#[test]
fn library_window_defaults_to_first_page() {
    assert_eq!(library_window(None), (0, 0));
    assert_eq!(library_window(Some(3)), (3, 150));
}

#[test]
fn library_contains_search_input() {
    let v = library_view(0, Some("Alpha"), false, false, &books(1));
    assert_eq!(v.search_text, "Alpha");
    assert_eq!(library_view(0, None, false, false, &books(1)).search_text, "");
}

#[test]
fn library_shows_reread_badge_for_multiple_reads() {
    let list = vec![
        ListedBook { read_count: 2, author: "Badge Author".to_string(), last_read_day: today(2025, 3, 9) },
        ListedBook { read_count: 1, author: String::new(), last_read_day: today(10000, 1, 2) },
    ];
    let v = library_view(0, None, true, false, &list);
    assert!(v.rows[0].show_read_count);
    assert!(!v.rows[1].show_read_count);
    assert!(v.rows[0].show_author);
    assert!(!v.rows[1].show_author);
    assert!(v.show_reread_notice && !v.show_deleted_notice);
    assert_eq!(v.rows[1].color, "orange");
    assert_eq!(v.rows[0].last_read, "2025-03-09");
    assert_eq!(v.rows[1].last_read, "+10000-01-02");
}

#[test]
fn log_read_shows_success_message_after_redirect() {
    let v = log_form_view(Some("true"), 4, &vec![]);
    assert!(v.show_notice);
    assert_eq!(v.next_read_number, 5);
    assert!(!log_form_view(Some("yes"), 4, &vec![]).show_notice);
    assert!(!log_form_view(None, 4, &vec![]).show_notice);
}

#[test]
fn log_form_styles_recent_books() {
    let v = log_form_view(None, 0, &vec!["Margaret Wise Brown".to_string(), String::new()]);
    assert_eq!(v.recent.len(), 2);
    assert_eq!(v.recent[0].color, "red");
    assert!(v.recent[0].show_author);
    assert!(!v.recent[1].show_author);
    assert!(!shows_author(""));
}

#[test]
fn progress_shows_percentage() {
    let v = progress_view(None, 40, 25, today(2026, 1, 1));
    assert_eq!(v.count, 25);
    assert_eq!(v.percent, 2);
    assert_eq!(v.count_label, "unique books");
    assert_eq!(v.rate_noun, "Books");
    assert_eq!(v.remaining, 975);
}

#[test]
fn progress_counts_reads_in_reads_mode() {
    let v = progress_view(Some("reads"), 400, 25, today(2026, 1, 1));
    assert!(v.counts_reads);
    assert_eq!(v.count, 400);
    assert_eq!(v.count_label, "total reads");
    assert_eq!(v.rate_noun, "Reads");
    assert_eq!(v.grids.len(), 10);
    assert!(v.grids[3].complete);
    assert_eq!(v.grids[4].filled, 0);
    assert!(v.milestones[1].earned && !v.milestones[2].earned);
}

#[test]
fn progress_shows_kindergarten_countdown() {
    let v = progress_view(None, 0, 0, today(2030, 8, 31));
    assert_eq!(v.countdown.days_left, 1);
    assert_eq!(v.countdown.total_days, 2052);
}

#[test]
fn stats_shows_zero_counts_on_empty_db() {
    let v = stats_view(0, 0, today(2026, 1, 1));
    assert_eq!(v.total_rereads, 0);
    assert_eq!(v.milestones_reached, 0);
    assert_eq!(v.books_remaining, 1000);
}

#[test]
fn stats_shows_rereads_and_milestones() {
    let v = stats_view(3, 2, today(2031, 1, 1));
    assert_eq!(v.total_rereads, 1);
    assert_eq!(v.days_left, 0);
    let v = stats_view(600, 510, today(2026, 1, 1));
    assert_eq!(v.milestones_reached, 3);
    assert_eq!(v.total_rereads, 90);
}

#[test]
fn goal_status_follows_the_deadline_and_rate() {
    assert_eq!(goal_status(0, 1000, false, false), GoalStatus::GoalReached);
    assert_eq!(goal_status(0, 999, true, true), GoalStatus::PeriodEnded);
    assert_eq!(goal_status(10, 10, true, true), GoalStatus::OnTrack);
    assert_eq!(goal_status(10, 10, false, true), GoalStatus::KeepItUp);
    assert_eq!(goal_status(10, 10, false, false), GoalStatus::ReadMore);
    let s = status_style(&GoalStatus::KeepItUp);
    assert_eq!(s.background, "bg-accent-bg-yellow");
    assert_eq!(s.border, "border-accent-yellow");
    assert!(s.shows_rate);
    assert_eq!(status_style(&GoalStatus::GoalReached).heading, "Goal reached! 🏆");
    assert!(!status_style(&GoalStatus::PeriodEnded).shows_rate);
}

#[test]
fn book_detail_timeline_counts_down() {
    let days = vec![today(2025, 3, 5), today(2025, 2, 14), today(2025, 1, 18)];
    let v = book_detail_view(&days);
    assert_eq!(v.times_read, 3);
    assert_eq!(v.first_read.as_deref(), Some("Jan 18, 2025"));
    assert_eq!(v.last_read.as_deref(), Some("Mar 5, 2025"));
    let numbers: Vec<usize> = v.timeline.iter().map(|e| e.number).collect();
    assert_eq!(numbers, vec![3, 2, 1]);
    let markers: Vec<ReadMarker> = v.timeline.iter().map(|e| e.marker).collect();
    assert_eq!(markers, vec![ReadMarker::MostRecent, ReadMarker::Plain, ReadMarker::FirstRead]);
    assert_eq!(v.timeline[0].date, "March 5, 2025");
    assert_eq!(v.timeline[2].date, "January 18, 2025");
}

#[test]
fn book_detail_single_read_is_first_read() {
    let v = book_detail_view(&vec![today(7, 12, 25)]);
    assert_eq!(v.timeline[0].marker, ReadMarker::FirstRead);
    assert_eq!(v.timeline[0].number, 1);
    assert_eq!(v.timeline[0].date, "December 25, 0007");
    let none = book_detail_view(&vec![]);
    assert!(none.timeline.is_empty());
    assert_eq!(none.first_read, None);
    assert_eq!(none.last_read, None);
}
