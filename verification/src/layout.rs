//! The page frame: title, navigation header and brand title.
use vstd::prelude::*;
use crate::goal::{percent_of_goal, goal_percent, books_remaining, max};
use crate::text::{same_text, concat2, chars_of};

verus! {

/// The Tailwind theme that every page loads: the cream background, the
/// accent palette and the heading and body fonts.
pub const TAILWIND_CONFIG: &'static str = r#"<script>
    tailwind.config = {
      theme: {
        extend: {
          colors: {
            cream: '#FFF6EC',
            'card-border': '#FFE4C8',
            ink: '#3D2C1E',
            subtext: '#9B7B62',
            accent: {
              red: '#FF6B6B',
              orange: '#FFa040',
              yellow: '#FFD036',
              green: '#5CD08E',
              blue: '#50B4F0',
              purple: '#A882F0',
              pink: '#FF82B8',
              teal: '#40D0C8',
            },
            'accent-bg': {
              red: '#FFF0F0',
              orange: '#FFF4E8',
              yellow: '#FFFBE8',
              green: '#EEFFF4',
              blue: '#EEF6FF',
              purple: '#F4EEFF',
              pink: '#FFF0F6',
              teal: '#EEFFFE',
            },
          },
          fontFamily: {
            heading: ['"Baloo 2"', 'cursive'],
            body: ['Nunito', 'sans-serif'],
          },
        }
      }
    }
    </script>"#;

/// The Tailwind configuration script embedded in every page.
pub fn tailwind_config() -> (r: &'static str)
    ensures
        r@ == TAILWIND_CONFIG@,
{
    TAILWIND_CONFIG
}

/// The document title of a page: its own title, then " | Bookworm".
pub fn page_title(title: &str) -> (r: String)
    ensures
        r@ == title@ + " | Bookworm"@,
{
    concat2(title, " | Bookworm")
}

/// The brand name that the header spells in rainbow letters.
pub open spec fn brand() -> Seq<char> {
    "Bookworm"@
}

/// The rainbow color of the brand's letter `i`.
pub open spec fn rainbow_color(i: int) -> Seq<char> {
    let k = i % 8;
    if k == 0 { "#FF6B6B"@ }
    else if k == 1 { "#FFa040"@ }
    else if k == 2 { "#FFD036"@ }
    else if k == 3 { "#5CD08E"@ }
    else if k == 4 { "#50B4F0"@ }
    else if k == 5 { "#A882F0"@ }
    else if k == 6 { "#FF82B8"@ }
    else { "#40D0C8"@ }
}

fn rainbow(i: usize) -> (c: &'static str)
    ensures
        c@ == rainbow_color(i as int),
{
    match i % 8 {
        0 => "#FF6B6B",
        1 => "#FFa040",
        2 => "#FFD036",
        3 => "#5CD08E",
        4 => "#50B4F0",
        5 => "#A882F0",
        6 => "#FF82B8",
        _ => "#40D0C8",
    }
}

/// The letters of the brand name, each with its rainbow color.
pub fn rainbow_title() -> (letters: Vec<(char, &'static str)>)
    ensures
        letters@.len() == brand().len(),
        forall|i: int| 0 <= i < letters@.len() ==> {
            &&& (#[trigger] letters@[i]).0 == brand()[i]
            &&& letters@[i].1@ == rainbow_color(i)
        },
{
    let chars = chars_of("Bookworm");
    let mut letters: Vec<(char, &'static str)> = Vec::new();
    let mut i: usize = 0;
    while i < chars.len()
        invariant
            chars@ == brand(),
            i <= chars@.len(),
            letters@.len() == i,
            forall|k: int| 0 <= k < i ==> {
                &&& (#[trigger] letters@[k]).0 == brand()[k]
                &&& letters@[k].1@ == rainbow_color(k)
            },
        decreases chars@.len() - i,
    {
        letters.push((chars[i], rainbow(i)));
        i += 1;
    }
    letters
}

/// A tab of the navigation bar.
pub struct NavTab {
    pub name: &'static str,
    pub emoji: &'static str,
    pub label: &'static str,
    pub href: &'static str,
    pub color: &'static str,
    pub active: bool,
}

/// Tab `i` of the navigation bar: (name, emoji, label, link, color).
pub open spec fn tab_spec(i: int) -> (Seq<char>, Seq<char>, Seq<char>, Seq<char>, Seq<char>) {
    if i == 0 { ("add"@, "📚"@, "Add"@, "/log"@, "red"@) }
    else if i == 1 { ("library"@, "📋"@, "Library"@, "/library"@, "blue"@) }
    else if i == 2 { ("progress"@, "🎯"@, "Progress"@, "/progress"@, "green"@) }
    else { ("stats"@, "⭐"@, "Stats"@, "/stats"@, "yellow"@) }
}

/// The navigation header shown above every page.
pub struct NavHeader {
    pub total_reads: i64,
    /// Whether the goal of 1,000 unique books is met.
    pub goal_reached: bool,
    /// Unique books still to read; 0 once the goal is met.
    pub books_to_go: i64,
    /// Progress bar width in whole percent.
    pub percent: i64,
    pub tabs: Vec<NavTab>,
}

fn make_tab(
    name: &'static str,
    emoji: &'static str,
    label: &'static str,
    href: &'static str,
    color: &'static str,
    active_tab: &str,
) -> (t: NavTab)
    ensures
        t.name == name && t.emoji == emoji && t.label == label && t.href == href && t.color == color,
        t.active == (name@ == active_tab@),
{
    NavTab { name, emoji, label, href, color, active: same_text(name, active_tab) }
}

/// The header for a page whose tab is `active_tab`, given the reading counts.
pub fn nav_header(active_tab: &str, total_reads: i64, unique_books: i64) -> (h: NavHeader)
    requires
        i64::MIN <= unique_books * 100 <= i64::MAX,
        1000 - unique_books <= i64::MAX,
    ensures
        h.total_reads == total_reads,
        h.goal_reached == (unique_books >= 1000),
        h.books_to_go == max(1000 - unique_books, 0),
        h.percent == percent_of_goal(unique_books as int),
        h.tabs@.len() == 4,
        forall|i: int| 0 <= i < 4 ==> {
            &&& (#[trigger] h.tabs@[i]).name@ == tab_spec(i).0
            &&& h.tabs@[i].emoji@ == tab_spec(i).1
            &&& h.tabs@[i].label@ == tab_spec(i).2
            &&& h.tabs@[i].href@ == tab_spec(i).3
            &&& h.tabs@[i].color@ == tab_spec(i).4
            &&& h.tabs@[i].active == (tab_spec(i).0 == active_tab@)
        },
{
    let mut tabs: Vec<NavTab> = Vec::new();
    tabs.push(make_tab("add", "📚", "Add", "/log", "red", active_tab));
    tabs.push(make_tab("library", "📋", "Library", "/library", "blue", active_tab));
    tabs.push(make_tab("progress", "🎯", "Progress", "/progress", "green", active_tab));
    tabs.push(make_tab("stats", "⭐", "Stats", "/stats", "yellow", active_tab));
    NavHeader {
        total_reads,
        goal_reached: unique_books >= 1000,
        books_to_go: books_remaining(unique_books),
        percent: goal_percent(unique_books),
        tabs,
    }
}

} // verus!
