//! The 1,000-books goal: percentages, milestones and the checkbox grids.
use vstd::prelude::*;

verus! {

/// Integer division rounding toward zero, as Rust's `/` does.
pub open spec fn div_toward_zero(n: int, d: int) -> int {
    if n >= 0 { n / d } else { -((-n) / d) }
}

/// The smaller of two integers.
pub open spec fn min(x: int, y: int) -> int {
    if x <= y { x } else { y }
}

/// The larger of two integers.
pub open spec fn max(x: int, y: int) -> int {
    if x >= y { x } else { y }
}

/// `count` clamped to `lo..=hi`.
pub open spec fn clamp(count: int, lo: int, hi: int) -> int {
    max(lo, min(count, hi))
}

/// The whole percentage of the goal that `count` books make, capped at 100.
pub open spec fn percent_of_goal(count: int) -> int {
    min(div_toward_zero(count * 100, 1000), 100)
}

/// How far `count` is along the goal, in whole percent, never above 100.
pub fn goal_percent(count: i64) -> (p: i64)
    requires
        i64::MIN <= count * 100 <= i64::MAX,
    ensures
        p == percent_of_goal(count as int),
{
    let p = (count * 100) / 1000;
    if p < 100 { p } else { 100 }
}

/// How many more books the goal needs; 0 once it is met.
pub fn books_remaining(count: i64) -> (r: i64)
    requires
        1000 - count <= i64::MAX,
    ensures
        r == max(1000 - count, 0),
{
    let r = 1000 - count;
    if r > 0 { r } else { 0 }
}

/// Reads beyond the first read of each book; never negative.
pub fn total_rereads(total_reads: i64, unique_books: i64) -> (r: i64)
    requires
        i64::MIN <= total_reads - unique_books <= i64::MAX,
    ensures
        r == max(total_reads - unique_books, 0),
{
    let r = total_reads - unique_books;
    if r > 0 { r } else { 0 }
}

/// The goal's percentage stays within 0 to 100, reaches 100 exactly when the
/// goal is met, and never drops as more books are read.
pub proof fn law_percent_of_goal(count: int, more: int)
    requires
        0 <= count <= more,
    ensures
        0 <= percent_of_goal(count) <= 100,
        percent_of_goal(count) == 100 <==> count >= 1000,
        percent_of_goal(count) <= percent_of_goal(more),
{
    assert(0 <= count * 100 <= more * 100) by (nonlinear_arith)
        requires 0 <= count <= more;
    assert((count * 100) / 1000 <= (more * 100) / 1000) by (nonlinear_arith)
        requires 0 <= count * 100 <= more * 100;
    assert(count >= 1000 ==> (count * 100) / 1000 >= 100) by (nonlinear_arith)
        requires count >= 0;
    assert(count < 1000 ==> (count * 100) / 1000 < 100) by (nonlinear_arith)
        requires count >= 0;
}

/// The reading milestones, in increasing order.
pub open spec fn milestone_threshold(i: int) -> int {
    if i == 0 { 100 }
    else if i == 1 { 250 }
    else if i == 2 { 500 }
    else if i == 3 { 750 }
    else { 1000 }
}

/// The emoji of milestone `i`.
pub open spec fn milestone_emoji(i: int) -> Seq<char> {
    if i == 0 { "🌟"@ }
    else if i == 1 { "🔥"@ }
    else if i == 2 { "🚀"@ }
    else if i == 3 { "💎"@ }
    else { "🏆"@ }
}

/// The color of milestone `i` on the progress page.
pub open spec fn milestone_color(i: int) -> Seq<char> {
    if i == 0 { "red"@ }
    else if i == 1 { "orange"@ }
    else if i == 2 { "yellow"@ }
    else if i == 3 { "blue"@ }
    else { "purple"@ }
}

/// The number of milestones that `count` books have reached.
pub open spec fn milestones_reached_by(count: int) -> int
{
    if count >= 1000 { 5 }
    else if count >= 750 { 4 }
    else if count >= 500 { 3 }
    else if count >= 250 { 2 }
    else if count >= 100 { 1 }
    else { 0 }
}

/// One milestone badge.
pub struct Milestone {
    pub threshold: i64,
    pub emoji: &'static str,
    pub color: &'static str,
    pub earned: bool,
}

/// The five milestone badges for `count` books, each earned once `count`
/// reaches its threshold.
pub fn milestones(count: i64) -> (ms: Vec<Milestone>)
    ensures
        ms@.len() == 5,
        forall|i: int| 0 <= i < 5 ==> {
            &&& (#[trigger] ms@[i]).threshold == milestone_threshold(i)
            &&& ms@[i].emoji@ == milestone_emoji(i)
            &&& ms@[i].color@ == milestone_color(i)
            &&& ms@[i].earned == (count >= milestone_threshold(i))
        },
        ms@[0].threshold == 100,
        ms@[1].threshold == 250,
        ms@[2].threshold == 500,
        ms@[3].threshold == 750,
        ms@[4].threshold == 1000,
{
    let mut ms: Vec<Milestone> = Vec::new();
    ms.push(Milestone { threshold: 100, emoji: "🌟", color: "red", earned: count >= 100 });
    ms.push(Milestone { threshold: 250, emoji: "🔥", color: "orange", earned: count >= 250 });
    ms.push(Milestone { threshold: 500, emoji: "🚀", color: "yellow", earned: count >= 500 });
    ms.push(Milestone { threshold: 750, emoji: "💎", color: "blue", earned: count >= 750 });
    ms.push(Milestone { threshold: 1000, emoji: "🏆", color: "purple", earned: count >= 1000 });
    ms
}

/// How many of the five milestones `count` books have reached.
pub fn milestones_reached(count: i64) -> (n: usize)
    ensures
        n == milestones_reached_by(count as int),
        n == Set::new(|i: int| 0 <= i < 5 && count >= milestone_threshold(i)).len(),
        n == (if count >= 100 { 1int } else { 0 }) + (if count >= 250 { 1int } else { 0 })
            + (if count >= 500 { 1int } else { 0 }) + (if count >= 750 { 1int } else { 0 })
            + (if count >= 1000 { 1int } else { 0 }),
{
    let ms = milestones(count);
    let mut n: usize = 0;
    let mut i: usize = 0;
    assert(Set::new(|k: int| 0 <= k < 0 && count >= milestone_threshold(k)) == Set::<int>::empty());
    while i < ms.len()
        invariant
            ms@.len() == 5,
            forall|k: int| 0 <= k < 5 ==> (#[trigger] ms@[k]).threshold == milestone_threshold(k)
                && ms@[k].earned == (count >= milestone_threshold(k)),
            i <= 5,
            n == Set::new(|k: int| 0 <= k < i && count >= milestone_threshold(k)).len(),
            n <= i,
        decreases 5 - i,
    {
        proof {
            let before = Set::new(|k: int| 0 <= k < i && count >= milestone_threshold(k));
            let after = Set::new(|k: int| 0 <= k < i + 1 && count >= milestone_threshold(k));
            lemma_prefix_set_finite(count, i as int);
            if count >= milestone_threshold(i as int) {
                assert(after == before.insert(i as int));
                assert(!before.contains(i as int));
            } else {
                assert(after == before);
            }
        }
        if ms[i].earned {
            n += 1;
        }
        i += 1;
    }
    proof {
        let s = Set::new(|k: int| 0 <= k < 5 && count >= milestone_threshold(k));
        assert(s == Set::new(|k: int| 0 <= k < i && count >= milestone_threshold(k)));
        lemma_reached_count(count);
    }
    n
}

proof fn lemma_prefix_set_finite(count: i64, i: int)
    requires
        0 <= i,
    ensures
        Set::new(|k: int| 0 <= k < i && count >= milestone_threshold(k)).finite(),
{
    let s = Set::new(|k: int| 0 <= k < i && count >= milestone_threshold(k));
    let r = vstd::set_lib::set_int_range(0, i);
    assert(s.subset_of(r));
    vstd::set_lib::lemma_int_range(0, i);
    vstd::set_lib::lemma_len_subset(s, r);
}

proof fn lemma_reached_count(count: i64)
    ensures
        Set::new(|k: int| 0 <= k < 5 && count >= milestone_threshold(k)).len() == milestones_reached_by(count as int),
{
    let s = Set::new(|k: int| 0 <= k < 5 && count >= milestone_threshold(k));
    let m = milestones_reached_by(count as int);
    assert(s == vstd::set_lib::set_int_range(0, m));
    vstd::set_lib::lemma_int_range(0, m);
}

/// The milestones are 100, 250, 500, 750 and 1000 books, in that order, and
/// a count reaches one for each of these numbers it is at least: from 750 to
/// 999 books, exactly four.
pub proof fn law_milestone_thresholds(count: int)
    ensures
        milestone_threshold(0) == 100,
        milestone_threshold(1) == 250,
        milestone_threshold(2) == 500,
        milestone_threshold(3) == 750,
        milestone_threshold(4) == 1000,
        milestones_reached_by(count) == (if count >= 100 { 1int } else { 0 }) + (if count >= 250 { 1int } else { 0 })
            + (if count >= 500 { 1int } else { 0 }) + (if count >= 750 { 1int } else { 0 })
            + (if count >= 1000 { 1int } else { 0 }),
        750 <= count < 1000 ==> milestones_reached_by(count) == 4,
{
}

/// Reading more books never loses a milestone.
pub proof fn law_milestones_monotone(count: int, more: int)
    requires
        count <= more,
    ensures
        milestones_reached_by(count) <= milestones_reached_by(more),
        0 <= milestones_reached_by(count) <= 5,
{
}

/// The accent color that item `i` of a list takes, cycling through eight.
pub open spec fn accent_color(i: int) -> Seq<char> {
    let k = i % 8;
    if k == 0 { "red"@ }
    else if k == 1 { "orange"@ }
    else if k == 2 { "yellow"@ }
    else if k == 3 { "green"@ }
    else if k == 4 { "blue"@ }
    else if k == 5 { "purple"@ }
    else if k == 6 { "pink"@ }
    else { "teal"@ }
}

/// The accent color of item `i` of a list.
pub fn accent(i: usize) -> (c: &'static str)
    ensures
        c@ == accent_color(i as int),
{
    match i % 8 {
        0 => "red",
        1 => "orange",
        2 => "yellow",
        3 => "green",
        4 => "blue",
        5 => "purple",
        6 => "pink",
        _ => "teal",
    }
}

/// One block of 100 checkboxes on the progress page.
pub struct CheckboxGrid {
    /// Books before this block: 100 times its index.
    pub start: i64,
    /// How many of its 100 boxes are checked.
    pub filled: i64,
    /// Whether all 100 boxes are checked.
    pub complete: bool,
    /// The block's accent color.
    pub color: &'static str,
    /// Whether each box, in order, is checked.
    pub cells: Vec<bool>,
}

/// The checked boxes of block `block` for `count` books.
pub open spec fn block_fill(block: int, count: int) -> int {
    min(max(count - block * 100, 0), 100)
}

/// Block `block` of the checkbox grids for `count` books: its boxes are checked
/// for the books numbered `100 * block + 1` onwards, at most 100.
pub fn checkbox_grid(block: usize, count: i64) -> (g: CheckboxGrid)
    requires
        block * 100 <= usize::MAX,
        block * 100 + 100 <= i64::MAX,
        count - block * 100 >= i64::MIN,
    ensures
        g.start == block * 100,
        g.filled == block_fill(block as int, count as int),
        g.complete == (g.filled >= 100),
        g.color@ == accent_color(block as int),
        g.cells@.len() == 100,
        forall|i: int| 0 <= i < 100 ==> (#[trigger] g.cells@[i]) == (i < g.filled),
{
    let start = (block * 100) as i64;
    let over = count - start;
    let positive = if over > 0 { over } else { 0 };
    let filled = if positive < 100 { positive } else { 100 };
    let mut cells: Vec<bool> = Vec::new();
    let mut i: i64 = 0;
    while i < 100
        invariant
            0 <= i <= 100,
            cells@.len() == i,
            forall|k: int| 0 <= k < i ==> (#[trigger] cells@[k]) == (k < filled),
        decreases 100 - i,
    {
        cells.push(i < filled);
        i += 1;
    }
    CheckboxGrid { start, filled, complete: filled >= 100, color: accent(block), cells }
}

/// The sum of the checked boxes of the first `n` blocks.
pub open spec fn filled_in_blocks(n: int, count: int) -> int
    decreases n,
{
    if n <= 0 { 0 } else { filled_in_blocks(n - 1, count) + block_fill(n - 1, count) }
}

proof fn lemma_filled_prefix(n: int, count: int)
    requires
        n >= 0,
    ensures
        filled_in_blocks(n, count) == clamp(count, 0, 100 * n),
    decreases n,
{
    if n > 0 {
        lemma_filled_prefix(n - 1, count);
    }
}

/// The ten grids together check one box per book, up to the goal: their
/// checked boxes add up to the book count, clamped to 0..=1000.
pub proof fn law_grids_count_books(count: int)
    ensures
        filled_in_blocks(10, count) == clamp(count, 0, 1000),
{
    lemma_filled_prefix(10, count);
}

} // verus!
