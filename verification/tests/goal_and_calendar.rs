use chrono::Datelike;
use bookworm::calendar::countdown;
use bookworm::goal::{books_remaining, checkbox_grid, goal_percent, milestones, milestones_reached, total_rereads};

fn day(y: i32, m: u32, d: u32) -> i32 {
    chrono::NaiveDate::from_ymd_opt(y, m, d).unwrap().num_days_from_ce()
}

#[test]
fn stats_progress_bar_caps_at_100_percent() {
    assert_eq!(goal_percent(1000), 100);
    assert_eq!(goal_percent(1500), 100);
}

#[test]
fn goal_percent_rounds_down() {
    assert_eq!(goal_percent(0), 0);
    assert_eq!(goal_percent(9), 0);
    assert_eq!(goal_percent(10), 1);
    assert_eq!(goal_percent(999), 99);
    assert_eq!(goal_percent(-15), -1);
}

#[test]
fn books_remaining_stops_at_zero() {
    assert_eq!(books_remaining(0), 1000);
    assert_eq!(books_remaining(250), 750);
    assert_eq!(books_remaining(1200), 0);
}

#[test]
fn total_rereads_never_negative() {
    assert_eq!(total_rereads(3, 2), 1);
    assert_eq!(total_rereads(2, 5), 0);
}

#[test]
fn milestones_count_thresholds_reached() {
    assert_eq!(milestones_reached(0), 0);
    assert_eq!(milestones_reached(99), 0);
    assert_eq!(milestones_reached(100), 1);
    assert_eq!(milestones_reached(749), 3);
    assert_eq!(milestones_reached(1000), 5);
    let ms = milestones(300);
    let earned: Vec<bool> = ms.iter().map(|m| m.earned).collect();
    assert_eq!(earned, vec![true, true, false, false, false]);
    assert_eq!(ms[4].threshold, 1000);
    assert_eq!(ms[4].emoji, "🏆");
    assert_eq!(ms[0].color, "red");
}

#[test]
fn progress_shows_checkbox_grids() {
    let first = checkbox_grid(0, 0);
    let last = checkbox_grid(9, 0);
    assert_eq!(format!("{}-{}", first.start + 1, first.start + 100), "1-100");
    assert_eq!(format!("{}-{}", last.start + 1, last.start + 100), "901-1000");
}

#[test]
fn checkbox_grid_fills_one_box_per_book() {
    let g = checkbox_grid(1, 150);
    assert_eq!(g.filled, 50);
    assert!(!g.complete);
    assert_eq!(g.color, "orange");
    assert_eq!(g.cells.iter().filter(|c| **c).count(), 50);
    assert!(g.cells[49] && !g.cells[50]);
    let full = checkbox_grid(0, 150);
    assert_eq!(full.filled, 100);
    assert!(full.complete);
    assert_eq!(checkbox_grid(3, 150).filled, 0);
}

#[test]
fn checkbox_grids_sum_to_clamped_count() {
    for count in [0i64, 1, 99, 100, 555, 1000, 1234, -7] {
        let total: i64 = (0..10).map(|b| checkbox_grid(b, count).filled).sum();
        assert_eq!(total, count.clamp(0, 1000), "count {count}");
    }
}

#[test]
fn countdown_on_the_birthday() {
    let c = countdown(day(2025, 1, 18));
    assert_eq!(c.total_days, 2052);
    assert_eq!(c.days_left, 2052);
    assert_eq!(c.days_elapsed, 0);
}

#[test]
fn countdown_midway_splits_the_span() {
    let c = countdown(day(2026, 3, 1));
    assert_eq!(c.days_elapsed, 407);
    assert_eq!(c.days_left + c.days_elapsed, c.total_days);
}

#[test]
fn countdown_after_kindergarten_starts() {
    let c = countdown(day(2031, 1, 1));
    assert_eq!(c.days_left, 0);
    assert_eq!(c.days_elapsed, day(2031, 1, 1) as i64 - day(2025, 1, 18) as i64);
    let before = countdown(day(2024, 12, 31));
    assert_eq!(before.days_elapsed, 0);
    assert_eq!(before.days_left, 2052 + 18);
}
