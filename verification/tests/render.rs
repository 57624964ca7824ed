use activity_graph::{ActivityCellData, ActivityGraph, Area, Date, Weekday};
use chrono::{Datelike, NaiveDate};
use ratatui::buffer::Buffer;
use ratatui::layout::Rect;

fn day(year: i32, month: u32, day: u32) -> Date {
    Date::from_days_from_ce(NaiveDate::from_ymd_opt(year, month, day).unwrap().num_days_from_ce())
}

fn data() -> Vec<ActivityCellData> {
    vec![
        (day(2024, 12, 28), 4),
        (day(2025, 1, 1), 1),
        (day(2025, 1, 2), 4),
        (day(2025, 1, 3), 2),
        (day(2025, 1, 4), 3),
        (day(2025, 1, 5), 12),
        (day(2025, 1, 6), 5),
        (day(2025, 1, 7), 4),
        (day(2025, 1, 9), 2),
        (day(2025, 1, 10), 18),
        (day(2025, 1, 11), 26),
        (day(2025, 1, 15), 24),
        (day(2025, 1, 16), 15),
        (day(2025, 1, 17), 6),
        (day(2025, 1, 19), 2),
    ]
}

fn area(x: u16, y: u16, width: u16, height: u16) -> Area {
    Area { x, y, width, height }
}

fn filled(width: u16, height: u16, symbol: &str) -> Buffer {
    let mut buf = Buffer::empty(Rect::new(0, 0, width, height));
    for y in 0..height {
        for x in 0..width {
            buf[(x, y)].set_symbol(symbol);
        }
    }
    buf
}

#[test]
fn test_render() {
    let activity_graph = ActivityGraph::new(data(), day(2025, 1, 19)).with_weeks(4);

    let mut buf = Buffer::empty(Rect::new(0, 0, 8, 8));
    activity_graph.render(area(0, 0, 8, 8), &mut buf);

    assert_eq!(
        buf,
        Buffer::with_lines(vec![
            " ░ ░    ",
            " ░      ",
            " ░      ",
            "░ ▓     ",
            "░░▒     ",
            "░▒░     ",
            "░█      ",
            "        ",
        ])
    );
}

#[test]
fn test_render_with_first_weekday() {
    let activity_graph = ActivityGraph::new(data(), day(2025, 1, 19))
        .with_weeks(4)
        .with_first_weekday(Weekday::Mon);

    let mut buf = Buffer::empty(Rect::new(0, 0, 8, 8));
    activity_graph.render(area(0, 0, 8, 8), &mut buf);

    assert_eq!(
        buf,
        Buffer::with_lines(vec![
            "  ░     ",
            "  ░     ",
            " ░ ▓    ",
            " ░░▒    ",
            " ░▒░    ",
            "░░█     ",
            " ░ ░    ",
            "        ",
        ])
    );
}

#[test]
fn render_named_cells_of_the_sunday_grid() {
    let mut buf = Buffer::empty(Rect::new(0, 0, 8, 8));
    ActivityGraph::new(data(), day(2025, 1, 19)).with_weeks(4).render(area(0, 0, 8, 8), &mut buf);
    // 2025-01-04, a Saturday of the first week: 3 of 26.
    assert_eq!(buf[(0, 6)].symbol(), "░");
    // 2025-01-10: 18 of 26.
    assert_eq!(buf[(1, 5)].symbol(), "▒");
    // 2025-01-11: the highest intensity.
    assert_eq!(buf[(1, 6)].symbol(), "█");
    // 2025-01-15: 24 of 26.
    assert_eq!(buf[(2, 3)].symbol(), "▓");
    // 2025-01-19, the last day, alone in its column.
    assert_eq!(buf[(3, 0)].symbol(), "░");
}

#[test]
fn render_from_takes_the_weekday_of_the_anchor() {
    // 2024-12-29, three weeks before the last day, is a Sunday.
    let mut by_calendar = Buffer::empty(Rect::new(0, 0, 8, 8));
    ActivityGraph::new(data(), day(2025, 1, 19))
        .with_weeks(4)
        .render(area(0, 0, 8, 8), &mut by_calendar);
    let mut given = Buffer::empty(Rect::new(0, 0, 8, 8));
    ActivityGraph::new(data(), day(2025, 1, 19)).with_weeks(4).render_from(
        Weekday::Sun,
        area(0, 0, 8, 8),
        &mut given,
    );
    assert_eq!(by_calendar, given);

    // Told that the anchor is a Monday, the graph begins a day earlier, on
    // Saturday 2024-12-28.
    let mut shifted = Buffer::empty(Rect::new(0, 0, 8, 8));
    ActivityGraph::new(data(), day(2025, 1, 19)).with_weeks(4).render_from(
        Weekday::Mon,
        area(0, 0, 8, 8),
        &mut shifted,
    );
    assert_eq!(
        shifted,
        Buffer::with_lines(vec![
            "░░█     ",
            " ░ ░    ",
            " ░      ",
            " ░      ",
            "░ ▓     ",
            "░░▒     ",
            "░▒░     ",
            "        ",
        ])
    );
}

#[test]
fn cells_after_the_last_day_keep_what_they_showed() {
    let mut buf = filled(8, 8, "x");
    ActivityGraph::new(data(), day(2025, 1, 19)).with_weeks(4).render(area(0, 0, 8, 8), &mut buf);
    assert_eq!(
        buf,
        Buffer::with_lines(vec![
            " ░ ░xxxx",
            " ░ xxxxx",
            " ░ xxxxx",
            "░ ▓xxxxx",
            "░░▒xxxxx",
            "░▒░xxxxx",
            "░█ xxxxx",
            "xxxxxxxx",
        ])
    );
}

#[test]
fn an_observation_after_the_last_day_is_not_drawn() {
    let mut observations = data();
    observations.push((day(2025, 1, 20), 26));
    let mut buf = filled(8, 8, "x");
    ActivityGraph::new(observations, day(2025, 1, 19))
        .with_weeks(4)
        .render(area(0, 0, 8, 8), &mut buf);
    assert_eq!(buf[(3, 0)].symbol(), "░");
    assert_eq!(buf[(3, 1)].symbol(), "x");
}

#[test]
fn rendering_twice_changes_nothing() {
    let mut once = filled(8, 8, "x");
    ActivityGraph::new(data(), day(2025, 1, 19)).with_weeks(4).render(area(0, 0, 8, 8), &mut once);
    let mut twice = once.clone();
    ActivityGraph::new(data(), day(2025, 1, 19)).with_weeks(4).render(area(0, 0, 8, 8), &mut twice);
    assert_eq!(once, twice);
}

#[test]
fn another_first_weekday_moves_each_day_by_the_same_rows() {
    let last = NaiveDate::from_ymd_opt(2025, 1, 19).unwrap();
    let mut sunday = filled(4, 7, "x");
    ActivityGraph::new(data(), day(2025, 1, 19)).with_weeks(4).render(area(0, 0, 4, 7), &mut sunday);
    let mut monday = filled(4, 7, "x");
    ActivityGraph::new(data(), day(2025, 1, 19))
        .with_weeks(4)
        .with_first_weekday(Weekday::Mon)
        .render(area(0, 0, 4, 7), &mut monday);
    // First days of the two graphs: Sunday 2024-12-29 and Monday 2024-12-23.
    let sunday_start = NaiveDate::from_ymd_opt(2024, 12, 29).unwrap();
    let monday_start = NaiveDate::from_ymd_opt(2024, 12, 23).unwrap();
    let mut date = sunday_start;
    while date <= last {
        let in_sunday = (date - sunday_start).num_days();
        let in_monday = (date - monday_start).num_days();
        // Sunday lies six days after Monday.
        assert_eq!(in_monday % 7, (in_sunday % 7 + 6) % 7);
        let a = sunday[((in_sunday / 7) as u16, (in_sunday % 7) as u16)].symbol().to_string();
        let b = monday[((in_monday / 7) as u16, (in_monday % 7) as u16)].symbol().to_string();
        assert_eq!(a, b);
        assert_ne!(a, "x");
        date = date.succ_opt().unwrap();
    }
}

#[test]
fn defaults_are_fourteen_weeks_from_sunday() {
    // 2025-01-18 is a Saturday, so every column is a whole week.
    let mut buf = filled(20, 8, "x");
    ActivityGraph::new(Vec::new(), day(2025, 1, 18)).render(area(0, 0, 20, 8), &mut buf);
    for y in 0..8 {
        for x in 0..20 {
            let expected = if x < 14 && y < 7 { " " } else { "x" };
            assert_eq!(buf[(x, y)].symbol(), expected);
        }
    }
    // On a Sunday only the first row of the last column is drawn.
    let mut buf = filled(20, 8, "x");
    ActivityGraph::new(Vec::new(), day(2025, 1, 19)).render(area(0, 0, 20, 8), &mut buf);
    assert_eq!(buf[(13, 0)].symbol(), " ");
    assert_eq!(buf[(13, 1)].symbol(), "x");
    assert_eq!(buf[(12, 6)].symbol(), " ");
    assert_eq!(buf[(14, 0)].symbol(), "x");
}

#[test]
fn no_weeks_draw_nothing() {
    let mut buf = filled(8, 8, "x");
    ActivityGraph::new(data(), day(2025, 1, 19)).with_weeks(0).render(area(0, 0, 8, 8), &mut buf);
    assert_eq!(buf, filled(8, 8, "x"));
}

#[test]
fn an_empty_area_draws_nothing() {
    let mut buf = filled(8, 8, "x");
    ActivityGraph::new(data(), day(2025, 1, 19)).with_weeks(4).render(area(0, 0, 0, 8), &mut buf);
    ActivityGraph::new(data(), day(2025, 1, 19)).with_weeks(4).render(area(0, 0, 8, 0), &mut buf);
    assert_eq!(buf, filled(8, 8, "x"));
}

#[test]
fn more_weeks_than_columns_shows_the_earliest() {
    let mut wide = Buffer::empty(Rect::new(0, 0, 8, 8));
    ActivityGraph::new(data(), day(2025, 1, 19)).with_weeks(4).render(area(0, 0, 8, 8), &mut wide);
    let mut narrow = filled(8, 8, "x");
    ActivityGraph::new(data(), day(2025, 1, 19)).with_weeks(4).render(area(0, 0, 2, 3), &mut narrow);
    for y in 0..8 {
        for x in 0..8 {
            if x < 2 && y < 3 {
                assert_eq!(narrow[(x, y)].symbol(), wide[(x, y)].symbol());
            } else {
                assert_eq!(narrow[(x, y)].symbol(), "x");
            }
        }
    }
}

#[test]
fn the_area_places_the_graph() {
    let mut buf = filled(10, 10, "x");
    ActivityGraph::new(data(), day(2025, 1, 19)).with_weeks(4).render(area(2, 1, 8, 8), &mut buf);
    assert_eq!(
        buf,
        Buffer::with_lines(vec![
            "xxxxxxxxxx",
            "xx ░ ░xxxx",
            "xx ░ xxxxx",
            "xx ░ xxxxx",
            "xx░ ▓xxxxx",
            "xx░░▒xxxxx",
            "xx░▒░xxxxx",
            "xx░█ xxxxx",
            "xxxxxxxxxx",
            "xxxxxxxxxx",
        ])
    );
}

#[test]
fn an_area_beyond_the_surface_is_cut_to_it() {
    let mut buf = filled(3, 5, "x");
    ActivityGraph::new(data(), day(2025, 1, 19)).with_weeks(4).render(area(1, 2, 8, 8), &mut buf);
    assert_eq!(buf, Buffer::with_lines(vec!["xxx", "xxx", "x ░", "x ░", "x ░"]));
    let mut far = filled(3, 5, "x");
    ActivityGraph::new(data(), day(2025, 1, 19))
        .with_weeks(4)
        .render(area(u16::MAX, u16::MAX, 8, 8), &mut far);
    assert_eq!(far, filled(3, 5, "x"));
}

#[test]
fn days_without_observations_are_blank() {
    let mut buf = filled(2, 7, "x");
    ActivityGraph::new(Vec::new(), day(2025, 1, 18)).with_weeks(2).render(area(0, 0, 2, 7), &mut buf);
    assert_eq!(buf, Buffer::empty(Rect::new(0, 0, 2, 7)));
}

#[test]
fn the_first_of_two_observations_of_a_day_counts() {
    let observations = vec![(day(2025, 1, 18), 1), (day(2025, 1, 18), 8), (day(2025, 1, 17), 8)];
    let mut buf = Buffer::empty(Rect::new(0, 0, 1, 7));
    ActivityGraph::new(observations, day(2025, 1, 18)).with_weeks(1).render(area(0, 0, 1, 7), &mut buf);
    assert_eq!(buf[(0, 5)].symbol(), "█");
    assert_eq!(buf[(0, 6)].symbol(), "░");
}

#[test]
fn levels_are_measured_against_the_whole_data_set() {
    // The highest intensity lies far outside the window.
    let observations = vec![(day(2020, 1, 1), 100), (day(2025, 1, 18), 50)];
    let mut buf = Buffer::empty(Rect::new(0, 0, 1, 7));
    ActivityGraph::new(observations, day(2025, 1, 18)).with_weeks(1).render(area(0, 0, 1, 7), &mut buf);
    assert_eq!(buf[(0, 6)].symbol(), "▒");
}

#[test]
fn a_data_set_of_zeros_is_blank() {
    let observations = vec![(day(2025, 1, 18), 0), (day(2025, 1, 17), 0)];
    let mut buf = filled(1, 7, "x");
    ActivityGraph::new(observations, day(2025, 1, 18)).with_weeks(1).render(area(0, 0, 1, 7), &mut buf);
    assert_eq!(buf, Buffer::empty(Rect::new(0, 0, 1, 7)));
}

#[test]
fn a_window_outside_the_calendar_is_not_drawn() {
    // The calendar begins with this day; the anchor lies a week before it.
    let first = NaiveDate::MIN.num_days_from_ce();
    let mut buf = filled(4, 7, "x");
    ActivityGraph::new(Vec::new(), Date::from_days_from_ce(first))
        .with_weeks(2)
        .render(area(0, 0, 4, 7), &mut buf);
    assert_eq!(buf, filled(4, 7, "x"));
    // With one week the anchor is the last day itself.
    ActivityGraph::new(Vec::new(), Date::from_days_from_ce(first))
        .with_weeks(1)
        .render(area(0, 0, 4, 7), &mut buf);
    assert_ne!(buf, filled(4, 7, "x"));
    // An anchor below every day number.
    let mut buf = filled(4, 7, "x");
    ActivityGraph::new(Vec::new(), Date::from_days_from_ce(i32::MIN))
        .with_weeks(2)
        .render(area(0, 0, 4, 7), &mut buf);
    assert_eq!(buf, filled(4, 7, "x"));
}
