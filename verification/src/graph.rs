//! The activity graph and its rendering.
//!
//! A graph covers a number of weeks that ends with the week of its last day.
//! Each week is a column of the surface, earliest first, and each day a row
//! of its column, the first weekday on top. Days after the last day are not
//! drawn: their cells, like all cells outside the graph, keep what they
//! showed before.

use crate::calendar::{days_into_week, offset_in_week, week_start, weekday_on, Date, Weekday};
use crate::intensity::{
    block_symbol, dataset_max, glyph, intensity_level, intensity_on, lemma_highest_is_greatest,
    lemma_intensity_is_first_match, lemma_level_bounds, level_of, max_intensity,
    observed_intensity, ActivityCellData,
};
use crate::surface::{buffer_symbols, put_symbol, Area};
use ratatui::buffer::Buffer;
use vstd::prelude::*;

verus! {

/// A graph of activity: the observations, the last day shown, the weekday
/// that weeks begin on and the number of weeks shown.
pub struct ActivityGraph {
    data: Vec<ActivityCellData>,
    last_day: Date,
    first_weekday: Weekday,
    weeks: u16,
}

/// What a graph is made of, as mathematical values.
pub struct GraphView {
    pub data: Seq<ActivityCellData>,
    pub last_day: int,
    pub first_weekday: Weekday,
    pub weeks: int,
}

impl View for ActivityGraph {
    type V = GraphView;

    closed spec fn view(&self) -> GraphView {
        GraphView {
            data: self.data@,
            last_day: self.last_day@,
            first_weekday: self.first_weekday,
            weeks: self.weeks as int,
        }
    }
}

/// The day shown in the given row of the given column, where the first
/// column's week begins on the day `start`.
pub open spec fn day_at(start: int, column: int, row: int) -> int {
    start + 7 * column + row
}

/// The column in which a day is shown, where the first column's week begins
/// on the day `start`.
pub open spec fn column_of(start: int, day: int) -> int {
    (day - start) / 7
}

/// The row in which a day is shown, where the first column's week begins on
/// the day `start`.
pub open spec fn row_of(start: int, day: int) -> int {
    (day - start) % 7
}

impl GraphView {
    /// The day a whole number of weeks before the last day whose week is the
    /// first one shown.
    pub open spec fn anchor(self) -> int {
        self.last_day - 7 * (self.weeks - 1)
    }

    /// The weekday of the anchor day, `None` where the anchor lies outside
    /// the calendar.
    pub open spec fn anchor_weekday(self) -> Option<Weekday> {
        if i32::MIN <= self.anchor() <= i32::MAX {
            weekday_on(self.anchor())
        } else {
            None
        }
    }

    /// The first day of the first week shown, given the weekday of the
    /// anchor day.
    pub open spec fn first_week_start(self, anchor_weekday: Weekday) -> int {
        week_start(self.anchor(), anchor_weekday, self.first_weekday)
    }

    /// Whether a day is shown by a graph whose first week begins on `start`.
    pub open spec fn in_window(self, start: int, day: int) -> bool {
        start <= day <= self.last_day && day < start + 7 * self.weeks
    }

    /// Whether the graph, placed on `area`, draws the cell at `(x, y)`: the
    /// cell lies within the area and within the weeks by weekdays of the
    /// graph, and its day is not after the last day.
    pub open spec fn draws(self, start: int, area: Area, x: u16, y: u16) -> bool {
        let column = x - area.x;
        let row = y - area.y;
        &&& 0 <= column < area.width
        &&& column < self.weeks
        &&& 0 <= row < area.height
        &&& row < 7
        &&& day_at(start, column, row) <= self.last_day
    }

    /// The level of a day.
    pub open spec fn level_on(self, day: int) -> int {
        level_of(intensity_on(self.data, day), max_intensity(self.data))
    }

    /// The symbol that the graph, placed on `area`, draws at `(x, y)`.
    pub open spec fn symbol_at(self, start: int, area: Area, x: u16, y: u16) -> Seq<char> {
        glyph(self.level_on(day_at(start, x - area.x, y - area.y)))
    }

    /// The symbols of a surface after the graph was drawn onto `area`, where
    /// it showed `before`.
    pub open spec fn rendered(
        self,
        start: int,
        area: Area,
        before: Map<(u16, u16), Seq<char>>,
    ) -> Map<(u16, u16), Seq<char>> {
        Map::new(
            |p: (u16, u16)| before.dom().contains(p),
            |p: (u16, u16)|
                if self.draws(start, area, p.0, p.1) {
                    self.symbol_at(start, area, p.0, p.1)
                } else {
                    before[p]
                },
        )
    }

    /// The symbols of a surface while the graph is being drawn: the columns
    /// before `column` are done, and of `column` the rows before `row`.
    spec fn rendered_up_to(
        self,
        start: int,
        area: Area,
        before: Map<(u16, u16), Seq<char>>,
        column: int,
        row: int,
    ) -> Map<(u16, u16), Seq<char>> {
        Map::new(
            |p: (u16, u16)| before.dom().contains(p),
            |p: (u16, u16)|
                if self.draws(start, area, p.0, p.1) && (p.0 - area.x < column || (p.0 - area.x
                    == column && p.1 - area.y < row)) {
                    self.symbol_at(start, area, p.0, p.1)
                } else {
                    before[p]
                },
        )
    }
}

impl ActivityGraph {
    /// A graph of the given observations that ends on `last_day`, with weeks
    /// that begin on Sunday, fourteen of them.
    pub fn new(data: Vec<ActivityCellData>, last_day: Date) -> (graph: Self)
        ensures
            graph@ == (GraphView {
                data: data@,
                last_day: last_day@,
                first_weekday: Weekday::Sun,
                weeks: 14,
            }),
    {
        ActivityGraph { data, last_day, first_weekday: Weekday::Sun, weeks: 14 }
    }

    /// The same graph over another number of weeks.
    pub fn with_weeks(self, weeks: u16) -> (graph: Self)
        ensures
            graph@ == (GraphView { weeks: weeks as int, ..self@ }),
    {
        let mut graph = self;
        graph.weeks = weeks;
        graph
    }

    /// The same graph with weeks that begin on another weekday.
    pub fn with_first_weekday(self, first_weekday: Weekday) -> (graph: Self)
        ensures
            graph@ == (GraphView { first_weekday, ..self@ }),
    {
        let mut graph = self;
        graph.first_weekday = first_weekday;
        graph
    }
}

impl ActivityGraph {
    /// Draws the graph onto `area` of the surface, given the weekday on which
    /// the anchor day falls.
    ///
    /// Each cell that the graph draws shows the symbol of its day's level
    /// afterwards. Every other cell shows what it showed before, and no cell
    /// comes or goes.
    pub fn render_from(&self, anchor_weekday: Weekday, area: Area, buf: &mut Buffer)
        ensures
            buffer_symbols(*final(buf)) == self@.rendered(
                self@.first_week_start(anchor_weekday),
                area,
                buffer_symbols(*old(buf)),
            ),
    {
        let ghost graph = self@;
        let ghost before = buffer_symbols(*buf);
        let max: u16 = dataset_max(&self.data);
        let last: i64 = self.last_day.days_from_ce() as i64;
        let anchor: i64 = last - 7 * (self.weeks as i64 - 1);
        let start: i64 = anchor - offset_in_week(anchor_weekday, self.first_weekday) as i64;
        let columns: u16 = if area.width < self.weeks {
            area.width
        } else {
            self.weeks
        };
        let rows: u16 = if area.height < 7 {
            area.height
        } else {
            7
        };
        assert(buffer_symbols(*buf) =~= graph.rendered_up_to(start as int, area, before, 0, 0));
        let mut column: u16 = 0;
        while column < columns
            invariant
                graph == self@,
                max == max_intensity(graph.data),
                last == graph.last_day,
                start == graph.first_week_start(anchor_weekday),
                i32::MIN - 7 * 65536 <= start <= i32::MAX + 7,
                columns <= area.width,
                columns <= graph.weeks,
                columns == area.width || columns == graph.weeks,
                rows <= area.height,
                rows <= 7,
                rows == area.height || rows == 7,
                column <= columns,
                buffer_symbols(*buf) == graph.rendered_up_to(
                    start as int,
                    area,
                    before,
                    column as int,
                    0,
                ),
            decreases columns - column,
        {
            let x: u32 = area.x as u32 + column as u32;
            let mut row: u16 = 0;
            while row < rows
                invariant_except_break
                    row <= rows,
                invariant
                    graph == self@,
                    max == max_intensity(graph.data),
                    last == graph.last_day,
                    start == graph.first_week_start(anchor_weekday),
                    i32::MIN - 7 * 65536 <= start <= i32::MAX + 7,
                    rows <= area.height,
                    rows <= 7,
                    rows == area.height || rows == 7,
                    column < columns,
                    columns <= area.width,
                    columns <= graph.weeks,
                    x == area.x + column,
                    buffer_symbols(*buf) == graph.rendered_up_to(
                        start as int,
                        area,
                        before,
                        column as int,
                        row as int,
                    ),
                ensures
                    row <= rows,
                    row == rows || day_at(start as int, column as int, row as int)
                        > graph.last_day,
                decreases rows - row,
            {
                let day: i64 = start + 7 * (column as i64) + row as i64;
                if day > last {
                    break ;
                }
                let value: u16 = observed_intensity(&self.data, day);
                let level: u8 = intensity_level(value, max);
                let y: u32 = area.y as u32 + row as u32;
                if x <= u16::MAX as u32 && y <= u16::MAX as u32 {
                    put_symbol(buf, x as u16, y as u16, block_symbol(level));
                }
                assert(buffer_symbols(*buf) =~= graph.rendered_up_to(
                    start as int,
                    area,
                    before,
                    column as int,
                    row + 1,
                ));
                row = row + 1;
            }
            assert(buffer_symbols(*buf) =~= graph.rendered_up_to(
                start as int,
                area,
                before,
                column + 1,
                0,
            ));
            column = column + 1;
        }
        assert(buffer_symbols(*buf) =~= graph.rendered(start as int, area, before));
    }

    /// Draws the graph onto `area` of the surface.
    ///
    /// The weekday of the anchor day is asked of the calendar. Where the
    /// calendar does not reach that day, nothing is drawn.
    pub fn render(self, area: Area, buf: &mut Buffer)
        ensures
            buffer_symbols(*final(buf)) == match self@.anchor_weekday() {
                Some(weekday) => self@.rendered(
                    self@.first_week_start(weekday),
                    area,
                    buffer_symbols(*old(buf)),
                ),
                None => buffer_symbols(*old(buf)),
            },
    {
        let anchor: i64 = self.last_day.days_from_ce() as i64 - 7 * (self.weeks as i64 - 1);
        if anchor < i32::MIN as i64 || anchor > i32::MAX as i64 {
            return ;
        }
        match Date::from_days_from_ce(anchor as i32).weekday() {
            Some(weekday) => self.render_from(weekday, area, buf),
            None => {},
        }
    }
}

/// Each day has one cell: the day shown in the column and row of a day is
/// that day, and the column and row of the day shown in a cell are those of
/// the cell.
pub proof fn lemma_cell_of_day(start: int, day: int, column: int, row: int)
    ensures
        0 <= row_of(start, day) < 7,
        day_at(start, column_of(start, day), row_of(start, day)) == day,
        0 <= row < 7 ==> column_of(start, day_at(start, column, row)) == column && row_of(
            start,
            day_at(start, column, row),
        ) == row,
{
}

/// A cell that the graph draws shows a day of its window.
pub proof fn lemma_drawn_days_in_window(graph: GraphView, start: int, area: Area, x: u16, y: u16)
    requires
        graph.draws(start, area, x, y),
    ensures
        graph.in_window(start, day_at(start, x - area.x, y - area.y)),
{
}

/// Whatever weekday the weeks begin on, the window holds every day from the
/// anchor day to the last day.
pub proof fn lemma_window_holds_anchor_to_last(
    graph: GraphView,
    anchor_weekday: Weekday,
    day: int,
)
    requires
        graph.weeks >= 1,
        graph.anchor() <= day <= graph.last_day,
    ensures
        graph.in_window(graph.first_week_start(anchor_weekday), day),
{
}

/// Beginning the weeks on another weekday moves every day by the same number
/// of rows, around the seven rows of a column: by as many as the old first
/// weekday lies after the new one.
pub proof fn lemma_first_weekday_rotates_rows(
    graph: GraphView,
    anchor_weekday: Weekday,
    first_weekday: Weekday,
    day: int,
)
    ensures
        ({
            let other = GraphView { first_weekday, ..graph };
            row_of(other.first_week_start(anchor_weekday), day) == (row_of(
                graph.first_week_start(anchor_weekday),
                day,
            ) + days_into_week(graph.first_weekday, first_weekday)) % 7
        }),
{
    lemma_shift_of_rows(
        day - graph.anchor(),
        anchor_weekday.index(),
        graph.first_weekday.index(),
        first_weekday.index(),
    );
}

/// Rows count modulo seven: the row under the first weekday `to` is the row
/// under the first weekday `from`, moved by the days from `to` to `from`.
proof fn lemma_shift_of_rows(past_anchor: int, weekday: int, from: int, to: int)
    requires
        0 <= weekday < 7,
        0 <= from < 7,
        0 <= to < 7,
    ensures
        (past_anchor + (weekday - to + 7) % 7) % 7 == ((past_anchor + (weekday - from + 7) % 7) % 7
            + (from - to + 7) % 7) % 7,
{
    let a = (weekday - to + 7) % 7;
    let b = (weekday - from + 7) % 7;
    let c = (from - to + 7) % 7;
    assert(a == b + c || a == b + c - 7);
    let r = (past_anchor + b) % 7;
    let q = (past_anchor + b) / 7;
    assert(past_anchor + b == 7 * q + r);
    assert(past_anchor + a == 7 * q + (r + c) || past_anchor + a == 7 * (q - 1) + (r + c));
}

/// Drawing leaves a cell as it was where the cell's day is after the last
/// day, as it does for every cell that the graph does not draw; and the
/// surface has the same cells afterwards.
pub proof fn lemma_cutoff(
    graph: GraphView,
    start: int,
    area: Area,
    before: Map<(u16, u16), Seq<char>>,
    x: u16,
    y: u16,
)
    requires
        before.dom().contains((x, y)),
    ensures
        graph.rendered(start, area, before).dom() == before.dom(),
        day_at(start, x - area.x, y - area.y) > graph.last_day ==> !graph.draws(start, area, x, y),
        !graph.draws(start, area, x, y) ==> graph.rendered(start, area, before)[(x, y)]
            == before[(x, y)],
        graph.draws(start, area, x, y) ==> graph.rendered(start, area, before)[(x, y)]
            == graph.symbol_at(start, area, x, y),
{
    assert(graph.rendered(start, area, before).dom() =~= before.dom());
}

/// Drawing a graph a second time changes nothing.
pub proof fn lemma_render_idempotent(
    graph: GraphView,
    start: int,
    area: Area,
    before: Map<(u16, u16), Seq<char>>,
)
    ensures
        graph.rendered(start, area, graph.rendered(start, area, before)) == graph.rendered(
            start,
            area,
            before,
        ),
{
    assert(graph.rendered(start, area, graph.rendered(start, area, before)) =~= graph.rendered(
        start,
        area,
        before,
    ));
}

/// The level of a day lies between 0 and 4, and is 0 exactly for a day whose
/// intensity is zero.
pub proof fn lemma_level_on_bounds(graph: GraphView, day: int)
    ensures
        0 <= graph.level_on(day) <= 4,
        graph.level_on(day) == 0 <==> intensity_on(graph.data, day) == 0,
{
    lemma_intensity_is_first_match(graph.data, day);
    lemma_highest_is_greatest(graph.data);
    lemma_level_bounds(intensity_on(graph.data, day), max_intensity(graph.data));
}

/// The day of an observation that reaches the highest intensity has level 4,
/// where that intensity is positive and the observation is the first of its
/// day.
pub proof fn lemma_highest_has_level_four(graph: GraphView, i: int)
    requires
        0 <= i < graph.data.len(),
        graph.data[i].1 == max_intensity(graph.data),
        graph.data[i].1 > 0,
        forall|j: int| 0 <= j < i ==> (#[trigger] graph.data[j]).0@ != graph.data[i].0@,
    ensures
        graph.level_on(graph.data[i].0@) == 4,
{
    let day = graph.data[i].0@;
    lemma_intensity_is_first_match(graph.data, day);
    assert(intensity_on(graph.data, day) == graph.data[i].1);
    lemma_level_bounds(intensity_on(graph.data, day), max_intensity(graph.data));
}

/// The day of an observation of zero intensity has level 0, whatever the
/// highest intensity is, where the observation is the first of its day.
pub proof fn lemma_zero_has_level_zero(graph: GraphView, i: int)
    requires
        0 <= i < graph.data.len(),
        graph.data[i].1 == 0,
        forall|j: int| 0 <= j < i ==> (#[trigger] graph.data[j]).0@ != graph.data[i].0@,
    ensures
        graph.level_on(graph.data[i].0@) == 0,
{
    let day = graph.data[i].0@;
    lemma_intensity_is_first_match(graph.data, day);
    assert(intensity_on(graph.data, day) == graph.data[i].1);
}

} // verus!
