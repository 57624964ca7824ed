//! From raw intensities to the five levels of shading.
//!
//! Observations are scanned in order, so of several observations of one day
//! the first counts. Levels are relative to the highest intensity of the whole
//! data set: level 0 is kept for an intensity of zero, and the positive
//! intensities share the levels 1 to 4.

use crate::calendar::Date;
use vstd::prelude::*;

verus! {

/// One observation: a day and the intensity observed on it.
pub type ActivityCellData = (Date, u16);

/// The highest intensity among the observations, `0` if there are none.
pub open spec fn highest(data: Seq<ActivityCellData>) -> int
    decreases data.len(),
{
    if data.len() == 0 {
        0
    } else if data.last().1 >= highest(data.drop_last()) {
        data.last().1 as int
    } else {
        highest(data.drop_last())
    }
}

/// The intensity that the levels are measured against: the highest one
/// observed, or `1` where there are no observations.
pub open spec fn max_intensity(data: Seq<ActivityCellData>) -> int {
    if data.len() == 0 {
        1
    } else {
        highest(data)
    }
}

/// The intensity of a day: that of the first observation of the day, or `0`
/// where the day has none.
pub open spec fn intensity_on(data: Seq<ActivityCellData>, day: int) -> int
    decreases data.len(),
{
    if data.len() == 0 {
        0
    } else if data.first().0@ == day {
        data.first().1 as int
    } else {
        intensity_on(data.drop_first(), day)
    }
}

/// The level of an intensity `value` against the highest intensity `max`:
/// `0` for zero, and for a positive value four times its share of `max`,
/// rounded down, but at least `1`.
pub open spec fn level_of(value: int, max: int) -> int {
    if value == 0 {
        0
    } else if 4 * value / max < 1 {
        1
    } else {
        4 * value / max
    }
}

/// The symbol of a level: a blank for level 0, then the light, medium and
/// dark shade, and the full block for level 4.
pub open spec fn glyph(level: int) -> Seq<char> {
    if level == 0 {
        seq![' ']
    } else if level == 1 {
        seq!['\u{2591}']
    } else if level == 2 {
        seq!['\u{2592}']
    } else if level == 3 {
        seq!['\u{2593}']
    } else {
        seq!['\u{2588}']
    }
}

/// No observation exceeds `highest`, and a data set that is not empty holds
/// an observation that reaches it.
pub proof fn lemma_highest_is_greatest(data: Seq<ActivityCellData>)
    ensures
        forall|i: int| 0 <= i < data.len() ==> (#[trigger] data[i]).1 <= highest(data),
        data.len() > 0 ==> exists|i: int| 0 <= i < data.len() && (#[trigger] data[i]).1 == highest(
            data,
        ),
        0 <= highest(data) <= u16::MAX,
    decreases data.len(),
{
    if data.len() > 0 {
        let front = data.drop_last();
        lemma_highest_is_greatest(front);
        assert forall|i: int| 0 <= i < data.len() implies (#[trigger] data[i]).1 <= highest(
            data,
        ) by {
            if i < data.len() - 1 {
                assert(front[i] == data[i]);
            }
        }
        if data.last().1 >= highest(front) {
            assert(data[data.len() - 1].1 == highest(data));
        } else {
            let i = choose|i: int| 0 <= i < front.len() && (#[trigger] front[i]).1 == highest(front);
            assert(data[i] == front[i]);
        }
    }
}

/// The intensity of a day is that of the earliest observation of the day, and
/// `0` for a day without any.
pub proof fn lemma_intensity_is_first_match(data: Seq<ActivityCellData>, day: int)
    ensures
        (forall|i: int| 0 <= i < data.len() ==> (#[trigger] data[i]).0@ != day)
            ==> intensity_on(data, day) == 0,
        forall|i: int|
            0 <= i < data.len() && (#[trigger] data[i]).0@ == day && (forall|j: int|
                0 <= j < i ==> (#[trigger] data[j]).0@ != day) ==> intensity_on(data, day)
                == data[i].1,
        0 <= intensity_on(data, day) <= highest(data),
    decreases data.len(),
{
    lemma_highest_is_greatest(data);
    if data.len() > 0 {
        let rest = data.drop_first();
        lemma_intensity_is_first_match(rest, day);
        lemma_highest_is_greatest(rest);
        assert forall|i: int| 0 <= i < rest.len() implies (#[trigger] rest[i]) == data[i + 1] by {}
        if data.first().0@ == day {
            assert(data[0].1 <= highest(data));
            assert forall|i: int|
                0 <= i < data.len() && (#[trigger] data[i]).0@ == day && (forall|j: int|
                    0 <= j < i ==> (#[trigger] data[j]).0@ != day) implies intensity_on(data, day)
                == data[i].1 by {
                if i > 0 {
                    assert(data[0].0@ == day);
                }
            }
        } else {
            if rest.len() > 0 {
                let k = choose|k: int| 0 <= k < rest.len() && (#[trigger] rest[k]).1 == highest(rest);
                assert(data[k + 1] == rest[k]);
            }
            assert forall|i: int|
                0 <= i < data.len() && (#[trigger] data[i]).0@ == day && (forall|j: int|
                    0 <= j < i ==> (#[trigger] data[j]).0@ != day) implies intensity_on(data, day)
                == data[i].1 by {
                assert(i > 0);
                assert(rest[i - 1] == data[i]);
                assert forall|j: int| 0 <= j < i - 1 implies (#[trigger] rest[j]).0@ != day by {
                    assert(rest[j] == data[j + 1]);
                }
            }
            if forall|i: int| 0 <= i < data.len() ==> (#[trigger] data[i]).0@ != day {
                assert forall|i: int| 0 <= i < rest.len() implies (#[trigger] rest[i]).0@ != day by {
                    assert(rest[i] == data[i + 1]);
                }
            }
        }
    }
}

/// The level of a positive intensity lies between 1 and 4 and is 4 for the
/// highest intensity itself; an intensity of zero has level 0, whatever the
/// highest is.
pub proof fn lemma_level_bounds(value: int, max: int)
    requires
        0 <= value <= max,
    ensures
        value == 0 ==> level_of(value, max) == 0,
        value > 0 ==> 1 <= level_of(value, max) <= 4,
        value > 0 && value == max ==> level_of(value, max) == 4,
{
    if value > 0 {
        assert(4 * value / max <= 4) by (nonlinear_arith)
            requires
                0 < value <= max,
        ;
        assert(4 * max / max == 4) by (nonlinear_arith)
            requires
                0 < max,
        ;
    }
}

/// Against one highest intensity, a larger intensity never has a lower level.
pub proof fn lemma_level_monotonic(low: int, high: int, max: int)
    requires
        0 <= low <= high,
        0 < max,
    ensures
        level_of(low, max) <= level_of(high, max),
{
    assert(4 * low / max <= 4 * high / max) by (nonlinear_arith)
        requires
            0 <= low <= high,
            0 < max,
    ;
    assert(0 <= 4 * low / max) by (nonlinear_arith)
        requires
            0 <= low,
            0 < max,
    ;
}

/// Finds the intensity that the levels are measured against.
pub fn dataset_max(data: &Vec<ActivityCellData>) -> (max: u16)
    ensures
        max == max_intensity(data@),
        data.len() == 0 ==> max == 1,
        forall|i: int| 0 <= i < data.len() ==> (#[trigger] data[i]).1 <= max,
        data.len() > 0 ==> exists|i: int| 0 <= i < data.len() && (#[trigger] data[i]).1 == max,
{
    proof {
        lemma_highest_is_greatest(data@);
    }
    if data.len() == 0 {
        return 1;
    }
    let mut max: u16 = 0;
    let mut i: usize = 0;
    while i < data.len()
        invariant
            i <= data.len(),
            max == highest(data@.take(i as int)),
        decreases data.len() - i,
    {
        assert(data@.take(i + 1).drop_last() =~= data@.take(i as int));
        let value = data[i].1;
        if value >= max {
            max = value;
        }
        i = i + 1;
    }
    assert(data@.take(i as int) =~= data@);
    max
}

/// Looks up the intensity of the day with the given number.
pub fn observed_intensity(data: &Vec<ActivityCellData>, day: i64) -> (value: u16)
    ensures
        value == intensity_on(data@, day as int),
        value <= max_intensity(data@),
{
    proof {
        lemma_intensity_is_first_match(data@, day as int);
        assert(data@.subrange(0, data.len() as int) =~= data@);
    }
    let mut i: usize = 0;
    while i < data.len()
        invariant
            i <= data.len(),
            intensity_on(data@, day as int) <= max_intensity(data@),
            intensity_on(data@, day as int) == intensity_on(
                data@.subrange(i as int, data.len() as int),
                day as int,
            ),
        decreases data.len() - i,
    {
        let ghost rest = data@.subrange(i as int, data.len() as int);
        assert(rest.first() == data[i as int]);
        assert(rest.drop_first() =~= data@.subrange(i + 1, data.len() as int));
        if data[i].0.days_from_ce() as i64 == day {
            return data[i].1;
        }
        i = i + 1;
    }
    0
}

/// Computes the level of an intensity against the highest intensity.
pub fn intensity_level(value: u16, max: u16) -> (level: u8)
    requires
        value <= max,
    ensures
        level == level_of(value as int, max as int),
        value == 0 ==> level == 0,
        value > 0 ==> 1 <= level <= 4,
        value > 0 && value == max ==> level == 4,
{
    proof {
        lemma_level_bounds(value as int, max as int);
    }
    if value == 0 {
        return 0;
    }
    let share: u32 = 4 * (value as u32) / (max as u32);
    if share < 1 {
        1
    } else {
        share as u8
    }
}

/// The symbol that stands for a level.
pub fn block_symbol(level: u8) -> (symbol: &'static str)
    requires
        level <= 4,
    ensures
        symbol@ == glyph(level as int),
{
    proof {
        reveal_strlit(" ");
        reveal_strlit("\u{2591}");
        reveal_strlit("\u{2592}");
        reveal_strlit("\u{2593}");
        reveal_strlit("\u{2588}");
    }
    let symbol = if level == 0 {
        " "
    } else if level == 1 {
        "\u{2591}"
    } else if level == 2 {
        "\u{2592}"
    } else if level == 3 {
        "\u{2593}"
    } else {
        "\u{2588}"
    };
    assert(symbol@ =~= glyph(level as int));
    symbol
}

} // verus!
