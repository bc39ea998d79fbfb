//! Pieces shared by the views: the health bar text and the centred popup area.
use crate::cert_validation::div_toward_zero;
use crate::text::{int_decimal, push_i64, push_str};
use crate::theme::{push_repeat, repeat};
use ratatui::layout::{Constraint, Direction, Layout, Rect};
use vstd::prelude::*;

verus! {

/// A rectangle of the terminal, in cells.
#[derive(Clone, Copy, Debug, PartialEq, Eq, Structural)]
pub struct Area {
    pub x: u16,
    pub y: u16,
    pub width: u16,
    pub height: u16,
}

/// `b` lies within `a`.
pub open spec fn area_within(b: Area, a: Area) -> bool {
    &&& a.x <= b.x
    &&& b.x + b.width <= a.x + a.width
    &&& a.y <= b.y
    &&& b.y + b.height <= a.y + a.height
}

/// The area's cells do not run past the last cell `u16` can address.
pub open spec fn addressable(a: Area) -> bool {
    a.x + a.width <= u16::MAX && a.y + a.height <= u16::MAX
}

/// `n` cells are within `slack` hundredths of a cell of `pct` percent of
/// `total` cells.
pub open spec fn near_percent(n: int, total: int, pct: int, slack: int) -> bool {
    -slack <= n * 100 - total * pct <= slack
}

/// Part `k` of a split of `area` by `percents` along the vertical axis (or the
/// horizontal one): it keeps the other axis of `area`, lies within `area`,
/// starts within half a cell of the percentages before it, and is within one
/// cell of its own percentage long.
pub open spec fn split_part(vertical: bool, percents: Seq<u16>, area: Area, k: int, part: Area) -> bool {
    let before: int = if k == 0 {
        0
    } else if k == 1 {
        percents[0] as int
    } else {
        percents[0] + percents[1]
    };
    &&& area_within(part, area)
    &&& if vertical {
        &&& part.x == area.x
        &&& part.width == area.width
        &&& near_percent(part.y - area.y, area.height as int, before, 50)
        &&& near_percent(part.height as int, area.height as int, percents[k] as int, 100)
    } else {
        &&& part.y == area.y
        &&& part.height == area.height
        &&& near_percent(part.x - area.x, area.width as int, before, 50)
        &&& near_percent(part.width as int, area.width as int, percents[k] as int, 100)
    }
}

/// Splits `area` into three parts by percentages with `ratatui::layout::Layout`
/// (default flex `Start`, no margin or spacing). Claimed: one area per
/// percentage; and when the percentages add up to at most 100 and the area is
/// addressable, each part is as `split_part` says. The solver then meets every
/// percentage exactly (the leftover goes to the trailing space), and only the
/// rounding of each edge to a whole cell remains.
#[verifier::external_body]
fn split_by_percentages(vertical: bool, percents: [u16; 3], area: Area) -> (r: Vec<Area>)
    ensures
        r@.len() == 3,
        percents@[0] + percents@[1] + percents@[2] <= 100 && addressable(area) ==> forall|k: int|
            0 <= k < 3 ==> #[trigger] split_part(vertical, percents@, area, k, r@[k]),
{
    let direction = if vertical { Direction::Vertical } else { Direction::Horizontal };
    let layout = Layout::new(direction, percents.map(Constraint::Percentage));
    let rect = Rect { x: area.x, y: area.y, width: area.width, height: area.height };
    layout.split(rect).iter().map(|r| Area { x: r.x, y: r.y, width: r.width, height: r.height }).collect()
}

/// `a` is a popup centred in `r`, `percent_x` percent wide and `percent_y`
/// percent high, up to the rounding of each edge to a whole cell: it lies
/// within `r`; its size is within one cell of the percentages of `r`; and its
/// offsets from `r`'s corner are within half a cell of `(100 - percent) / 2`
/// percent (rounded down) of `r`'s width and height.
pub open spec fn centred_in(a: Area, r: Area, percent_x: u16, percent_y: u16) -> bool {
    &&& area_within(a, r)
    &&& near_percent(a.width as int, r.width as int, percent_x as int, 100)
    &&& near_percent(a.height as int, r.height as int, percent_y as int, 100)
    &&& near_percent(a.x - r.x, r.width as int, (100 - percent_x) / 2, 50)
    &&& near_percent(a.y - r.y, r.height as int, (100 - percent_y) / 2, 50)
}

/// The percentage of `value` in `max_value`, rounded toward zero; 0 without a
/// positive maximum.
pub open spec fn health_percentage(value: i32, max_value: i32) -> int {
    if max_value > 0 {
        div_toward_zero(value * 100, max_value as int)
    } else {
        0
    }
}

/// The number of cells of a health bar for a width.
pub open spec fn health_bar_cells(width: u16) -> int {
    if width > 10 {
        width - 10
    } else {
        1
    }
}

/// The filled cells of a health bar: the percentage of its cells, at most all of
/// them. A negative percentage fills the single cell of a narrow bar.
pub open spec fn health_filled(p: int, cells: int) -> int {
    if p < 0 {
        cells
    } else if p * cells / 100 < cells {
        p * cells / 100
    } else {
        cells
    }
}

/// The colour square of a health bar: green from 80 %, yellow from 60 %, orange
/// from 40 %, red below.
pub open spec fn health_square(p: int) -> Seq<char> {
    if p >= 80 {
        "🟩"@
    } else if p >= 60 {
        "🟨"@
    } else if p >= 40 {
        "🟧"@
    } else {
        "🟥"@
    }
}

/// `s` right-aligned in three columns.
pub open spec fn pad3(s: Seq<char>) -> Seq<char> {
    if s.len() < 3 {
        repeat(" "@, (3 - s.len()) as nat) + s
    } else {
        s
    }
}

/// The text of a health bar: the filled cells in the colour square (at least
/// one), the rest as white squares, then the percentage in three columns.
pub open spec fn health_bar_text(value: i32, max_value: i32, width: u16) -> Seq<char> {
    let p = health_percentage(value, max_value);
    let cells = health_bar_cells(width);
    let filled = health_filled(p, cells);
    repeat(health_square(p), (if filled > 1 { filled } else { 1 }) as nat) + repeat(
        "⬜"@,
        (cells - filled) as nat,
    ) + " "@ + pad3(int_decimal(p)) + "%"@
}

/// Components shared by the views.
pub struct SharedComponents;

impl SharedComponents {
    /// A health bar: `value` out of `max_value` as coloured squares over the
    /// width left after the percentage, then the percentage.
    pub fn render_health_bar(value: i32, max_value: i32, width: u16) -> (s: String)
        requires
            max_value > 0 ==> i32::MIN <= value * 100 <= i32::MAX,
            health_percentage(value, max_value) < 0 ==> width <= 11,
            health_percentage(value, max_value) * health_bar_cells(width) <= usize::MAX,
        ensures
            s@ == health_bar_text(value, max_value, width),
    {
        let percentage: i32 = if max_value > 0 {
            (value * 100) / max_value
        } else {
            0
        };
        let cells: usize = if width > 10 {
            (width - 10) as usize
        } else {
            1
        };
        let filled: usize = if percentage < 0 {
            cells
        } else {
            let f = (percentage as usize) * cells / 100;
            if f < cells {
                f
            } else {
                cells
            }
        };
        let empty = cells - filled;
        let square = if percentage >= 80 {
            "🟩"
        } else if percentage >= 60 {
            "🟨"
        } else if percentage >= 40 {
            "🟧"
        } else {
            "🟥"
        };
        let mut s = String::new();
        push_repeat(&mut s, square, if filled > 1 { filled } else { 1 });
        push_repeat(&mut s, "⬜", empty);
        push_str(&mut s, " ");
        let mut digits = String::new();
        push_i64(&mut digits, percentage as i64);
        proof {
            reveal_strlit(" ");
            assert(digits@ == int_decimal(percentage as int));
        }
        let n = crate::text::chars_of(digits.as_str()).len();
        if n < 3 {
            push_repeat(&mut s, " ", 3 - n);
        }
        push_str(&mut s, digits.as_str());
        push_str(&mut s, "%");
        proof {
            assert(s@ =~= health_bar_text(value, max_value, width));
        }
        s
    }

    /// A popup area centred in `r`, `percent_x` percent wide and `percent_y`
    /// percent high, as `ratatui`'s layout lays it out: the middle of three rows
    /// split by the percentages `(100 - percent_y) / 2`, `percent_y` and
    /// `(100 - percent_y) / 2`, split again into three columns the same way by
    /// `percent_x`; see `centred_in`.
    pub fn centered_rect(percent_x: u16, percent_y: u16, r: Area) -> (a: Area)
        requires
            percent_x <= 100,
            percent_y <= 100,
        ensures
            addressable(r) ==> centred_in(a, r, percent_x, percent_y),
    {
        let side_y = (100 - percent_y) / 2;
        let rows = split_by_percentages(true, [side_y, percent_y, side_y], r);
        let middle = rows[1];
        let side_x = (100 - percent_x) / 2;
        let columns = split_by_percentages(false, [side_x, percent_x, side_x], middle);
        proof {
            if addressable(r) {
                assert(split_part(true, [side_y, percent_y, side_y]@, r, 1, rows@[1]));
                assert(addressable(middle));
                assert(split_part(false, [side_x, percent_x, side_x]@, middle, 1, columns@[1]));
            }
        }
        columns[1]
    }
}

} // verus!
