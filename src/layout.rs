use crate::text::string_views;
use vstd::prelude::*;

verus! {

/// A rectangle of terminal cells.
#[derive(PartialEq, Eq, Structural, Debug, Clone, Copy)]
pub struct Area {
    pub x: u16,
    pub y: u16,
    pub width: u16,
    pub height: u16,
}

pub open spec fn min_nat(a: nat, b: nat) -> nat {
    if a < b {
        a
    } else {
        b
    }
}

/// A popup's extent along one axis: its content plus a border and margin of
/// two cells on each side, but no more than the screen offers.
pub open spec fn popup_extent(content: nat, screen: u16) -> nat {
    min_nat(content + 4, screen as nat)
}

fn extent(content: usize, screen: u16) -> (r: u16)
    requires
        content <= usize::MAX - 4,
    ensures
        r as nat == popup_extent(content as nat, screen),
{
    if content + 4 < screen as usize {
        (content + 4) as u16
    } else {
        screen
    }
}

/// Where a popup of the given content size sits: centred on the screen.
pub fn centered_popup_area(content_width: usize, content_height: usize, screen: Area) -> (r: Area)
    requires
        content_width <= usize::MAX - 4,
        content_height <= usize::MAX - 4,
    ensures
        r.width as nat == popup_extent(content_width as nat, screen.width),
        r.height as nat == popup_extent(content_height as nat, screen.height),
        r.x == (screen.width - r.width) / 2,
        r.y == (screen.height - r.height) / 2,
{
    let width = extent(content_width, screen.width);
    let height = extent(content_height, screen.height);
    Area { x: (screen.width - width) / 2, y: (screen.height - height) / 2, width, height }
}

/// Where a popup of the given content size sits: against the top right corner
/// of the screen, one cell in from its right edge.
pub fn top_right_popup_area(content_width: usize, content_height: usize, screen: Area) -> (r: Area)
    requires
        content_width <= usize::MAX - 4,
        content_height <= usize::MAX - 4,
        1 <= screen.x as int + screen.width as int - popup_extent(
            content_width as nat,
            screen.width,
        ) <= u16::MAX as int + 1,
    ensures
        r.width as nat == popup_extent(content_width as nat, screen.width),
        r.height as nat == popup_extent(content_height as nat, screen.height),
        r.x == screen.x + (screen.width - r.width) - 1,
        r.y == screen.y,
{
    let width = extent(content_width, screen.width);
    let height = extent(content_height, screen.height);
    let x = ((screen.x as u32 + (screen.width - width) as u32) - 1) as u16;
    Area { x, y: screen.y, width, height }
}

/// First row of the history shown in a popup of `h` rows: everything fits,
/// or a window that keeps the selected row near its middle without running
/// past the end.
pub open spec fn window_start(len: nat, selected: nat, h: nat) -> nat {
    if len <= h {
        0
    } else {
        let centred = if selected >= h / 2 {
            (selected - h / 2) as nat
        } else {
            0
        };
        min_nat(centred, (len - h) as nat)
    }
}

/// One past the last row shown.
pub open spec fn window_end(len: nat, selected: nat, h: nat) -> nat {
    if len <= h {
        len
    } else {
        window_start(len, selected, h) + h
    }
}

/// The rows of history shown in a popup of `area_height` rows, as `(start, end)`.
pub fn history_window(len: usize, selected: usize, area_height: usize) -> (r: (usize, usize))
    ensures
        r.0 as nat == window_start(len as nat, selected as nat, area_height as nat),
        r.1 as nat == window_end(len as nat, selected as nat, area_height as nat),
        r.0 <= r.1 <= len,
{
    if len <= area_height {
        (0, len)
    } else {
        let half = area_height / 2;
        let centred = if selected >= half {
            selected - half
        } else {
            0
        };
        let start = if centred < len - area_height {
            centred
        } else {
            len - area_height
        };
        (start, start + area_height)
    }
}

/// The popup's text for rows `start..end`: one line per row, the selected one
/// marked with `> `, the others indented by two spaces.
pub open spec fn popup_lines(items: Seq<Seq<char>>, selected: int, start: int, end: int) -> Seq<
    char,
>
    decreases end - start,
{
    if end <= start {
        Seq::empty()
    } else {
        let mark = if end - 1 == selected {
            "> "@
        } else {
            "  "@
        };
        popup_lines(items, selected, start, end - 1) + mark + items[end - 1] + "\n"@
    }
}

/// The text of the history popup for `items` with `selected` highlighted.
pub fn history_popup_text(items: &[String], selected: usize, area_height: usize) -> (r: String)
    ensures
        ({
            let len = items@.len() as nat;
            let s = window_start(len, selected as nat, area_height as nat) as int;
            let e = window_end(len, selected as nat, area_height as nat) as int;
            r@ == popup_lines(string_views(items@), selected as int, s, e)
        }),
{
    let ghost g = string_views(items@);
    let (start, end) = history_window(items.len(), selected, area_height);
    let mut lines = String::new();
    let mut i: usize = start;
    while i < end
        invariant
            start <= i <= end,
            end <= items@.len(),
            g == string_views(items@),
            lines@ == popup_lines(g, selected as int, start as int, i as int),
        decreases end - i,
    {
        if i == selected {
            lines.append("> ");
        } else {
            lines.append("  ");
        }
        lines.append(items[i].as_str());
        lines.append("\n");
        proof {
            assert(g[i as int] == items@[i as int]@);
        }
        i = i + 1;
    }
    lines
}

} // verus!
