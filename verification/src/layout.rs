//! Where a modal lands on the terminal: the centered popup sized from its wrapped rows, with its
//! footer pinned and its focused row scrolled into view, and the centered full-screen pane. Line
//! wrapping and constraint layout are the terminal library's; the arithmetic around them is here.

use vstd::prelude::*;

use crate::modal_view::StyledLine;

verus! {

/// A cell rectangle on the terminal.
#[derive(Debug, Clone, Copy, PartialEq, Eq, Structural)]
pub struct Rect {
    pub x: u16,
    pub y: u16,
    pub width: u16,
    pub height: u16,
}

/// The rows borders and the pinned footer take from a popup: two border rows and one footer row.
pub const POPUP_CHROME: usize = 3;

/// The widest a popup gets, in columns.
pub const POPUP_MAX_WIDTH: u16 = 60;

/// `a - b`, or 0 when `b` exceeds `a`.
pub open spec fn sat_sub(a: int, b: int) -> int {
    if a >= b {
        a - b
    } else {
        0
    }
}

/// The smaller of `a` and `b`.
pub open spec fn min_of(a: int, b: int) -> int {
    if a <= b {
        a
    } else {
        b
    }
}

/// The number of rows `text` takes as one paragraph line wrapped (without trimming) to `width`
/// columns by the terminal library.
pub uninterp spec fn paragraph_rows(text: Seq<char>, width: u16) -> usize;

/// `ratatui::widgets::Paragraph::line_count` for a paragraph of the single line `text`,
/// wrapped without trimming. The result is named by [`paragraph_rows`]; the library's source
/// returns 0 for a zero width, which is also stated. What it returns otherwise is its word
/// wrapper's business and is not stated. The word wrapper adds widths in `u16`, so the width
/// is kept to the popup's inner width, far below where those sums could overflow.
#[verifier::external_body]
fn line_count(text: &str, width: u16) -> (r: usize)
    requires
        width <= POPUP_MAX_WIDTH - 2,
    ensures
        r == paragraph_rows(text@, width),
        width == 0 ==> r == 0,
{
    ratatui::widgets::Paragraph::new(ratatui::text::Line::raw(text)).wrap(
        ratatui::widgets::Wrap { trim: false },
    ).line_count(width)
}

/// The rows a line occupies once wrapped to `width`: never fewer than one.
pub open spec fn line_rows(text: Seq<char>, width: u16) -> int {
    if paragraph_rows(text, width) < 1 {
        1
    } else {
        paragraph_rows(text, width) as int
    }
}

/// The rows a line occupies once wrapped to `width`, measured with the same wrapper the
/// rendering uses, so the two cannot disagree.
pub fn wrapped_rows(text: &str, width: u16) -> (r: usize)
    requires
        width <= POPUP_MAX_WIDTH - 2,
    ensures
        r == line_rows(text@, width),
{
    let n = line_count(text, width);
    if n < 1 {
        1
    } else {
        n
    }
}

/// The sum of `s`.
pub open spec fn total(s: Seq<int>) -> int
    decreases s.len(),
{
    if s.len() == 0 {
        0
    } else {
        total(s.drop_last()) + s.last()
    }
}

/// The wrapped row count of each body line at `width`.
pub open spec fn body_rows(body: Seq<StyledLine>, width: u16) -> Seq<int> {
    body.map_values(|l: StyledLine| line_rows(l.text@, width))
}

/// The inside of a rectangle drawn with borders on all four sides (what the terminal library's
/// `Block::inner` computes for such a block): one cell in from each side, shrinking to nothing
/// for a rectangle too small to have an inside.
pub open spec fn bordered_inner(r: Rect) -> Rect {
    let right = min_of(r.x + r.width, u16::MAX as int);
    let bottom = min_of(r.y + r.height, u16::MAX as int);
    Rect {
        x: min_of(min_of(r.x + 1, u16::MAX as int), right) as u16,
        y: min_of(min_of(r.y + 1, u16::MAX as int), bottom) as u16,
        width: sat_sub(r.width as int, 2) as u16,
        height: sat_sub(r.height as int, 2) as u16,
    }
}

/// The inside of a bordered rectangle.
pub fn inner_of(r: Rect) -> (i: Rect)
    ensures
        i == bordered_inner(r),
{
    let right = r.x.saturating_add(r.width);
    let bottom = r.y.saturating_add(r.height);
    let x1 = r.x.saturating_add(1);
    let y1 = r.y.saturating_add(1);
    Rect {
        x: if x1 <= right {
            x1
        } else {
            right
        },
        y: if y1 <= bottom {
            y1
        } else {
            bottom
        },
        width: r.width.saturating_sub(2),
        height: r.height.saturating_sub(2),
    }
}

/// Where a popup's pieces go.
#[derive(Debug, Clone, Copy, PartialEq, Eq)]
pub struct PopupLayout {
    /// The popup's outer rectangle, cleared and bordered.
    pub popup: Rect,
    /// Where the body goes and how many wrapped rows it is scrolled by; `None` when no body
    /// row fits.
    pub body: Option<(Rect, u16)>,
    /// Where the footer goes; `None` when the popup has no inside at all.
    pub footer: Option<Rect>,
}

/// The popup's width on `area`: at most [`POPUP_MAX_WIDTH`], leaving a column each side.
pub open spec fn popup_width(area: Rect) -> int {
    min_of(POPUP_MAX_WIDTH as int, sat_sub(area.width as int, 2))
}

/// The popup's height on `area` for a body of `rows` wrapped rows: the rows plus the chrome,
/// capped at the terminal (less a row each side).
pub open spec fn popup_height(area: Rect, rows: Seq<int>) -> int {
    let wanted = min_of(total(rows) + POPUP_CHROME, usize::MAX as int);
    min_of(min_of(wanted, u16::MAX as int), sat_sub(area.height as int, 2))
}

/// How far the body scrolls: just far enough that the focused line's last wrapped row is on
/// screen in a body of `body_height` rows.
pub open spec fn scroll_for(rows: Seq<int>, focus: Option<usize>, body_height: int) -> int {
    match focus {
        Some(row) => {
            let end = min_of(
                total(rows.take(min_of(row + 1, rows.len() as int))),
                usize::MAX as int,
            );
            sat_sub(min_of(end, u16::MAX as int), body_height)
        },
        None => 0,
    }
}

/// The layout of a popup with `body` lines on `area`.
pub open spec fn popup_of(area: Rect, body: Seq<StyledLine>, focus: Option<usize>) -> PopupLayout {
    let w = popup_width(area);
    let rows = body_rows(body, sat_sub(w, 2) as u16);
    let h = popup_height(area, rows);
    let popup = Rect {
        x: (area.x + sat_sub(area.width as int, w) / 2) as u16,
        y: (area.y + sat_sub(area.height as int, h) / 2) as u16,
        width: w as u16,
        height: h as u16,
    };
    let inner = bordered_inner(popup);
    if inner.height == 0 || inner.width == 0 {
        PopupLayout { popup, body: None, footer: None }
    } else {
        let bh = inner.height - 1;
        PopupLayout {
            popup,
            body: if bh > 0 {
                Some((Rect { height: bh as u16, ..inner }, scroll_for(rows, focus, bh) as u16))
            } else {
                None
            },
            footer: Some(Rect { y: (inner.y + bh) as u16, height: 1, ..inner }),
        }
    }
}

proof fn lemma_total_nonneg(s: Seq<int>)
    requires
        forall|i: int| 0 <= i < s.len() ==> s[i] >= 0,
    ensures
        total(s) >= 0,
    decreases s.len(),
{
    if s.len() > 0 {
        lemma_total_nonneg(s.drop_last());
    }
}

/// The saturating sum of the first `n` of `rows`.
fn saturating_total(rows: &Vec<usize>, n: usize, ghost_rows: Ghost<Seq<int>>) -> (r: usize)
    requires
        n <= rows@.len(),
        ghost_rows@.len() == rows@.len(),
        forall|i: int| 0 <= i < rows@.len() ==> ghost_rows@[i] == rows@[i] as int,
    ensures
        r == min_of(total(ghost_rows@.take(n as int)), usize::MAX as int),
{
    let mut sum: usize = 0;
    let mut i: usize = 0;
    assert(ghost_rows@.take(0) =~= Seq::<int>::empty());
    while i < n
        invariant
            i <= n <= rows@.len(),
            ghost_rows@.len() == rows@.len(),
            forall|k: int| 0 <= k < rows@.len() ==> ghost_rows@[k] == rows@[k] as int,
            sum == min_of(total(ghost_rows@.take(i as int)), usize::MAX as int),
        decreases n - i,
    {
        assert(ghost_rows@.take(i + 1).drop_last() =~= ghost_rows@.take(i as int));
        proof {
            lemma_total_nonneg(ghost_rows@.take(i as int));
        }
        sum = sum.saturating_add(rows[i]);
        i = i + 1;
    }
    sum
}

/// Lay out a popup with `body` lines on `area`, keeping the focused body row (if any) on
/// screen. The box is sized from the **wrapped** row count of the body, so a long line never
/// pushes the lines below it out of the box; a list longer than the terminal scrolls instead.
pub fn popup_layout(area: Rect, body: &Vec<StyledLine>, focus: Option<usize>) -> (r: PopupLayout)
    requires
        area.x + area.width <= u16::MAX,
        area.y + area.height <= u16::MAX,
    ensures
        r == popup_of(area, body@, focus),
{
    let available = area.height.saturating_sub(2);
    let width = if POPUP_MAX_WIDTH <= area.width.saturating_sub(2) {
        POPUP_MAX_WIDTH
    } else {
        area.width.saturating_sub(2)
    };
    let inner_width = width.saturating_sub(2);
    let ghost spec_rows = body_rows(body@, inner_width);
    let mut rows: Vec<usize> = Vec::new();
    let mut i: usize = 0;
    while i < body.len()
        invariant
            i <= body@.len(),
            rows@.len() == i,
            inner_width <= POPUP_MAX_WIDTH - 2,
            spec_rows == body_rows(body@, inner_width),
            forall|k: int| 0 <= k < i ==> spec_rows[k] == rows@[k] as int,
        decreases body@.len() - i,
    {
        rows.push(wrapped_rows(body[i].text.as_str(), inner_width));
        i = i + 1;
    }
    assert(spec_rows.take(rows@.len() as int) =~= spec_rows);
    let sum = saturating_total(&rows, rows.len(), Ghost(spec_rows));
    let wanted = sum.saturating_add(POPUP_CHROME);
    let capped: u16 = if wanted <= 65535 {
        wanted as u16
    } else {
        65535
    };
    let height = if capped <= available {
        capped
    } else {
        available
    };
    let popup = Rect {
        x: area.x + area.width.saturating_sub(width) / 2,
        y: area.y + area.height.saturating_sub(height) / 2,
        width,
        height,
    };
    let inner = inner_of(popup);
    if inner.height == 0 || inner.width == 0 {
        return PopupLayout { popup, body: None, footer: None };
    }
    let body_height = inner.height - 1;
    let body_area = if body_height > 0 {
        let offset: u16 = match focus {
            Some(row) => {
                let take = if row < rows.len() {
                    row + 1
                } else {
                    rows.len()
                };
                let end = saturating_total(&rows, take, Ghost(spec_rows));
                let end16: u16 = if end <= 65535 {
                    end as u16
                } else {
                    65535
                };
                end16.saturating_sub(body_height)
            },
            None => 0,
        };
        Some((Rect { height: body_height, ..inner }, offset))
    } else {
        None
    };
    PopupLayout {
        popup,
        body: body_area,
        footer: Some(Rect { y: inner.y + body_height, height: 1, ..inner }),
    }
}

/// The direction a layout splits an area in.
#[derive(Debug, Clone, Copy, PartialEq, Eq, Structural)]
pub enum Axis {
    Vertical,
    Horizontal,
}

/// Whether `inner` lies within `outer`.
pub open spec fn within(inner: Rect, outer: Rect) -> bool {
    &&& outer.x <= inner.x
    &&& outer.y <= inner.y
    &&& inner.x + inner.width <= outer.x + outer.width
    &&& inner.y + inner.height <= outer.y + outer.height
}

/// `r` with its size cut so that it ends within the `u16` grid, as the terminal library's
/// `Rect::new` makes every rectangle it is given.
pub open spec fn on_grid(r: Rect) -> Rect {
    Rect {
        x: r.x,
        y: r.y,
        width: min_of(r.width as int, u16::MAX - r.x) as u16,
        height: min_of(r.height as int, u16::MAX - r.y) as u16,
    }
}

/// Whether the integer `v` is within half a cell of `hundredths / 100`.
pub open spec fn near(v: int, hundredths: int) -> bool {
    -50 <= 100 * v - hundredths <= 50
}

/// Whether the span `start`, `size` along one axis is the middle of a split of the span
/// `from`, `extent` into `side`%, `middle`%, `side`%: its start and end each lie within half a
/// cell of where those percentages put them, so its size is within a cell of `middle`%.
pub open spec fn middle_span(start: int, size: int, from: int, extent: int, side: int, middle: int) -> bool {
    &&& near(start, 100 * from + extent * side)
    &&& near(start + size, 100 * from + extent * side + extent * middle)
    &&& -100 <= 100 * size - extent * middle <= 100
}

/// Whether `r` is the middle of a split of `a` along `axis` into `side`%, `middle`%, `side`%:
/// it keeps `a`'s extent across the axis, and along it lies where the percentages put it.
pub open spec fn split_middle_of(axis: Axis, side: int, middle: int, a: Rect, r: Rect) -> bool {
    match axis {
        Axis::Vertical => {
            &&& r.x == a.x
            &&& r.width == a.width
            &&& middle_span(r.y as int, r.height as int, a.y as int, a.height as int, side, middle)
        },
        Axis::Horizontal => {
            &&& r.y == a.y
            &&& r.height == a.height
            &&& middle_span(r.x as int, r.width as int, a.x as int, a.width as int, side, middle)
        },
    }
}

/// `ratatui::layout::Layout::split` of `area` along `axis` with the constraints
/// `Percentage(side)`, `Percentage(middle)`, `Percentage(side)`, keeping the middle area. The
/// library cuts the area to the `u16` grid (`Rect::new`), keeps the other axis of the area for
/// every segment, and sizes each `Percentage(p)` segment to `p`% of the area with a strong
/// constraint. With the three percentages summing to at most 100 those constraints hold
/// together, the remainder going to the trailing space (the default `Flex::Start`), so the
/// middle segment starts after `side`% and spans `middle`%, each edge rounded to the nearest
/// cell. Which exact cell a tie rounds to is the constraint solver's floating-point business
/// and is not stated.
#[verifier::external_body]
fn split_middle(axis: Axis, side: u16, middle: u16, area: Rect) -> (r: Rect)
    requires
        2 * side + middle <= 100,
    ensures
        within(r, area),
        split_middle_of(axis, side as int, middle as int, on_grid(area), r),
{
    let direction = match axis {
        Axis::Vertical => ratatui::layout::Direction::Vertical,
        Axis::Horizontal => ratatui::layout::Direction::Horizontal,
    };
    let chunks = ratatui::layout::Layout::default().direction(direction).constraints([
        ratatui::layout::Constraint::Percentage(side),
        ratatui::layout::Constraint::Percentage(middle),
        ratatui::layout::Constraint::Percentage(side),
    ]).split(ratatui::layout::Rect::new(area.x, area.y, area.width, area.height));
    Rect { x: chunks[1].x, y: chunks[1].y, width: chunks[1].width, height: chunks[1].height }
}

/// Center a rectangle of `percent_x` by `percent_y` percent within `area` (cut to the `u16`
/// grid): the middle of a vertical split, then the middle of a horizontal split of that band.
/// Its width and height are within a cell of those percentages of the area's, and the margins
/// on either side are equal to within a cell.
pub fn centered_rect(percent_x: u16, percent_y: u16, area: Rect) -> (r: Rect)
    requires
        percent_x <= 100,
        percent_y <= 100,
    ensures
        within(r, area),
        middle_span(
            r.x as int,
            r.width as int,
            on_grid(area).x as int,
            on_grid(area).width as int,
            (100 - percent_x) / 2,
            percent_x as int,
        ),
        middle_span(
            r.y as int,
            r.height as int,
            on_grid(area).y as int,
            on_grid(area).height as int,
            (100 - percent_y) / 2,
            percent_y as int,
        ),
{
    let band = split_middle(Axis::Vertical, (100 - percent_y) / 2, percent_y, area);
    proof {
        let a = on_grid(area);
        let h = a.height as int;
        let side = (100 - percent_y) / 2;
        let middle = percent_y as int;
        assert(h * side + h * middle <= 100 * h) by (nonlinear_arith)
            requires
                0 <= h,
                0 <= side,
                0 <= middle,
                side + middle <= 100,
        ;
        assert(on_grid(band) == band);
    }
    split_middle(Axis::Horizontal, (100 - percent_x) / 2, percent_x, band)
}

} // verus!
