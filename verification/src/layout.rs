//! The areas of the screen: panels stacked from top to bottom, and pop-ups
//! centred on the screen, as ratatui's layout solver splits them.
use vstd::prelude::*;
use ratatui::layout::{Constraint, Direction, Layout, Rect};
use crate::app::Mode;
use crate::view::{panel_rows, screen_rows};

verus! {

/// A rectangle of the screen: its left column, top row, width and height.
#[derive(Clone, Copy, Debug, PartialEq, Eq, Structural)]
pub struct Area {
    pub x: u16,
    pub y: u16,
    pub width: u16,
    pub height: u16,
}

/// The size asked for one part of a split.
#[derive(Clone, Copy, Debug, PartialEq, Eq, Structural)]
pub enum Size {
    /// Exactly this many cells.
    Length(u16),
    /// This many cells or more: the part takes what is left.
    Min(u16),
    /// This share of the whole, in percent.
    Percentage(u16),
}

/// The direction in which an area is split.
#[derive(Clone, Copy, Debug, PartialEq, Eq, Structural)]
pub enum Axis {
    /// Into rows, top to bottom.
    Vertical,
    /// Into columns, left to right.
    Horizontal,
}

/// Whether `part` spans `whole` across the direction of a split along
/// `axis`: the full width for rows, the full height for columns.
pub open spec fn spans_across(axis: Axis, part: Area, whole: Area) -> bool {
    match axis {
        Axis::Vertical => part.x == whole.x && part.width == whole.width,
        Axis::Horizontal => part.y == whole.y && part.height == whole.height,
    }
}

/// The end of a stretch that starts at `start` and runs `len` cells, held
/// at `u16::MAX` (as `Rect::right` and `Rect::bottom` give it).
pub open spec fn end_of(start: u16, len: u16) -> int {
    if start + len > u16::MAX { u16::MAX as int } else { start + len }
}

/// Whether `part` lies inside `whole` along the direction of a split along
/// `axis`: between the top and the bottom of `whole` for rows, between its
/// left and right for columns.
pub open spec fn lies_along(axis: Axis, part: Area, whole: Area) -> bool {
    match axis {
        Axis::Vertical => whole.y <= part.y && part.y + part.height <= end_of(whole.y, whole.height),
        Axis::Horizontal => whole.x <= part.x && part.x + part.width <= end_of(whole.x, whole.width),
    }
}

/// Whether `part` lies inside `whole`.
pub open spec fn lies_inside(part: Area, whole: Area) -> bool {
    lies_along(Axis::Vertical, part, whole) && lies_along(Axis::Horizontal, part, whole)
}

/// Where `a` starts along a split along `axis`: its top row for rows, its
/// left column for columns.
pub open spec fn start_along(axis: Axis, a: Area) -> int {
    match axis {
        Axis::Vertical => a.y as int,
        Axis::Horizontal => a.x as int,
    }
}

/// How many cells `a` runs along a split along `axis`: its height for rows,
/// its width for columns.
pub open spec fn len_along(axis: Axis, a: Area) -> int {
    match axis {
        Axis::Vertical => a.height as int,
        Axis::Horizontal => a.width as int,
    }
}

/// The cells that `whole` offers to a split along `axis`, from its start to
/// its end (held at `u16::MAX`).
pub open spec fn room(axis: Axis, whole: Area) -> int {
    match axis {
        Axis::Vertical => end_of(whole.y, whole.height) - whole.y,
        Axis::Horizontal => end_of(whole.x, whole.width) - whole.x,
    }
}

/// Whether `parts` follow one another along `axis` from the start of
/// `whole`: the first begins where `whole` begins, and each next one begins
/// where the one before it ends.
pub open spec fn follow_on(axis: Axis, parts: Seq<Area>, whole: Area) -> bool {
    &&& parts.len() > 0 ==> start_along(axis, parts[0]) == start_along(axis, whole)
    &&& forall|i: int, j: int|
        #![trigger parts[i], parts[j]]
        0 <= i && j == i + 1 && j < parts.len() ==> start_along(axis, parts[j]) == start_along(
            axis,
            parts[i],
        ) + len_along(axis, parts[i])
}

/// The number that a size carries: cells for a length or a minimum,
/// percent for a share.
pub open spec fn size_number(s: Size) -> int {
    match s {
        Size::Length(n) => n as int,
        Size::Min(n) => n as int,
        Size::Percentage(n) => n as int,
    }
}

/// The sum of the numbers that `sizes` carry.
pub open spec fn size_sum(sizes: Seq<Size>) -> int
    decreases sizes.len(),
{
    if sizes.len() == 0 {
        0
    } else {
        size_sum(sizes.drop_last()) + size_number(sizes.last())
    }
}

/// Whether `sizes` ask only for lengths and minimums, and these fit into
/// `cells` all at once.
pub open spec fn lengths_fit(sizes: Seq<Size>, cells: int) -> bool {
    &&& forall|i: int| 0 <= i < sizes.len() ==> !(#[trigger] sizes[i] is Percentage)
    &&& size_sum(sizes) <= cells
}

/// Whether `sizes` ask only for shares, and these come to at most the
/// whole.
pub open spec fn shares_fit(sizes: Seq<Size>) -> bool {
    &&& forall|i: int| 0 <= i < sizes.len() ==> #[trigger] sizes[i] is Percentage
    &&& size_sum(sizes) <= 100
}

/// Whether a part of `len` cells has what `s` asks for: exactly the length,
/// or at least the minimum where that is at most `i16::MAX` (the solver
/// takes a minimum as an `i16`, so a larger one asks for nothing); a share
/// is bounded by [`within_share`].
pub open spec fn sized_as(s: Size, len: int) -> bool {
    match s {
        Size::Length(n) => len == n,
        Size::Min(n) => n <= i16::MAX ==> len >= n,
        Size::Percentage(_) => true,
    }
}

/// Whether a part of `len` cells, out of `cells`, lies within its share:
/// at least `percent` percent of the cells and at most that plus the
/// `spare` percent that no share claims, each give or take the two cells
/// that rounding its two ends can move.
pub open spec fn within_share(cells: int, percent: int, spare: int, len: int) -> bool {
    &&& 100 * len + 200 >= cells * percent
    &&& 100 * len <= cells * (percent + spare) + 200
}

/// Calls ratatui's `Layout::split` (with its default start alignment and no
/// spacing) on `area`, along `axis`, with `sizes`. The solver keeps its
/// work in hash maps whose order changes from run to run, and where sizes
/// leave room for more than one answer, which one comes is not fixed; so
/// only what the source shows of every answer is claimed. There is one
/// part per size, each spanning `area` across the split and lying inside
/// it along the split: every boundary lies between the start and the end
/// of `area`, and the ends of `area` are required constraints. The parts
/// follow one another from the start of `area`: the first spacer and the
/// ones between parts are held at zero more strongly than any size is
/// asked for. Where only lengths and minimums are asked and they fit, each
/// part gets its length exactly and at least its minimum: minimums are
/// held above lengths, and lengths far above the pull of minimums and of
/// the last spacer to grow. The solver passes a minimum on as an `i16`, so
/// a minimum above `i16::MAX` wraps to a negative one and nothing is
/// claimed of that part's size. Where only shares are asked and they come to at
/// most the whole, each part holds at least its share and at most its
/// share plus what no share claims, give or take what rounding each end to
/// a whole cell moves. The exact cells of a share, and how parts are sized
/// where the sizes do not fit, are not stated.
#[verifier::external_body]
fn split_area(axis: Axis, sizes: &Vec<Size>, area: Area) -> (r: Vec<Area>)
    ensures
        r@.len() == sizes@.len(),
        forall|i: int| 0 <= i < r@.len() ==> spans_across(axis, #[trigger] r@[i], area),
        forall|i: int| 0 <= i < r@.len() ==> lies_along(axis, #[trigger] r@[i], area),
        follow_on(axis, r@, area),
        lengths_fit(sizes@, room(axis, area)) ==> forall|i: int|
            0 <= i < r@.len() ==> sized_as(sizes@[i], len_along(axis, #[trigger] r@[i])),
        shares_fit(sizes@) ==> forall|i: int|
            0 <= i < r@.len() ==> within_share(
                room(axis, area),
                size_number(sizes@[i]),
                100 - size_sum(sizes@),
                len_along(axis, #[trigger] r@[i]),
            ),
{
    let direction = match axis {
        Axis::Vertical => Direction::Vertical,
        Axis::Horizontal => Direction::Horizontal,
    };
    let constraints = sizes.iter().map(|s| match *s {
        Size::Length(n) => Constraint::Length(n),
        Size::Min(n) => Constraint::Min(n),
        Size::Percentage(n) => Constraint::Percentage(n),
    });
    let whole = Rect { x: area.x, y: area.y, width: area.width, height: area.height };
    let parts = Layout::default().direction(direction).constraints(constraints).split(whole);
    parts.iter().map(|r| Area { x: r.x, y: r.y, width: r.width, height: r.height }).collect()
}

/// The panels of the screen in `mode` (see [`panel_rows`]), one below the
/// other from the top of the screen, each as wide as the screen. Where the
/// rows asked for fit into the screen, each panel has the height asked for,
/// and the listing at least its minimum.
pub fn screen_areas(mode: Mode, expanded: bool, screen: Area) -> (r: Vec<Area>)
    ensures
        r@.len() == panel_rows(mode, expanded).len(),
        forall|i: int| 0 <= i < r@.len() ==> spans_across(Axis::Vertical, #[trigger] r@[i], screen),
        follow_on(Axis::Vertical, r@, screen),
        size_sum(panel_rows(mode, expanded)) <= room(Axis::Vertical, screen) ==> forall|i: int|
            0 <= i < r@.len() ==> sized_as(panel_rows(mode, expanded)[i], #[trigger] r@[i].height as int),
{
    let rows = screen_rows(mode, expanded);
    let r = split_area(Axis::Vertical, &rows, screen);
    proof {
        let sizes = panel_rows(mode, expanded);
        assert forall|i: int| 0 <= i < sizes.len() implies !(#[trigger] sizes[i] is Percentage) by {}
        if size_sum(sizes) <= room(Axis::Vertical, screen) {
            assert(lengths_fit(sizes, room(Axis::Vertical, screen)));
            assert forall|i: int| 0 <= i < r@.len() implies sized_as(sizes[i], #[trigger] r@[i].height as int) by {
                assert(len_along(Axis::Vertical, r@[i]) == r@[i].height);
            }
        }
    }
    r
}

/// The sizes that centre a part taking `percent` of the whole: equal
/// shares of what is left before and after it.
pub open spec fn centred_sizes(percent: u16) -> Seq<Size> {
    let side = ((100 - percent) / 2) as u16;
    seq![Size::Percentage(side), Size::Percentage(percent), Size::Percentage(side)]
}

fn centring(percent: u16) -> (r: Vec<Size>)
    requires
        percent <= 100,
    ensures
        r@ == centred_sizes(percent),
{
    let side = (100 - percent) / 2;
    let r = vec![Size::Percentage(side), Size::Percentage(percent), Size::Percentage(side)];
    assert(r@ =~= centred_sizes(percent));
    r
}

/// A pop-up centred on `area`: the middle column of the middle row of the
/// splits that [`centred_sizes`] asks for. It lies inside `area`; its width
/// is `percent_x` percent of the width of `area`, and its height
/// `percent_y` percent of its height, each give or take two cells, and
/// each plus the one percent that an odd remainder leaves to no share.
pub fn centered_rect(percent_x: u16, percent_y: u16, area: Area) -> (r: Area)
    requires
        percent_x <= 100,
        percent_y <= 100,
    ensures
        lies_inside(r, area),
        within_share(room(Axis::Horizontal, area), percent_x as int, (100 - percent_x) % 2, r.width as int),
        within_share(room(Axis::Vertical, area), percent_y as int, (100 - percent_y) % 2, r.height as int),
{
    let rows = split_area(Axis::Vertical, &centring(percent_y), area);
    proof {
        centred_shares(percent_y);
        assert(within_share(room(Axis::Vertical, area), percent_y as int, (100 - percent_y) % 2, len_along(Axis::Vertical, rows@[1])));
    }
    let middle = rows[1];
    let columns = split_area(Axis::Horizontal, &centring(percent_x), middle);
    proof {
        centred_shares(percent_x);
        assert(room(Axis::Horizontal, middle) == room(Axis::Horizontal, area));
        assert(within_share(room(Axis::Horizontal, middle), percent_x as int, (100 - percent_x) % 2, len_along(Axis::Horizontal, columns@[1])));
        assert(spans_across(Axis::Horizontal, columns@[1], middle));
    }
    columns[1]
}

/// The sizes that centre a part ask only for shares, whose sum leaves out
/// only the odd remainder of what the middle share leaves.
proof fn centred_shares(percent: u16)
    requires
        percent <= 100,
    ensures
        shares_fit(centred_sizes(percent)),
        100 - size_sum(centred_sizes(percent)) == (100 - percent) % 2,
        size_number(centred_sizes(percent)[1]) == percent,
{
    let sizes = centred_sizes(percent);
    reveal_with_fuel(size_sum, 4);
    assert(sizes.drop_last().drop_last().drop_last() =~= Seq::<Size>::empty());
    assert forall|i: int| 0 <= i < sizes.len() implies #[trigger] sizes[i] is Percentage by {}
}

} // verus!
