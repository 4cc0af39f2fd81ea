//! Placement of the chart's parts on the page, in hundredths or tenths of the
//! page: the 2×2 grid of subplot slots and the guide marks along the edges.
use crate::title::{one_decimal, push_one_decimal};
use vstd::prelude::*;
use vstd::string::StringExecFns;

verus! {

/// Number of subplot slots of the grid.
pub const SLOT_COUNT: usize = 4;

/// Number of guide positions along each axis: tenths from 0 to 10 inclusive.
pub const GUIDE_STEPS: usize = 11;

/// Where a subplot lies on the page, in hundredths of the page's width and
/// height, measured from the bottom left.
#[derive(Clone, Copy, Debug, PartialEq, Eq, Structural)]
pub struct SlotDomain {
    pub x_from: u64,
    pub x_to: u64,
    pub y_from: u64,
    pub y_to: u64,
}

/// The domain of slot `k`, filled row by row from the top left: two columns,
/// each 40 hundredths wide, with 5 hundredths of margin.
pub open spec fn spec_slot_domain(k: int) -> SlotDomain {
    let col = k % 2;
    let row = k / 2;
    SlotDomain {
        x_from: (5 + 50 * col) as u64,
        x_to: (45 + 50 * col) as u64,
        y_from: (55 - 50 * row) as u64,
        y_to: (95 - 50 * row) as u64,
    }
}

/// The page domain of subplot slot `k`.
pub fn slot_domain(k: usize) -> (r: SlotDomain)
    requires
        k < SLOT_COUNT,
    ensures
        r == spec_slot_domain(k as int),
{
    let col = (k % 2) as u64;
    let row = (k / 2) as u64;
    SlotDomain { x_from: 5 + 50 * col, x_to: 45 + 50 * col, y_from: 55 - 50 * row, y_to: 95 - 50 * row }
}

/// A guide mark: a short text at a point of the page, in tenths of the
/// page's width and height.
#[derive(Clone, Debug)]
pub struct Guide {
    pub text: String,
    pub x_tenths: u64,
    pub y_tenths: u64,
}

/// The text of the label of guide position `i` on the axis named `axis`.
pub open spec fn label_text(axis: char, i: nat) -> Seq<char> {
    seq![axis, ':', ' '] + one_decimal(i)
}

/// Guide `k` of the page. For each position `i` of the horizontal axis, its
/// label on the bottom edge, then a vertical tick at mid-height; after those,
/// for each position `i` of the vertical axis, its label on the left edge, then
/// a horizontal tick at mid-width.
pub open spec fn guide_at(k: int) -> (Seq<char>, u64, u64) {
    let i = (k / 2) % (GUIDE_STEPS as int);
    if k < 2 * GUIDE_STEPS {
        if k % 2 == 0 {
            (label_text('x', i as nat), i as u64, 0u64)
        } else {
            ("|"@, i as u64, 5u64)
        }
    } else {
        if k % 2 == 0 {
            (label_text('y', i as nat), 0u64, i as u64)
        } else {
            ("\u{2014}"@, 5u64, i as u64)
        }
    }
}

/// `g` holds the guides of the page, in order.
pub open spec fn is_guide_list(g: Seq<Guide>) -> bool {
    &&& g.len() == 4 * GUIDE_STEPS
    &&& forall|k: int|
        0 <= k < g.len() ==> ((#[trigger] g[k]).text@, g[k].x_tenths, g[k].y_tenths) == guide_at(
            k,
        )
}

/// The label of guide position `i` on an axis.
fn guide_label(axis_x: bool, i: u64) -> (r: String)
    requires
        i < GUIDE_STEPS,
    ensures
        r@ == label_text(if axis_x { 'x' } else { 'y' }, i as nat),
{
    proof {
        reveal_strlit("x: ");
        reveal_strlit("y: ");
    }
    let mut s = if axis_x { String::from_str("x: ") } else { String::from_str("y: ") };
    push_one_decimal(&mut s, i as u128);
    proof {
        assert(s@ =~= label_text(if axis_x { 'x' } else { 'y' }, i as nat));
    }
    s
}

/// The guide marks of the page.
pub fn create_layout_guides() -> (r: Vec<Guide>)
    ensures
        is_guide_list(r@),
{
    proof {
        reveal_strlit("|");
        reveal_strlit("\u{2014}");
    }
    let mut guides: Vec<Guide> = Vec::new();
    let mut i: u64 = 0;
    while i < GUIDE_STEPS as u64
        invariant
            i <= GUIDE_STEPS,
            guides@.len() == 2 * i,
            forall|k: int|
                0 <= k < guides@.len() ==> ((#[trigger] guides@[k]).text@, guides@[k].x_tenths, guides@[k].y_tenths)
                    == guide_at(k),
        decreases GUIDE_STEPS - i,
    {
        guides.push(Guide { text: guide_label(true, i), x_tenths: i, y_tenths: 0 });
        guides.push(Guide { text: String::from_str("|"), x_tenths: i, y_tenths: 5 });
        i = i + 1;
    }
    let mut j: u64 = 0;
    while j < GUIDE_STEPS as u64
        invariant
            j <= GUIDE_STEPS,
            guides@.len() == 2 * GUIDE_STEPS + 2 * j,
            forall|k: int|
                0 <= k < guides@.len() ==> ((#[trigger] guides@[k]).text@, guides@[k].x_tenths, guides@[k].y_tenths)
                    == guide_at(k),
        decreases GUIDE_STEPS - j,
    {
        guides.push(Guide { text: guide_label(false, j), x_tenths: 0, y_tenths: j });
        guides.push(Guide { text: String::from_str("\u{2014}"), x_tenths: 5, y_tenths: j });
        j = j + 1;
    }
    guides
}

} // verus!
