//! Splitting the terminal into areas.
//!
//! The split itself is the work of the terminal library's constraint
//! solver. What is stated of it here holds of every outcome: one area per
//! constraint, each as wide (or as high) as the area that was split.

use crate::term::Rect;
use vstd::prelude::*;

verus! {

/// How much of the split axis an area asks for.
#[derive(Clone, Copy, Debug, PartialEq, Eq, Structural)]
pub enum Constraint {
    /// At least so many cells.
    Min(u16),
    /// Exactly so many cells.
    Length(u16),
    /// The given part of the whole: numerator, denominator.
    Ratio(u32, u32),
}

/// Whether `areas` is a split of `area` for so many constraints: one area
/// each, all with the position and size of `area` across the split axis.
pub open spec fn is_split(areas: Seq<Rect>, area: Rect, vertical: bool, count: nat) -> bool {
    &&& areas.len() == count
    &&& forall|i: int|
        0 <= i < areas.len() ==> if vertical {
            (#[trigger] areas[i]).x == area.x && areas[i].width == area.width
        } else {
            (#[trigger] areas[i]).y == area.y && areas[i].height == area.height
        }
}

/// `Layout::split` of ratatui: splits `area` along one axis, top to bottom
/// where `vertical` is set and left to right else. It returns one area per
/// constraint; across the split axis each area has the position and the
/// size of `area`.
#[verifier::external_body]
pub(crate) fn split(area: &Rect, vertical: bool, constraints: &Vec<Constraint>) -> (areas: Vec<Rect>)
    ensures
        is_split(areas@, *area, vertical, constraints@.len()),
{
    let wanted = constraints.iter().map(|c| match *c {
        Constraint::Min(n) => ratatui::layout::Constraint::Min(n),
        Constraint::Length(n) => ratatui::layout::Constraint::Length(n),
        Constraint::Ratio(a, b) => ratatui::layout::Constraint::Ratio(a, b),
    });
    let layout = if vertical {
        ratatui::layout::Layout::vertical(wanted)
    } else {
        ratatui::layout::Layout::horizontal(wanted)
    };
    let whole = ratatui::layout::Rect { x: area.x, y: area.y, width: area.width, height: area.height };
    layout.split(whole).iter().map(|r| Rect { x: r.x, y: r.y, width: r.width, height: r.height }).collect()
}

/// `count` constraints that each ask for the same part of the whole.
pub fn equal_parts(count: usize) -> (parts: Vec<Constraint>)
    ensures
        parts@.len() == count,
        forall|i: int|
            0 <= i < count ==> #[trigger] parts@[i] == Constraint::Ratio(
                1,
                if count > u32::MAX {
                    u32::MAX
                } else {
                    count as u32
                },
            ),
{
    let whole: u32 = if count > u32::MAX as usize { u32::MAX } else { count as u32 };
    let mut parts: Vec<Constraint> = Vec::new();
    let mut i: usize = 0;
    while i < count
        invariant
            i <= count,
            parts@.len() == i,
            forall|j: int| 0 <= j < i ==> #[trigger] parts@[j] == Constraint::Ratio(1, whole),
        decreases count - i,
    {
        parts.push(Constraint::Ratio(1, whole));
        i += 1;
    }
    parts
}

/// Splits `area` into `count` rows of equal share, top to bottom.
pub fn ratio_chunks(area: &Rect, count: usize) -> (rows: Vec<Rect>)
    ensures
        is_split(rows@, *area, true, count as nat),
{
    let parts = equal_parts(count);
    split(area, true, &parts)
}

/// Splits `area` into `count` columns of equal share, left to right.
pub fn ratio_columns(area: &Rect, count: usize) -> (columns: Vec<Rect>)
    ensures
        is_split(columns@, *area, false, count as nat),
{
    let parts = equal_parts(count);
    split(area, false, &parts)
}

} // verus!
