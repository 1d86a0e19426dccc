//! The width of the host column of the table.

use crate::host::HostInfo;
use vstd::prelude::*;

verus! {

/// Least width of the host column, whatever the hosts are called.
pub const MIN_HOST_COLUMN: usize = 12;

/// The number of terminal columns that a text takes, as `console` measures it.
pub uninterp spec fn terminal_width(text: Seq<char>) -> usize;

/// `console::measure_text_width`: the width of `text` in terminal columns, its
/// ANSI escape codes left out. It is computed from the text alone; the contract
/// gives the result its name and claims nothing else of it.
#[verifier::external_body]
fn measure_text_width(text: &str) -> (width: usize)
    ensures
        width == terminal_width(text@),
{
    console::measure_text_width(text)
}

/// Whether `width` is the width of a column for texts of the widths `widths`:
/// the greatest of them, and the least width where that is greater.
pub open spec fn is_column_width(widths: Seq<usize>, width: usize) -> bool {
    &&& width >= 12
    &&& forall|i: int| 0 <= i < widths.len() ==> widths[i] <= width
    &&& (width == 12 || exists|i: int| 0 <= i < widths.len() && widths[i] == width)
}

/// The width of a column that holds texts of the given widths.
pub fn column_width(widths: &[usize]) -> (width: usize)
    ensures
        is_column_width(widths@, width),
{
    let mut width: usize = MIN_HOST_COLUMN;
    let mut i: usize = 0;
    while i < widths.len()
        invariant
            i <= widths@.len(),
            is_column_width(widths@.take(i as int), width),
        decreases widths@.len() - i,
    {
        let ghost before = widths@.take(i as int);
        let ghost after = widths@.take(i + 1);
        let ghost old_width = width;
        if widths[i] > width {
            width = widths[i];
        }
        proof {
            assert(after[i as int] == widths@[i as int]);
            assert forall|j: int| 0 <= j < after.len() implies after[j] <= width by {
                if j < i {
                    assert(before[j] == after[j]);
                }
            }
            if width != 12 && width == old_width {
                let k = choose|k: int| 0 <= k < before.len() && before[k] == old_width;
                assert(after[k] == width);
            }
        }
        i = i + 1;
    }
    assert(widths@.take(i as int) =~= widths@);
    width
}

/// The widths of the names of the hosts, as the user wrote them.
pub open spec fn host_widths(table: Seq<HostInfo>) -> Seq<usize> {
    Seq::new(table.len(), |i: int| terminal_width(table[i].host_str@))
}

/// The width of the host column of the table: wide enough for every host's
/// name, and for the heading.
pub fn host_column_width(hinfos: &[HostInfo]) -> (width: usize)
    ensures
        is_column_width(host_widths(hinfos@), width),
{
    let mut widths: Vec<usize> = Vec::with_capacity(hinfos.len());
    let mut i: usize = 0;
    while i < hinfos.len()
        invariant
            i <= hinfos@.len(),
            widths@ == host_widths(hinfos@).take(i as int),
        decreases hinfos@.len() - i,
    {
        widths.push(measure_text_width(hinfos[i].host_str.as_str()));
        assert(widths@ =~= host_widths(hinfos@).take(i + 1));
        i = i + 1;
    }
    assert(host_widths(hinfos@).take(i as int) =~= host_widths(hinfos@));
    column_width(widths.as_slice())
}

} // verus!
