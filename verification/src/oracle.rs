//! Range oracle: membership tests over sorted, disjoint, inclusive codepoint
//! ranges, answered by binary search over the tables in `tables`.
use vstd::prelude::*;

use crate::tables::EMOJI_MODIFIER_BASE_HI;
use crate::tables::EMOJI_MODIFIER_BASE_LO;
use crate::tables::EMOJI_PRESENTATION_HI;
use crate::tables::EMOJI_PRESENTATION_LO;
use crate::tables::SOLIDUS_TRANSPARENT_HI;
use crate::tables::SOLIDUS_TRANSPARENT_LO;
use crate::tables::TEXT_PRESENTATION_HI;
use crate::tables::TEXT_PRESENTATION_LO;
use crate::tables::lemma_emoji_modifier_base_sorted;
use crate::tables::lemma_emoji_presentation_sorted;
use crate::tables::lemma_solidus_transparent_sorted;
use crate::tables::lemma_text_presentation_sorted;

verus! {

broadcast use vstd::array::group_array_axioms;

/// A pair of columns `lo`/`hi` describes inclusive ranges `[lo[i], hi[i]]`
/// that are in ascending order and pairwise disjoint.
pub open(crate) spec fn ranges_sorted(lo: Seq<u32>, hi: Seq<u32>) -> bool {
    &&& lo.len() == hi.len()
    &&& forall|i: int| 0 <= i < lo.len() ==> lo[i] <= hi[i]
    &&& forall|i: int| 0 <= i < lo.len() - 1 ==> hi[i] < lo[i + 1]
}

/// Whether `cp` falls inside one of the inclusive ranges.
pub open(crate) spec fn in_ranges(lo: Seq<u32>, hi: Seq<u32>, cp: u32) -> bool {
    exists|i: int| #![trigger lo[i]] 0 <= i < lo.len() && lo[i] <= cp <= hi[i]
}

/// In a sorted range table, both columns grow with the index.
proof fn lemma_ranges_ordered(lo: Seq<u32>, hi: Seq<u32>, i: int, j: int)
    requires
        ranges_sorted(lo, hi),
        0 <= i <= j < lo.len(),
    ensures
        hi[i] <= hi[j],
        lo[i] <= lo[j],
    decreases j - i,
{
    if i < j {
        lemma_ranges_ordered(lo, hi, i + 1, j);
    }
}

/// Binary search over a sorted range table.
pub(crate) fn ranges_contain(lo: &[u32], hi: &[u32], cp: u32) -> (r: bool)
    requires
        ranges_sorted(lo@, hi@),
    ensures
        r == in_ranges(lo@, hi@, cp),
{
    let mut a: usize = 0;
    let mut b: usize = lo.len();
    while a < b
        invariant
            a <= b <= lo@.len(),
            ranges_sorted(lo@, hi@),
            forall|i: int| 0 <= i < a ==> hi@[i] < cp,
            forall|i: int| b <= i < lo@.len() ==> cp < lo@[i],
        decreases b - a,
    {
        let m = a + (b - a) / 2;
        if hi[m] < cp {
            proof {
                assert forall|i: int| 0 <= i <= m implies hi@[i] < cp by {
                    lemma_ranges_ordered(lo@, hi@, i, m as int);
                }
            }
            a = m + 1;
        } else if cp < lo[m] {
            proof {
                assert forall|i: int| m <= i < lo@.len() implies cp < lo@[i] by {
                    lemma_ranges_ordered(lo@, hi@, m as int, i);
                }
            }
            b = m;
        } else {
            proof {
                assert(lo@[m as int] <= cp <= hi@[m as int]);
            }
            return true;
        }
    }
    false
}

/// Default-ignorable combining marks and the zero width joiner: characters
/// that pass through a pending non-Arabic ligature without disturbing it.
pub open(crate) spec fn ligature_transparent(c: char) -> bool {
    let cp = c as u32;
    ||| cp == 0x34F
    ||| 0x17B4 <= cp <= 0x17B5
    ||| 0x180B <= cp <= 0x180D
    ||| cp == 0x180F
    ||| cp == 0x200D
    ||| 0xFE00 <= cp <= 0xFE0F
    ||| 0xE0100 <= cp <= 0xE01EF
}

/// Characters that do not interrupt the effect of a combining long solidus
/// overlay on its base: every constituent of the canonical decomposition is
/// either of combining class above one or a default-ignorable combining mark.
pub open(crate) spec fn solidus_transparent(c: char) -> bool {
    ligature_transparent(c) || in_ranges(
        SOLIDUS_TRANSPARENT_LO@,
        SOLIDUS_TRANSPARENT_HI@,
        c as u32,
    )
}

/// Characters that form an emoji presentation sequence with a following
/// U+FE0F; such a sequence has width two.
pub open(crate) spec fn emoji_presentation_start(c: char) -> bool {
    in_ranges(EMOJI_PRESENTATION_LO@, EMOJI_PRESENTATION_HI@, c as u32)
}

/// Characters with default emoji presentation, outside the enclosed
/// ideographs, that form a text presentation sequence with a following
/// U+FE0E; such a sequence has width one under the narrow policy.
pub open(crate) spec fn text_presentation_start(c: char) -> bool {
    in_ranges(TEXT_PRESENTATION_LO@, TEXT_PRESENTATION_HI@, c as u32)
}

/// Emoji modifier bases: emoji whose presentation a following skin-tone
/// modifier changes, forming a width-two modifier sequence.
pub open(crate) spec fn emoji_modifier_base(c: char) -> bool {
    in_ranges(EMOJI_MODIFIER_BASE_LO@, EMOJI_MODIFIER_BASE_HI@, c as u32)
}

/// Whether `c` is a default-ignorable combining mark or the zero width
/// joiner; these do not interrupt non-Arabic ligatures.
pub(crate) fn is_ligature_transparent(c: char) -> (r: bool)
    ensures
        r == ligature_transparent(c),
{
    let cp = c as u32;
    cp == 0x34F || (0x17B4 <= cp && cp <= 0x17B5) || (0x180B <= cp && cp <= 0x180D) || cp == 0x180F
        || cp == 0x200D || (0xFE00 <= cp && cp <= 0xFE0F) || (0xE0100 <= cp && cp <= 0xE01EF)
}

/// Whether `c` is transparent with respect to the effect of U+0338
/// COMBINING LONG SOLIDUS OVERLAY on its base character.
pub(crate) fn is_solidus_transparent(c: char) -> (r: bool)
    ensures
        r == solidus_transparent(c),
{
    proof {
        lemma_solidus_transparent_sorted();
    }
    is_ligature_transparent(c) || ranges_contain(
        SOLIDUS_TRANSPARENT_LO.as_slice(),
        SOLIDUS_TRANSPARENT_HI.as_slice(),
        c as u32,
    )
}

/// Whether `c` forms an emoji presentation sequence when followed by
/// U+FE0F. Emoji presentation sequences are considered to have width 2.
pub fn starts_emoji_presentation_seq(c: char) -> (r: bool)
    ensures
        r == emoji_presentation_start(c),
{
    proof {
        lemma_emoji_presentation_sorted();
    }
    ranges_contain(EMOJI_PRESENTATION_LO.as_slice(), EMOJI_PRESENTATION_HI.as_slice(), c as u32)
}

/// Whether `c` has default emoji presentation, is not ideographic, and forms
/// a text presentation sequence when followed by U+FE0E. Such sequences are
/// considered to have width 1.
pub fn starts_non_ideographic_text_presentation_seq(c: char) -> (r: bool)
    ensures
        r == text_presentation_start(c),
{
    proof {
        lemma_text_presentation_sorted();
    }
    ranges_contain(TEXT_PRESENTATION_LO.as_slice(), TEXT_PRESENTATION_HI.as_slice(), c as u32)
}

/// Whether `c` is an emoji modifier base.
pub fn is_emoji_modifier_base(c: char) -> (r: bool)
    ensures
        r == emoji_modifier_base(c),
{
    proof {
        lemma_emoji_modifier_base_sorted();
    }
    ranges_contain(EMOJI_MODIFIER_BASE_LO.as_slice(), EMOJI_MODIFIER_BASE_HI.as_slice(), c as u32)
}

} // verus!
