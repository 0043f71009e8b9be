//! Single-character classification: the three-level trie maps every scalar
//! value to a base width class, and an escape class defers to an explicit
//! list of codepoint cases that also seeds the scanner's carried state.
use vstd::prelude::*;

use crate::oracle::in_ranges;
use crate::oracle::ranges_contain;
use crate::scanstate;
use crate::tables::NON_TRANSPARENT_ZERO_WIDTHS_HI;
use crate::tables::NON_TRANSPARENT_ZERO_WIDTHS_LO;
use crate::tables::WIDTH_LEAVES;
use crate::tables::WIDTH_MIDDLE;
use crate::tables::WIDTH_ROOT;
use crate::tables::WIDTH_ROOT_CJK;
use crate::tables::lemma_non_transparent_zero_widths_sorted;

verus! {

/// Bounds of the index arithmetic in the trie walk.
pub(crate) proof fn lemma_trie_masks()
    by (bit_vector)
    ensures
        forall|x: u32| x <= 0x10FFFF ==> #[trigger] (x >> 13) < 136,
        forall|x: u32| #[trigger] ((x >> 7) & 0x3F) < 64,
        forall|x: u32| #[trigger] ((x >> 2) & 0x1F) < 32,
        forall|x: u32| #[trigger] (2 * (x & 3)) < 8,
        forall|y: u32, s: u32| s < 32 ==> #[trigger] ((y >> s) & 3) < 4,
{
}

/// The two-bit width class the trie assigns to `c`: a width in 0..=2, or 3,
/// the escape class resolved by the case list in `spec_lookup_width`.
pub open(crate) spec fn trie_width_class(c: char, cjk: bool) -> u32 {
    let cp = c as u32;
    let t1 = if cjk {
        WIDTH_ROOT_CJK[(cp >> 13) as int]
    } else {
        WIDTH_ROOT[(cp >> 13) as int]
    };
    let t2 = WIDTH_MIDDLE[t1 as int][((cp >> 7) & 0x3F) as int];
    let packed = WIDTH_LEAVES[t2 as int][((cp >> 2) & 0x1F) as int];
    ((packed as u32) >> (2 * (cp & 3))) & 3
}

/// The base width of `c` in isolation together with the scan-state tag it
/// seeds, under the narrow (`cjk == false`) or wide (`cjk == true`) policy.
pub open(crate) spec fn spec_lookup_width(c: char, cjk: bool) -> (u8, u16) {
    let cls = trie_width_class(c, cjk);
    if cls < 3 {
        (cls as u8, scanstate::DEFAULT)
    } else {
        let cp = c as u32;
        if cp == 0x0A {
            (1u8, scanstate::LINE_FEED)
        } else if cjk && cp == 0x338 {
            (0u8, scanstate::COMBINING_LONG_SOLIDUS_OVERLAY)
        } else if cp == 0x5DC {
            (1u8, scanstate::HEBREW_LETTER_LAMED)
        } else if 0x622 <= cp <= 0x882 {
            (1u8, scanstate::JOINING_GROUP_ALEF)
        } else if 0x1780 <= cp <= 0x17AF {
            (1u8, scanstate::KHMER_COENG_ELIGIBLE_LETTER)
        } else if cp == 0x17D8 {
            (3u8, scanstate::DEFAULT)
        } else if cp == 0x1A10 {
            (1u8, scanstate::BUGINESE_LETTER_YA)
        } else if 0x2D31 <= cp <= 0x2D6F {
            (1u8, scanstate::TIFINAGH_CONSONANT)
        } else if 0xA4FC <= cp <= 0xA4FD {
            (1u8, scanstate::LISU_TONE_LETTER_MYA_NA_JEU)
        } else if (!cjk && cp == 0xFE01) || (cjk && 0xFE00 <= cp <= 0xFE02) {
            (0u8, scanstate::VARIATION_SELECTOR_1_2_OR_3)
        } else if !cjk && cp == 0xFE0E {
            (0u8, scanstate::VARIATION_SELECTOR_15)
        } else if cp == 0xFE0F {
            (0u8, scanstate::VARIATION_SELECTOR_16)
        } else if cp == 0x10C03 {
            (1u8, scanstate::OLD_TURKIC_LETTER_ORKHON_I)
        } else if cp == 0x16D67 {
            (1u8, scanstate::KIRAT_RAI_VOWEL_SIGN_E)
        } else if cp == 0x16D68 {
            (1u8, scanstate::KIRAT_RAI_VOWEL_SIGN_AI)
        } else if 0x1F1E6 <= cp <= 0x1F1FF {
            (1u8, scanstate::REGIONAL_INDICATOR)
        } else if 0x1F3FB <= cp <= 0x1F3FF {
            (2u8, scanstate::EMOJI_MODIFIER)
        } else {
            (2u8, scanstate::EMOJI_PRESENTATION)
        }
    }
}

/// The base width a lookup reports is at most 3.
pub(crate) proof fn lemma_lookup_width_le_3(c: char, cjk: bool)
    ensures
        spec_lookup_width(c, cjk).0 <= 3,
{
    lemma_trie_masks();
}

/// Walks the trie and, for the escape class, the explicit case list.
pub(crate) fn lookup_width(c: char, cjk: bool) -> (r: (u8, u16))
    ensures
        r == spec_lookup_width(c, cjk),
        r.0 <= 3,
{
    proof {
        lemma_trie_masks();
    }
    let cp = c as u32;
    let t1 = if cjk {
        WIDTH_ROOT_CJK[(cp >> 13) as usize]
    } else {
        WIDTH_ROOT[(cp >> 13) as usize]
    };
    let t2 = WIDTH_MIDDLE[t1 as usize][((cp >> 7) & 0x3F) as usize];
    let packed = WIDTH_LEAVES[t2 as usize][((cp >> 2) & 0x1F) as usize];
    let cls = ((packed as u32) >> (2 * (cp & 3))) & 3;
    if cls < 3 {
        (cls as u8, scanstate::DEFAULT)
    } else {
        if cp == 0x0A {
            (1, scanstate::LINE_FEED)
        } else if cjk && cp == 0x338 {
            (0, scanstate::COMBINING_LONG_SOLIDUS_OVERLAY)
        } else if cp == 0x5DC {
            (1, scanstate::HEBREW_LETTER_LAMED)
        } else if 0x622 <= cp && cp <= 0x882 {
            (1, scanstate::JOINING_GROUP_ALEF)
        } else if 0x1780 <= cp && cp <= 0x17AF {
            (1, scanstate::KHMER_COENG_ELIGIBLE_LETTER)
        } else if cp == 0x17D8 {
            (3, scanstate::DEFAULT)
        } else if cp == 0x1A10 {
            (1, scanstate::BUGINESE_LETTER_YA)
        } else if 0x2D31 <= cp && cp <= 0x2D6F {
            (1, scanstate::TIFINAGH_CONSONANT)
        } else if 0xA4FC <= cp && cp <= 0xA4FD {
            (1, scanstate::LISU_TONE_LETTER_MYA_NA_JEU)
        } else if (!cjk && cp == 0xFE01) || (cjk && 0xFE00 <= cp && cp <= 0xFE02) {
            (0, scanstate::VARIATION_SELECTOR_1_2_OR_3)
        } else if !cjk && cp == 0xFE0E {
            (0, scanstate::VARIATION_SELECTOR_15)
        } else if cp == 0xFE0F {
            (0, scanstate::VARIATION_SELECTOR_16)
        } else if cp == 0x10C03 {
            (1, scanstate::OLD_TURKIC_LETTER_ORKHON_I)
        } else if cp == 0x16D67 {
            (1, scanstate::KIRAT_RAI_VOWEL_SIGN_E)
        } else if cp == 0x16D68 {
            (1, scanstate::KIRAT_RAI_VOWEL_SIGN_AI)
        } else if 0x1F1E6 <= cp && cp <= 0x1F1FF {
            (1, scanstate::REGIONAL_INDICATOR)
        } else if 0x1F3FB <= cp && cp <= 0x1F3FF {
            (2, scanstate::EMOJI_MODIFIER)
        } else {
            (2, scanstate::EMOJI_PRESENTATION)
        }
    }
}

/// Zero-width characters that are not joining-transparent; these interrupt
/// the Arabic Lam-Alef chain.
pub open(crate) spec fn transparent_zero_width(c: char) -> bool {
    spec_lookup_width(c, false).0 == 0 && !in_ranges(
        NON_TRANSPARENT_ZERO_WIDTHS_LO@,
        NON_TRANSPARENT_ZERO_WIDTHS_HI@,
        c as u32,
    )
}

/// Whether `c` is a zero-width character with transparent joining type;
/// such characters do not interrupt the Arabic Lam-Alef ligature.
pub(crate) fn is_transparent_zero_width(c: char) -> (r: bool)
    ensures
        r == transparent_zero_width(c),
{
    if lookup_width(c, false).0 != 0 {
        false
    } else {
        proof {
            lemma_non_transparent_zero_widths_sorted();
        }
        !ranges_contain(
            NON_TRANSPARENT_ZERO_WIDTHS_LO.as_slice(),
            NON_TRANSPARENT_ZERO_WIDTHS_HI.as_slice(),
            c as u32,
        )
    }
}

/// The base width of `c` under the given policy, or `None` for a control
/// character: scalar values below U+0020 and in U+007F..U+00A0 have no
/// defined width of their own.
pub open(crate) spec fn spec_single_char_width(c: char, cjk: bool) -> Option<usize> {
    let cp = c as u32;
    if cp < 0x20 {
        None
    } else if cp < 0x7F {
        Some(1usize)
    } else if cp < 0xA0 {
        None
    } else {
        Some(spec_lookup_width(c, cjk).0 as usize)
    }
}

/// The width of `c` in columns, ignoring any surrounding context, with
/// ambiguous-width characters treated as narrow; `None` for a control
/// character. Every printable ASCII character has width 1.
pub fn single_char_width(c: char) -> (w: Option<usize>)
    ensures
        w == spec_single_char_width(c, false),
        0x20 <= (c as u32) < 0x7F ==> w == Some(1usize),
        (c as u32) < 0x20 || 0x7F <= (c as u32) < 0xA0 ==> w is None,
        w is Some ==> w->0 <= 3,
{
    proof {
        lemma_lookup_width_le_3(c, false);
    }
    single_char_width_with(c, false)
}

/// The width of `c` in columns, ignoring any surrounding context, with
/// ambiguous-width characters treated as wide; `None` for a control
/// character. Every printable ASCII character has width 1.
pub fn single_char_width_cjk(c: char) -> (w: Option<usize>)
    ensures
        w == spec_single_char_width(c, true),
        0x20 <= (c as u32) < 0x7F ==> w == Some(1usize),
        (c as u32) < 0x20 || 0x7F <= (c as u32) < 0xA0 ==> w is None,
        w is Some ==> w->0 <= 3,
{
    proof {
        lemma_lookup_width_le_3(c, true);
    }
    single_char_width_with(c, true)
}

/// Shared body of the two single-character entry points.
fn single_char_width_with(c: char, cjk: bool) -> (w: Option<usize>)
    ensures
        w == spec_single_char_width(c, cjk),
{
    let cp = c as u32;
    if cp < 0x20 {
        None
    } else if cp < 0x7F {
        Some(1)
    } else if cp < 0xA0 {
        None
    } else {
        Some(lookup_width(c, cjk).0 as usize)
    }
}

} // verus!
