//! The carried scan state: a small bit-packed tag describing what the
//! already-consumed suffix of the string expects from the character to its
//! left. The layout, from the top bit down:
//!
//! - bit 15: an emoji presentation selector (U+FE0F) is pending;
//! - bit 14: a text presentation selector (U+FE0E) is pending;
//! - bit 13: the tag survives a variation selector (the set/unset operations
//!   keep its other bits instead of replacing the whole tag);
//! - bit 12 and 11: a script-ligature family tag; when bit 11 is set,
//!   ligature-transparent characters pass through without disturbing it;
//! - bit 10: a zero width joiner has been seen;
//! - bit 9: one of the selectors U+FE00..U+FE02 is pending;
//! - bits 0-8: which pending sequence of the family this is.
use vstd::prelude::*;

verus! {

/// No pending sequence.
pub(crate) const DEFAULT: u16 = 0;

/// A line feed was consumed; a carriage return to its left collapses.
pub(crate) const LINE_FEED: u16 = 0b0000000000000001;

pub(crate) const EMOJI_MODIFIER: u16 = 0b0000000000000010;

pub(crate) const REGIONAL_INDICATOR: u16 = 0b0000000000000011;

pub(crate) const SEVERAL_REGIONAL_INDICATOR: u16 = 0b0000000000000100;

pub(crate) const EMOJI_PRESENTATION: u16 = 0b0000000000000101;

pub(crate) const ZWJ_EMOJI_PRESENTATION: u16 = 0b0001000000000110;

pub(crate) const VS16_ZWJ_EMOJI_PRESENTATION: u16 = 0b1001000000000110;

pub(crate) const KEYCAP_ZWJ_EMOJI_PRESENTATION: u16 = 0b0001000000000111;

pub(crate) const REGIONAL_INDICATOR_ZWJ_PRESENTATION: u16 = 0b0000000000001001;

pub(crate) const EVEN_REGIONAL_INDICATOR_ZWJ_PRESENTATION: u16 = 0b0000000000001010;

pub(crate) const ODD_REGIONAL_INDICATOR_ZWJ_PRESENTATION: u16 = 0b0000000000001011;

pub(crate) const TAG_END_ZWJ_EMOJI_PRESENTATION: u16 = 0b0000000000010000;

pub(crate) const TAG_D1_END_ZWJ_EMOJI_PRESENTATION: u16 = 0b0000000000010001;

pub(crate) const TAG_D2_END_ZWJ_EMOJI_PRESENTATION: u16 = 0b0000000000010010;

pub(crate) const TAG_D3_END_ZWJ_EMOJI_PRESENTATION: u16 = 0b0000000000010011;

pub(crate) const TAG_A1_END_ZWJ_EMOJI_PRESENTATION: u16 = 0b0000000000011001;

pub(crate) const TAG_A2_END_ZWJ_EMOJI_PRESENTATION: u16 = 0b0000000000011010;

pub(crate) const TAG_A3_END_ZWJ_EMOJI_PRESENTATION: u16 = 0b0000000000011011;

pub(crate) const TAG_A4_END_ZWJ_EMOJI_PRESENTATION: u16 = 0b0000000000011100;

pub(crate) const TAG_A5_END_ZWJ_EMOJI_PRESENTATION: u16 = 0b0000000000011101;

pub(crate) const TAG_A6_END_ZWJ_EMOJI_PRESENTATION: u16 = 0b0000000000011110;

pub(crate) const KIRAT_RAI_VOWEL_SIGN_E: u16 = 0b0000000000100000;

pub(crate) const KIRAT_RAI_VOWEL_SIGN_AI: u16 = 0b0000000000100001;

pub(crate) const VARIATION_SELECTOR_1_2_OR_3: u16 = 0b0000001000000000;

pub(crate) const VARIATION_SELECTOR_15: u16 = 0b0100000000000000;

pub(crate) const VARIATION_SELECTOR_16: u16 = 0b1000000000000000;

pub(crate) const JOINING_GROUP_ALEF: u16 = 0b0011000011111111;

pub(crate) const COMBINING_LONG_SOLIDUS_OVERLAY: u16 = 0b0011110011111111;

pub(crate) const SOLIDUS_OVERLAY_ALEF: u16 = 0b0011100011111111;

pub(crate) const HEBREW_LETTER_LAMED: u16 = 0b0011100000000000;

pub(crate) const ZWJ_HEBREW_LETTER_LAMED: u16 = 0b0011110000000000;

pub(crate) const BUGINESE_LETTER_YA: u16 = 0b0011100000000001;

pub(crate) const ZWJ_BUGINESE_LETTER_YA: u16 = 0b0011110000000001;

pub(crate) const BUGINESE_VOWEL_SIGN_I_ZWJ_LETTER_YA: u16 = 0b0011110000000010;

pub(crate) const TIFINAGH_CONSONANT: u16 = 0b0011100000000011;

pub(crate) const ZWJ_TIFINAGH_CONSONANT: u16 = 0b0011110000000011;

pub(crate) const TIFINAGH_JOINER_CONSONANT: u16 = 0b0011110000000100;

pub(crate) const LISU_TONE_LETTER_MYA_NA_JEU: u16 = 0b0011110000000101;

pub(crate) const OLD_TURKIC_LETTER_ORKHON_I: u16 = 0b0011100000000110;

pub(crate) const ZWJ_OLD_TURKIC_LETTER_ORKHON_I: u16 = 0b0011110000000110;

pub(crate) const KHMER_COENG_ELIGIBLE_LETTER: u16 = 0b0011110000000111;

/// The bit that lets a tag survive a variation selector.
pub(crate) const KEEP_UNDER_SELECTOR_MASK: u16 = 0b0010000000000000;

/// The bit that lets ligature-transparent characters pass through.
pub(crate) const TRANSPARENT_PASS_MASK: u16 = 0b0000100000000000;

/// Whether ligature-transparent characters pass through this state
/// without disturbing the pending sequence.
#[verifier::allow_in_spec]
pub(crate) fn state_is_ligature_transparent(st: u16) -> bool
    returns
        (st & TRANSPARENT_PASS_MASK) == TRANSPARENT_PASS_MASK,
{
    (st & TRANSPARENT_PASS_MASK) == TRANSPARENT_PASS_MASK
}

/// Records that a zero width joiner was seen inside the pending sequence.
#[verifier::allow_in_spec]
pub(crate) fn state_set_zwj_bit(st: u16) -> u16
    returns
        st | 0b0000010000000000u16,
{
    st | 0b0000010000000000u16
}

/// Whether an emoji presentation selector is pending.
#[verifier::allow_in_spec]
pub(crate) fn state_is_emoji_presentation(st: u16) -> bool
    returns
        (st & VARIATION_SELECTOR_16) == VARIATION_SELECTOR_16,
{
    (st & VARIATION_SELECTOR_16) == VARIATION_SELECTOR_16
}

/// Whether the pending emoji presentation sequence continues a zero width
/// joiner chain, whose width was already counted.
#[verifier::allow_in_spec]
pub(crate) fn state_is_zwj_emoji_presentation(st: u16) -> bool
    returns
        (st & 0b1011000000000000u16) == 0b1001000000000000u16,
{
    (st & 0b1011000000000000u16) == 0b1001000000000000u16
}

/// Records a pending emoji presentation selector. A tag that survives
/// variation selectors, and the keycap chain, keep their other bits.
#[verifier::allow_in_spec]
pub(crate) fn state_set_emoji_presentation(st: u16) -> u16
    returns
        (if (st & KEEP_UNDER_SELECTOR_MASK) == KEEP_UNDER_SELECTOR_MASK || (st
            & 0b1001000000000000u16) == 0b0001000000000000u16 {
            st | VARIATION_SELECTOR_16
        } else {
            VARIATION_SELECTOR_16
        }),
{
    if (st & KEEP_UNDER_SELECTOR_MASK) == KEEP_UNDER_SELECTOR_MASK || (st & 0b1001000000000000u16)
        == 0b0001000000000000u16 {
        st | VARIATION_SELECTOR_16
    } else {
        VARIATION_SELECTOR_16
    }
}

/// Withdraws a pending emoji presentation selector.
#[verifier::allow_in_spec]
pub(crate) fn state_unset_emoji_presentation(st: u16) -> u16
    returns
        (if (st & KEEP_UNDER_SELECTOR_MASK) == KEEP_UNDER_SELECTOR_MASK {
            st & !VARIATION_SELECTOR_16
        } else {
            DEFAULT
        }),
{
    if (st & KEEP_UNDER_SELECTOR_MASK) == KEEP_UNDER_SELECTOR_MASK {
        st & !VARIATION_SELECTOR_16
    } else {
        DEFAULT
    }
}

/// Whether a text presentation selector is pending.
#[verifier::allow_in_spec]
pub(crate) fn state_is_text_presentation(st: u16) -> bool
    returns
        (st & VARIATION_SELECTOR_15) == VARIATION_SELECTOR_15,
{
    (st & VARIATION_SELECTOR_15) == VARIATION_SELECTOR_15
}

/// Records a pending text presentation selector.
#[verifier::allow_in_spec]
pub(crate) fn state_set_text_presentation(st: u16) -> u16
    returns
        (if (st & KEEP_UNDER_SELECTOR_MASK) == KEEP_UNDER_SELECTOR_MASK {
            st | VARIATION_SELECTOR_15
        } else {
            VARIATION_SELECTOR_15
        }),
{
    if (st & KEEP_UNDER_SELECTOR_MASK) == KEEP_UNDER_SELECTOR_MASK {
        st | VARIATION_SELECTOR_15
    } else {
        VARIATION_SELECTOR_15
    }
}

/// Withdraws a pending text presentation selector.
#[verifier::allow_in_spec]
pub(crate) fn state_unset_text_presentation(st: u16) -> u16
    returns
        st & !VARIATION_SELECTOR_15,
{
    st & !VARIATION_SELECTOR_15
}

/// Whether one of the selectors U+FE00..U+FE02 is pending.
#[verifier::allow_in_spec]
pub(crate) fn state_is_vs1_2_3(st: u16) -> bool
    returns
        (st & VARIATION_SELECTOR_1_2_OR_3) == VARIATION_SELECTOR_1_2_OR_3,
{
    (st & VARIATION_SELECTOR_1_2_OR_3) == VARIATION_SELECTOR_1_2_OR_3
}

/// Records a pending U+FE00..U+FE02 selector.
#[verifier::allow_in_spec]
pub(crate) fn state_set_vs1_2_3(st: u16) -> u16
    returns
        (if (st & KEEP_UNDER_SELECTOR_MASK) == KEEP_UNDER_SELECTOR_MASK {
            st | VARIATION_SELECTOR_1_2_OR_3
        } else {
            VARIATION_SELECTOR_1_2_OR_3
        }),
{
    if (st & KEEP_UNDER_SELECTOR_MASK) == KEEP_UNDER_SELECTOR_MASK {
        st | VARIATION_SELECTOR_1_2_OR_3
    } else {
        VARIATION_SELECTOR_1_2_OR_3
    }
}

/// Withdraws a pending U+FE00..U+FE02 selector.
#[verifier::allow_in_spec]
pub(crate) fn state_unset_vs1_2_3(st: u16) -> u16
    returns
        st & !VARIATION_SELECTOR_1_2_OR_3,
{
    st & !VARIATION_SELECTOR_1_2_OR_3
}

} // verus!
