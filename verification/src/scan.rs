//! The sequence-aware scanner: a string's characters are folded from the end
//! toward the start, carrying a scan-state tag, and each character emits a
//! signed width delta; the deltas sum (wrapping) to the string's width.
use vstd::prelude::*;
use vstd::std_specs::iter::IteratorSpec;

use crate::classify::lookup_width;
use crate::classify::spec_lookup_width;
use crate::classify::is_transparent_zero_width;
use crate::classify::transparent_zero_width;
use crate::oracle::emoji_modifier_base;
use crate::oracle::emoji_presentation_start;
use crate::oracle::is_emoji_modifier_base;
use crate::oracle::is_ligature_transparent;
use crate::oracle::is_solidus_transparent;
use crate::oracle::ligature_transparent;
use crate::oracle::solidus_transparent;
use crate::oracle::starts_emoji_presentation_seq;
use crate::oracle::starts_non_ideographic_text_presentation_seq;
use crate::oracle::text_presentation_start;
use crate::scanstate;
use crate::scanstate::state_is_emoji_presentation;
use crate::scanstate::state_is_ligature_transparent;
use crate::scanstate::state_is_text_presentation;
use crate::scanstate::state_is_vs1_2_3;
use crate::scanstate::state_is_zwj_emoji_presentation;
use crate::scanstate::state_set_emoji_presentation;
use crate::scanstate::state_set_text_presentation;
use crate::scanstate::state_set_vs1_2_3;
use crate::scanstate::state_set_zwj_bit;
use crate::scanstate::state_unset_emoji_presentation;
use crate::scanstate::state_unset_text_presentation;
use crate::scanstate::state_unset_vs1_2_3;

verus! {

/// A character with joining group Lam, which opens the Lam-Alef ligature.
#[verifier::allow_in_spec]
pub(crate) fn is_lam(cp: u32) -> bool
    returns
        cp == 0x644 || (0x6B5 <= cp && cp <= 0x6B8) || cp == 0x76A || cp == 0x8A6 || cp == 0x8C7,
{
    cp == 0x644 || (0x6B5 <= cp && cp <= 0x6B8) || cp == 0x76A || cp == 0x8A6 || cp == 0x8C7
}

/// One of the 26 regional indicator symbol letters, which pair into flags.
#[verifier::allow_in_spec]
pub(crate) fn is_regional_indicator(cp: u32) -> bool
    returns
        0x1F1E6 <= cp && cp <= 0x1F1FF,
{
    0x1F1E6 <= cp && cp <= 0x1F1FF
}

/// A Tifinagh consonant, eligible for the bi-consonant ligatures.
#[verifier::allow_in_spec]
pub(crate) fn is_tifinagh_consonant(cp: u32) -> bool
    returns
        (0x2D31 <= cp && cp <= 0x2D65) || cp == 0x2D6F,
{
    (0x2D31 <= cp && cp <= 0x2D65) || cp == 0x2D6F
}

/// A tag letter of a flag-from-tag-name emoji sequence.
#[verifier::allow_in_spec]
pub(crate) fn is_tag_alpha(cp: u32) -> bool
    returns
        0xE0061 <= cp && cp <= 0xE007A,
{
    0xE0061 <= cp && cp <= 0xE007A
}

/// A tag digit of a flag-from-tag-name emoji sequence.
#[verifier::allow_in_spec]
pub(crate) fn is_tag_digit(cp: u32) -> bool
    returns
        0xE0030 <= cp && cp <= 0xE0039,
{
    0xE0030 <= cp && cp <= 0xE0039
}

/// One of the four curly quotation marks whose width the selectors
/// U+FE00..U+FE02 override.
#[verifier::allow_in_spec]
pub(crate) fn is_curly_quote(cp: u32) -> bool
    returns
        cp == 0x2018 || cp == 0x2019 || cp == 0x201C || cp == 0x201D,
{
    cp == 0x2018 || cp == 0x2019 || cp == 0x201C || cp == 0x201D
}

/// The delta and next state once the pending variation selectors have been
/// resolved: ligature-transparent pass-through, then the ordered transition
/// rules, then the single-character lookup.
pub open(crate) spec fn spec_step_rules(c: char, st: u16, cjk: bool) -> (i8, u16) {
    let cp = c as u32;
    if state_is_ligature_transparent(st) && cp == 0x200D {
        (0i8, state_set_zwj_bit(st))
    } else if state_is_ligature_transparent(st) && ligature_transparent(c) {
        (0i8, st)
    } else if cjk && st == scanstate::COMBINING_LONG_SOLIDUS_OVERLAY && solidus_transparent(c) {
        (spec_lookup_width(c, true).0 as i8, scanstate::COMBINING_LONG_SOLIDUS_OVERLAY)
    } else if cjk && st == scanstate::JOINING_GROUP_ALEF && cp == 0x338 {
        (0i8, scanstate::SOLIDUS_OVERLAY_ALEF)
    } else if (st == scanstate::JOINING_GROUP_ALEF || (cjk && st == scanstate::SOLIDUS_OVERLAY_ALEF))
        && is_lam(cp) {
        (0i8, scanstate::DEFAULT)
    } else if st == scanstate::JOINING_GROUP_ALEF && transparent_zero_width(c) {
        (0i8, scanstate::JOINING_GROUP_ALEF)
    } else if st == scanstate::ZWJ_HEBREW_LETTER_LAMED && cp == 0x5D0 {
        (0i8, scanstate::DEFAULT)
    } else if st == scanstate::KHMER_COENG_ELIGIBLE_LETTER && cp == 0x17D2 {
        (-1i8, scanstate::DEFAULT)
    } else if st == scanstate::ZWJ_BUGINESE_LETTER_YA && cp == 0x1A17 {
        (0i8, scanstate::BUGINESE_VOWEL_SIGN_I_ZWJ_LETTER_YA)
    } else if st == scanstate::BUGINESE_VOWEL_SIGN_I_ZWJ_LETTER_YA && cp == 0x1A15 {
        (0i8, scanstate::DEFAULT)
    } else if (st == scanstate::TIFINAGH_CONSONANT || st == scanstate::ZWJ_TIFINAGH_CONSONANT)
        && cp == 0x2D7F {
        (1i8, scanstate::TIFINAGH_JOINER_CONSONANT)
    } else if st == scanstate::ZWJ_TIFINAGH_CONSONANT && is_tifinagh_consonant(cp) {
        (0i8, scanstate::DEFAULT)
    } else if st == scanstate::TIFINAGH_JOINER_CONSONANT && is_tifinagh_consonant(cp) {
        (-1i8, scanstate::DEFAULT)
    } else if st == scanstate::LISU_TONE_LETTER_MYA_NA_JEU && 0xA4F8 <= cp <= 0xA4FB {
        (0i8, scanstate::DEFAULT)
    } else if st == scanstate::ZWJ_OLD_TURKIC_LETTER_ORKHON_I && cp == 0x10C32 {
        (0i8, scanstate::DEFAULT)
    } else if st == scanstate::EMOJI_MODIFIER && emoji_modifier_base(c) {
        (0i8, scanstate::EMOJI_PRESENTATION)
    } else if (st == scanstate::REGIONAL_INDICATOR || st == scanstate::SEVERAL_REGIONAL_INDICATOR)
        && is_regional_indicator(cp) {
        (1i8, scanstate::SEVERAL_REGIONAL_INDICATOR)
    } else if (st == scanstate::EMOJI_PRESENTATION || st == scanstate::SEVERAL_REGIONAL_INDICATOR
        || st == scanstate::EVEN_REGIONAL_INDICATOR_ZWJ_PRESENTATION
        || st == scanstate::ODD_REGIONAL_INDICATOR_ZWJ_PRESENTATION
        || st == scanstate::EMOJI_MODIFIER) && cp == 0x200D {
        (0i8, scanstate::ZWJ_EMOJI_PRESENTATION)
    } else if st == scanstate::ZWJ_EMOJI_PRESENTATION && cp == 0x20E3 {
        (0i8, scanstate::KEYCAP_ZWJ_EMOJI_PRESENTATION)
    } else if st == scanstate::ZWJ_EMOJI_PRESENTATION && is_regional_indicator(cp) {
        (1i8, scanstate::REGIONAL_INDICATOR_ZWJ_PRESENTATION)
    } else if (st == scanstate::REGIONAL_INDICATOR_ZWJ_PRESENTATION
        || st == scanstate::ODD_REGIONAL_INDICATOR_ZWJ_PRESENTATION) && is_regional_indicator(cp) {
        (-1i8, scanstate::EVEN_REGIONAL_INDICATOR_ZWJ_PRESENTATION)
    } else if st == scanstate::EVEN_REGIONAL_INDICATOR_ZWJ_PRESENTATION && is_regional_indicator(
        cp,
    ) {
        (3i8, scanstate::ODD_REGIONAL_INDICATOR_ZWJ_PRESENTATION)
    } else if st == scanstate::ZWJ_EMOJI_PRESENTATION && 0x1F3FB <= cp <= 0x1F3FF {
        (0i8, scanstate::EMOJI_MODIFIER)
    } else if st == scanstate::ZWJ_EMOJI_PRESENTATION && cp == 0xE007F {
        (0i8, scanstate::TAG_END_ZWJ_EMOJI_PRESENTATION)
    } else if st == scanstate::TAG_END_ZWJ_EMOJI_PRESENTATION && is_tag_alpha(cp) {
        (0i8, scanstate::TAG_A1_END_ZWJ_EMOJI_PRESENTATION)
    } else if st == scanstate::TAG_A1_END_ZWJ_EMOJI_PRESENTATION && is_tag_alpha(cp) {
        (0i8, scanstate::TAG_A2_END_ZWJ_EMOJI_PRESENTATION)
    } else if st == scanstate::TAG_A2_END_ZWJ_EMOJI_PRESENTATION && is_tag_alpha(cp) {
        (0i8, scanstate::TAG_A3_END_ZWJ_EMOJI_PRESENTATION)
    } else if st == scanstate::TAG_A3_END_ZWJ_EMOJI_PRESENTATION && is_tag_alpha(cp) {
        (0i8, scanstate::TAG_A4_END_ZWJ_EMOJI_PRESENTATION)
    } else if st == scanstate::TAG_A4_END_ZWJ_EMOJI_PRESENTATION && is_tag_alpha(cp) {
        (0i8, scanstate::TAG_A5_END_ZWJ_EMOJI_PRESENTATION)
    } else if st == scanstate::TAG_A5_END_ZWJ_EMOJI_PRESENTATION && is_tag_alpha(cp) {
        (0i8, scanstate::TAG_A6_END_ZWJ_EMOJI_PRESENTATION)
    } else if (st == scanstate::TAG_END_ZWJ_EMOJI_PRESENTATION
        || st == scanstate::TAG_A1_END_ZWJ_EMOJI_PRESENTATION
        || st == scanstate::TAG_A2_END_ZWJ_EMOJI_PRESENTATION
        || st == scanstate::TAG_A3_END_ZWJ_EMOJI_PRESENTATION
        || st == scanstate::TAG_A4_END_ZWJ_EMOJI_PRESENTATION) && is_tag_digit(cp) {
        (0i8, scanstate::TAG_D1_END_ZWJ_EMOJI_PRESENTATION)
    } else if st == scanstate::TAG_D1_END_ZWJ_EMOJI_PRESENTATION && is_tag_digit(cp) {
        (0i8, scanstate::TAG_D2_END_ZWJ_EMOJI_PRESENTATION)
    } else if st == scanstate::TAG_D2_END_ZWJ_EMOJI_PRESENTATION && is_tag_digit(cp) {
        (0i8, scanstate::TAG_D3_END_ZWJ_EMOJI_PRESENTATION)
    } else if (st == scanstate::TAG_A3_END_ZWJ_EMOJI_PRESENTATION
        || st == scanstate::TAG_A4_END_ZWJ_EMOJI_PRESENTATION
        || st == scanstate::TAG_A5_END_ZWJ_EMOJI_PRESENTATION
        || st == scanstate::TAG_A6_END_ZWJ_EMOJI_PRESENTATION
        || st == scanstate::TAG_D3_END_ZWJ_EMOJI_PRESENTATION) && cp == 0x1F3F4 {
        (0i8, scanstate::EMOJI_PRESENTATION)
    } else if st == scanstate::ZWJ_EMOJI_PRESENTATION && spec_lookup_width(c, cjk).1
        == scanstate::EMOJI_PRESENTATION {
        (0i8, scanstate::EMOJI_PRESENTATION)
    } else if st == scanstate::KIRAT_RAI_VOWEL_SIGN_E && cp == 0x16D63 {
        (0i8, scanstate::DEFAULT)
    } else if st == scanstate::KIRAT_RAI_VOWEL_SIGN_E && cp == 0x16D67 {
        (0i8, scanstate::KIRAT_RAI_VOWEL_SIGN_AI)
    } else if st == scanstate::KIRAT_RAI_VOWEL_SIGN_E && cp == 0x16D68 {
        (1i8, scanstate::KIRAT_RAI_VOWEL_SIGN_E)
    } else if st == scanstate::KIRAT_RAI_VOWEL_SIGN_E && cp == 0x16D69 {
        (0i8, scanstate::DEFAULT)
    } else if st == scanstate::KIRAT_RAI_VOWEL_SIGN_AI && cp == 0x16D63 {
        (0i8, scanstate::DEFAULT)
    } else {
        let r = spec_lookup_width(c, cjk);
        (r.0 as i8, r.1)
    }
}

/// The width delta `c` emits and the state carried further left, given the
/// state `st` that the characters to its right left behind.
pub open(crate) spec fn spec_width_step(c: char, st: u16, cjk: bool) -> (i8, u16) {
    let cp = c as u32;
    if state_is_emoji_presentation(st) && emoji_presentation_start(c) {
        (
            if state_is_zwj_emoji_presentation(st) {
                0i8
            } else {
                2i8
            },
            scanstate::EMOJI_PRESENTATION,
        )
    } else {
        let st = if state_is_emoji_presentation(st) {
            state_unset_emoji_presentation(st)
        } else {
            st
        };
        if cjk && (st == scanstate::COMBINING_LONG_SOLIDUS_OVERLAY || st
            == scanstate::SOLIDUS_OVERLAY_ALEF) && (cp == 0x3C || cp == 0x3D || cp == 0x3E) {
            (2i8, scanstate::DEFAULT)
        } else if cp <= 0xA0 {
            if cp == 0x0A {
                (1i8, scanstate::LINE_FEED)
            } else if cp == 0x0D && st == scanstate::LINE_FEED {
                (0i8, scanstate::DEFAULT)
            } else {
                (1i8, scanstate::DEFAULT)
            }
        } else if st != scanstate::DEFAULT {
            if cp == 0xFE0F {
                (0i8, state_set_emoji_presentation(st))
            } else if (!cjk && cp == 0xFE01) || (cjk && (cp == 0xFE00 || cp == 0xFE02)) {
                (0i8, state_set_vs1_2_3(st))
            } else if !cjk && cp == 0xFE0E {
                (0i8, state_set_text_presentation(st))
            } else if !cjk && state_is_text_presentation(st) && text_presentation_start(c) {
                (1i8, scanstate::DEFAULT)
            } else if !(!cjk && state_is_text_presentation(st)) && state_is_vs1_2_3(st)
                && is_curly_quote(cp) {
                (
                    if cjk {
                        1i8
                    } else {
                        2i8
                    },
                    scanstate::DEFAULT,
                )
            } else {
                let st = if !cjk && state_is_text_presentation(st) {
                    state_unset_text_presentation(st)
                } else if state_is_vs1_2_3(st) {
                    state_unset_vs1_2_3(st)
                } else {
                    st
                };
                spec_step_rules(c, st, cjk)
            }
        } else {
            let r = spec_lookup_width(c, cjk);
            (r.0 as i8, r.1)
        }
    }
}

/// Resolves the transition rules; mirrors `spec_step_rules`.
fn step_rules(c: char, st: u16, cjk: bool) -> (r: (i8, u16))
    ensures
        r == spec_step_rules(c, st, cjk),
{
    let cp = c as u32;
    if state_is_ligature_transparent(st) && cp == 0x200D {
        (0, state_set_zwj_bit(st))
    } else if state_is_ligature_transparent(st) && is_ligature_transparent(c) {
        (0, st)
    } else if cjk && st == scanstate::COMBINING_LONG_SOLIDUS_OVERLAY && is_solidus_transparent(c) {
        (lookup_width(c, true).0 as i8, scanstate::COMBINING_LONG_SOLIDUS_OVERLAY)
    } else if cjk && st == scanstate::JOINING_GROUP_ALEF && cp == 0x338 {
        (0, scanstate::SOLIDUS_OVERLAY_ALEF)
    } else if (st == scanstate::JOINING_GROUP_ALEF || (cjk && st == scanstate::SOLIDUS_OVERLAY_ALEF))
        && is_lam(cp) {
        (0, scanstate::DEFAULT)
    } else if st == scanstate::JOINING_GROUP_ALEF && is_transparent_zero_width(c) {
        (0, scanstate::JOINING_GROUP_ALEF)
    } else if st == scanstate::ZWJ_HEBREW_LETTER_LAMED && cp == 0x5D0 {
        (0, scanstate::DEFAULT)
    } else if st == scanstate::KHMER_COENG_ELIGIBLE_LETTER && cp == 0x17D2 {
        (-1, scanstate::DEFAULT)
    } else if st == scanstate::ZWJ_BUGINESE_LETTER_YA && cp == 0x1A17 {
        (0, scanstate::BUGINESE_VOWEL_SIGN_I_ZWJ_LETTER_YA)
    } else if st == scanstate::BUGINESE_VOWEL_SIGN_I_ZWJ_LETTER_YA && cp == 0x1A15 {
        (0, scanstate::DEFAULT)
    } else if (st == scanstate::TIFINAGH_CONSONANT || st == scanstate::ZWJ_TIFINAGH_CONSONANT)
        && cp == 0x2D7F {
        (1, scanstate::TIFINAGH_JOINER_CONSONANT)
    } else if st == scanstate::ZWJ_TIFINAGH_CONSONANT && is_tifinagh_consonant(cp) {
        (0, scanstate::DEFAULT)
    } else if st == scanstate::TIFINAGH_JOINER_CONSONANT && is_tifinagh_consonant(cp) {
        (-1, scanstate::DEFAULT)
    } else if st == scanstate::LISU_TONE_LETTER_MYA_NA_JEU && 0xA4F8 <= cp && cp <= 0xA4FB {
        (0, scanstate::DEFAULT)
    } else if st == scanstate::ZWJ_OLD_TURKIC_LETTER_ORKHON_I && cp == 0x10C32 {
        (0, scanstate::DEFAULT)
    } else if st == scanstate::EMOJI_MODIFIER && is_emoji_modifier_base(c) {
        (0, scanstate::EMOJI_PRESENTATION)
    } else if (st == scanstate::REGIONAL_INDICATOR || st == scanstate::SEVERAL_REGIONAL_INDICATOR)
        && is_regional_indicator(cp) {
        (1, scanstate::SEVERAL_REGIONAL_INDICATOR)
    } else if (st == scanstate::EMOJI_PRESENTATION || st == scanstate::SEVERAL_REGIONAL_INDICATOR
        || st == scanstate::EVEN_REGIONAL_INDICATOR_ZWJ_PRESENTATION
        || st == scanstate::ODD_REGIONAL_INDICATOR_ZWJ_PRESENTATION
        || st == scanstate::EMOJI_MODIFIER) && cp == 0x200D {
        (0, scanstate::ZWJ_EMOJI_PRESENTATION)
    } else if st == scanstate::ZWJ_EMOJI_PRESENTATION && cp == 0x20E3 {
        (0, scanstate::KEYCAP_ZWJ_EMOJI_PRESENTATION)
    } else if st == scanstate::ZWJ_EMOJI_PRESENTATION && is_regional_indicator(cp) {
        (1, scanstate::REGIONAL_INDICATOR_ZWJ_PRESENTATION)
    } else if (st == scanstate::REGIONAL_INDICATOR_ZWJ_PRESENTATION
        || st == scanstate::ODD_REGIONAL_INDICATOR_ZWJ_PRESENTATION) && is_regional_indicator(cp) {
        (-1, scanstate::EVEN_REGIONAL_INDICATOR_ZWJ_PRESENTATION)
    } else if st == scanstate::EVEN_REGIONAL_INDICATOR_ZWJ_PRESENTATION && is_regional_indicator(
        cp,
    ) {
        (3, scanstate::ODD_REGIONAL_INDICATOR_ZWJ_PRESENTATION)
    } else if st == scanstate::ZWJ_EMOJI_PRESENTATION && 0x1F3FB <= cp && cp <= 0x1F3FF {
        (0, scanstate::EMOJI_MODIFIER)
    } else if st == scanstate::ZWJ_EMOJI_PRESENTATION && cp == 0xE007F {
        (0, scanstate::TAG_END_ZWJ_EMOJI_PRESENTATION)
    } else if st == scanstate::TAG_END_ZWJ_EMOJI_PRESENTATION && is_tag_alpha(cp) {
        (0, scanstate::TAG_A1_END_ZWJ_EMOJI_PRESENTATION)
    } else if st == scanstate::TAG_A1_END_ZWJ_EMOJI_PRESENTATION && is_tag_alpha(cp) {
        (0, scanstate::TAG_A2_END_ZWJ_EMOJI_PRESENTATION)
    } else if st == scanstate::TAG_A2_END_ZWJ_EMOJI_PRESENTATION && is_tag_alpha(cp) {
        (0, scanstate::TAG_A3_END_ZWJ_EMOJI_PRESENTATION)
    } else if st == scanstate::TAG_A3_END_ZWJ_EMOJI_PRESENTATION && is_tag_alpha(cp) {
        (0, scanstate::TAG_A4_END_ZWJ_EMOJI_PRESENTATION)
    } else if st == scanstate::TAG_A4_END_ZWJ_EMOJI_PRESENTATION && is_tag_alpha(cp) {
        (0, scanstate::TAG_A5_END_ZWJ_EMOJI_PRESENTATION)
    } else if st == scanstate::TAG_A5_END_ZWJ_EMOJI_PRESENTATION && is_tag_alpha(cp) {
        (0, scanstate::TAG_A6_END_ZWJ_EMOJI_PRESENTATION)
    } else if (st == scanstate::TAG_END_ZWJ_EMOJI_PRESENTATION
        || st == scanstate::TAG_A1_END_ZWJ_EMOJI_PRESENTATION
        || st == scanstate::TAG_A2_END_ZWJ_EMOJI_PRESENTATION
        || st == scanstate::TAG_A3_END_ZWJ_EMOJI_PRESENTATION
        || st == scanstate::TAG_A4_END_ZWJ_EMOJI_PRESENTATION) && is_tag_digit(cp) {
        (0, scanstate::TAG_D1_END_ZWJ_EMOJI_PRESENTATION)
    } else if st == scanstate::TAG_D1_END_ZWJ_EMOJI_PRESENTATION && is_tag_digit(cp) {
        (0, scanstate::TAG_D2_END_ZWJ_EMOJI_PRESENTATION)
    } else if st == scanstate::TAG_D2_END_ZWJ_EMOJI_PRESENTATION && is_tag_digit(cp) {
        (0, scanstate::TAG_D3_END_ZWJ_EMOJI_PRESENTATION)
    } else if (st == scanstate::TAG_A3_END_ZWJ_EMOJI_PRESENTATION
        || st == scanstate::TAG_A4_END_ZWJ_EMOJI_PRESENTATION
        || st == scanstate::TAG_A5_END_ZWJ_EMOJI_PRESENTATION
        || st == scanstate::TAG_A6_END_ZWJ_EMOJI_PRESENTATION
        || st == scanstate::TAG_D3_END_ZWJ_EMOJI_PRESENTATION) && cp == 0x1F3F4 {
        (0, scanstate::EMOJI_PRESENTATION)
    } else if st == scanstate::ZWJ_EMOJI_PRESENTATION && lookup_width(c, cjk).1
        == scanstate::EMOJI_PRESENTATION {
        (0, scanstate::EMOJI_PRESENTATION)
    } else if st == scanstate::KIRAT_RAI_VOWEL_SIGN_E && cp == 0x16D63 {
        (0, scanstate::DEFAULT)
    } else if st == scanstate::KIRAT_RAI_VOWEL_SIGN_E && cp == 0x16D67 {
        (0, scanstate::KIRAT_RAI_VOWEL_SIGN_AI)
    } else if st == scanstate::KIRAT_RAI_VOWEL_SIGN_E && cp == 0x16D68 {
        (1, scanstate::KIRAT_RAI_VOWEL_SIGN_E)
    } else if st == scanstate::KIRAT_RAI_VOWEL_SIGN_E && cp == 0x16D69 {
        (0, scanstate::DEFAULT)
    } else if st == scanstate::KIRAT_RAI_VOWEL_SIGN_AI && cp == 0x16D63 {
        (0, scanstate::DEFAULT)
    } else {
        let r = lookup_width(c, cjk);
        (r.0 as i8, r.1)
    }
}

/// One scanner step; mirrors `spec_width_step`.
pub(crate) fn width_in_str(c: char, st: u16, cjk: bool) -> (r: (i8, u16))
    ensures
        r == spec_width_step(c, st, cjk),
{
    let cp = c as u32;
    if state_is_emoji_presentation(st) && starts_emoji_presentation_seq(c) {
        (
            if state_is_zwj_emoji_presentation(st) {
                0
            } else {
                2
            },
            scanstate::EMOJI_PRESENTATION,
        )
    } else {
        let st = if state_is_emoji_presentation(st) {
            state_unset_emoji_presentation(st)
        } else {
            st
        };
        if cjk && (st == scanstate::COMBINING_LONG_SOLIDUS_OVERLAY || st
            == scanstate::SOLIDUS_OVERLAY_ALEF) && (cp == 0x3C || cp == 0x3D || cp == 0x3E) {
            (2, scanstate::DEFAULT)
        } else if cp <= 0xA0 {
            if cp == 0x0A {
                (1, scanstate::LINE_FEED)
            } else if cp == 0x0D && st == scanstate::LINE_FEED {
                (0, scanstate::DEFAULT)
            } else {
                (1, scanstate::DEFAULT)
            }
        } else if st != scanstate::DEFAULT {
            if cp == 0xFE0F {
                (0, state_set_emoji_presentation(st))
            } else if (!cjk && cp == 0xFE01) || (cjk && (cp == 0xFE00 || cp == 0xFE02)) {
                (0, state_set_vs1_2_3(st))
            } else if !cjk && cp == 0xFE0E {
                (0, state_set_text_presentation(st))
            } else if !cjk && state_is_text_presentation(st)
                && starts_non_ideographic_text_presentation_seq(c) {
                (1, scanstate::DEFAULT)
            } else if !(!cjk && state_is_text_presentation(st)) && state_is_vs1_2_3(st)
                && is_curly_quote(cp) {
                (
                    if cjk {
                        1
                    } else {
                        2
                    },
                    scanstate::DEFAULT,
                )
            } else {
                let st = if !cjk && state_is_text_presentation(st) {
                    state_unset_text_presentation(st)
                } else if state_is_vs1_2_3(st) {
                    state_unset_vs1_2_3(st)
                } else {
                    st
                };
                step_rules(c, st, cjk)
            }
        } else {
            let r = lookup_width(c, cjk);
            (r.0 as i8, r.1)
        }
    }
}

/// The total width of the character sequence and the state left at its
/// start: the sequence is folded from its end, each character's delta
/// joining the total by wrapping addition.
pub open(crate) spec fn spec_scan(s: Seq<char>, cjk: bool) -> (usize, u16)
    decreases s.len(),
{
    if s.len() == 0 {
        (0usize, scanstate::DEFAULT)
    } else {
        let rest = spec_scan(s.drop_first(), cjk);
        let step = spec_width_step(s[0], rest.1, cjk);
        (vstd::wrapping::usize_specs::wrapping_add_signed(rest.0, step.0 as isize), step.1)
    }
}

/// The display width of a character sequence under the chosen policy.
pub open(crate) spec fn spec_str_width(s: Seq<char>, cjk: bool) -> usize {
    spec_scan(s, cjk).0
}

/// Collects the characters of `s` in order.
fn collect_chars(s: &str) -> (v: Vec<char>)
    ensures
        v@ == s@,
{
    broadcast use vstd::string::axiom_spec_iter;
    broadcast use vstd::string::next_postcondition;

    let mut it = s.chars();
    let mut v: Vec<char> = Vec::new();
    loop
        invariant
            it.obeys_prophetic_iter_laws(),
            v@ + it.remaining() == s@,
            v@.len() <= s@.len(),
        decreases s@.len() - v@.len(),
    {
        match it.next() {
            Some(c) => {
                v.push(c);
                proof {
                    assert(v@ + it.remaining() =~= s@);
                }
            },
            None => {
                proof {
                    assert(v@ =~= s@);
                }
                return v;
            },
        }
    }
}

/// Folds the scanner over `chars` from the end toward the start.
fn scan_chars(chars: &Vec<char>, cjk: bool) -> (r: (usize, u16))
    ensures
        r == spec_scan(chars@, cjk),
{
    let n = chars.len();
    let mut i: usize = n;
    let mut total: usize = 0;
    let mut st: u16 = scanstate::DEFAULT;
    while i > 0
        invariant
            i <= n,
            n == chars@.len(),
            (total, st) == spec_scan(chars@.subrange(i as int, n as int), cjk),
        decreases i,
    {
        i = i - 1;
        let step = width_in_str(chars[i], st, cjk);
        proof {
            assert(chars@.subrange(i as int, n as int).drop_first() =~= chars@.subrange(
                i as int + 1,
                n as int,
            ));
            assert(chars@.subrange(i as int, n as int)[0] == chars@[i as int]);
        }
        total = total.wrapping_add_signed(step.0 as isize);
        st = step.1;
    }
    proof {
        assert(chars@.subrange(0, n as int) =~= chars@);
    }
    (total, st)
}

/// The display width of `s` in columns, with ambiguous-width characters
/// treated as narrow. Always defined; an empty string has width 0.
pub fn str_width(s: &str) -> (w: usize)
    ensures
        w == spec_str_width(s@, false),
        s@.len() == 0 ==> w == 0,
{
    let chars = collect_chars(s);
    scan_chars(&chars, false).0
}

/// The display width of `s` in columns, with ambiguous-width characters
/// treated as wide. Always defined; an empty string has width 0.
pub fn str_width_cjk(s: &str) -> (w: usize)
    ensures
        w == spec_str_width(s@, true),
        s@.len() == 0 ==> w == 0,
{
    let chars = collect_chars(s);
    scan_chars(&chars, true).0
}

} // verus!
