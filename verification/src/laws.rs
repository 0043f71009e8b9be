//! Laws of the width computation that hold for whole families of inputs:
//! the empty string, control characters inside strings, runs of regional
//! indicators, emoji presentation sequences, and emoji zero width joiner
//! sequences of any length.
use vstd::prelude::*;

use crate::classify::spec_lookup_width;
use crate::oracle::emoji_presentation_start;
use crate::scan::is_regional_indicator;
use crate::scan::spec_scan;
use crate::scan::spec_width_step;
use crate::scan::spec_str_width;
use crate::scanstate;
use crate::scanstate::state_is_emoji_presentation;
use crate::scanstate::state_is_ligature_transparent;
use crate::scanstate::state_is_text_presentation;
use crate::scanstate::state_is_vs1_2_3;
use crate::scanstate::state_is_zwj_emoji_presentation;
use crate::scanstate::state_unset_emoji_presentation;
use crate::oracle::emoji_modifier_base;
use crate::oracle::text_presentation_start;
use crate::tables::lemma_emoji_modifier_escape_class;
use crate::tables::lemma_presentation_selector_escape_class;
use crate::tables::lemma_regional_indicator_escape_class;

verus! {

/// The concrete bit-level facts about the handful of state tags that the
/// emoji-sequence proofs walk through.
proof fn lemma_state_bits()
    by (bit_vector)
    ensures
        !state_is_emoji_presentation(scanstate::DEFAULT),
        !state_is_emoji_presentation(scanstate::EMOJI_PRESENTATION),
        !state_is_text_presentation(scanstate::EMOJI_PRESENTATION),
        !state_is_vs1_2_3(scanstate::EMOJI_PRESENTATION),
        !state_is_ligature_transparent(scanstate::EMOJI_PRESENTATION),
        !state_is_emoji_presentation(scanstate::ZWJ_EMOJI_PRESENTATION),
        !state_is_text_presentation(scanstate::ZWJ_EMOJI_PRESENTATION),
        !state_is_vs1_2_3(scanstate::ZWJ_EMOJI_PRESENTATION),
        !state_is_ligature_transparent(scanstate::ZWJ_EMOJI_PRESENTATION),
        state_is_emoji_presentation(scanstate::VARIATION_SELECTOR_16),
        !state_is_zwj_emoji_presentation(scanstate::VARIATION_SELECTOR_16),
        state_unset_emoji_presentation(scanstate::VARIATION_SELECTOR_16) == scanstate::DEFAULT,
        !state_is_emoji_presentation(scanstate::REGIONAL_INDICATOR),
        !state_is_text_presentation(scanstate::REGIONAL_INDICATOR),
        !state_is_vs1_2_3(scanstate::REGIONAL_INDICATOR),
        !state_is_ligature_transparent(scanstate::REGIONAL_INDICATOR),
        !state_is_emoji_presentation(scanstate::SEVERAL_REGIONAL_INDICATOR),
        !state_is_text_presentation(scanstate::SEVERAL_REGIONAL_INDICATOR),
        !state_is_vs1_2_3(scanstate::SEVERAL_REGIONAL_INDICATOR),
        !state_is_ligature_transparent(scanstate::SEVERAL_REGIONAL_INDICATOR),
        !state_is_emoji_presentation(scanstate::VARIATION_SELECTOR_15),
        state_is_text_presentation(scanstate::VARIATION_SELECTOR_15),
        !state_is_emoji_presentation(scanstate::EMOJI_MODIFIER),
        !state_is_text_presentation(scanstate::EMOJI_MODIFIER),
        !state_is_vs1_2_3(scanstate::EMOJI_MODIFIER),
        !state_is_ligature_transparent(scanstate::EMOJI_MODIFIER),
{
}

/// The empty string has width zero under both policies.
pub proof fn lemma_empty_string_width(cjk: bool)
    ensures
        spec_str_width(Seq::<char>::empty(), cjk) == 0,
{
}

/// Inside a string, every control character counts one column, though the
/// single-character classifier gives it no width of its own; only a carriage
/// return directly before a line feed gives up its column.
pub proof fn lemma_control_char_in_string(c: char, cjk: bool)
    requires
        (c as u32) < 0x20 || 0x7F <= (c as u32) < 0xA0,
    ensures
        spec_str_width(seq![c], cjk) == 1,
{
    lemma_state_bits();
    let s = seq![c];
    assert(s.drop_first() =~= Seq::<char>::empty());
    assert(spec_scan(s.drop_first(), cjk) == (0usize, scanstate::DEFAULT));
    assert(spec_width_step(c, scanstate::DEFAULT, cjk).0 == 1);
}

/// A plain base emoji for a zero width joiner sequence: the lookup gives it
/// width two with default emoji presentation, and it plays no other role in
/// a sequence (it is not a joiner, keycap, variation selector, regional
/// indicator, skin-tone modifier, or tag character).
pub open(crate) spec fn zwj_chain_base(c: char, cjk: bool) -> bool {
    let cp = c as u32;
    &&& spec_lookup_width(c, cjk) == (2u8, scanstate::EMOJI_PRESENTATION)
    &&& cp > 0xA0
    &&& cp != 0x200D
    &&& cp != 0x20E3
    &&& !(0xFE00 <= cp <= 0xFE0F)
    &&& !is_regional_indicator(cp)
    &&& !(0x1F3FB <= cp <= 0x1F3FF)
    &&& cp != 0xE007F
}

/// A well-formed emoji zero width joiner sequence: base emoji joined by
/// U+200D, optionally ending in the emoji presentation selector U+FE0F.
pub open(crate) spec fn is_zwj_emoji_chain(s: Seq<char>, cjk: bool) -> bool
    decreases s.len(),
{
    if s.len() == 0 {
        false
    } else if s.len() == 1 {
        zwj_chain_base(s[0], cjk)
    } else if s.len() == 2 && s[1] == '\u{FE0F}' {
        zwj_chain_base(s[0], cjk)
    } else {
        &&& s.len() >= 3
        &&& zwj_chain_base(s[0], cjk)
        &&& s[1] == '\u{200D}'
        &&& is_zwj_emoji_chain(s.subrange(2, s.len() as int), cjk)
    }
}

/// Scanning a well-formed emoji zero width joiner sequence yields width two
/// and leaves a plain pending-emoji state, however many bases participate.
proof fn lemma_zwj_chain_scan(s: Seq<char>, cjk: bool)
    requires
        is_zwj_emoji_chain(s, cjk),
    ensures
        spec_scan(s, cjk).0 == 2,
        spec_scan(s, cjk).1 == scanstate::EMOJI_PRESENTATION,
    decreases s.len(),
{
    lemma_state_bits();
    if s.len() == 1 {
        assert(s.drop_first() =~= Seq::<char>::empty());
        assert(spec_scan(s.drop_first(), cjk) == (0usize, scanstate::DEFAULT));
        assert(spec_width_step(s[0], scanstate::DEFAULT, cjk) == (
            2i8,
            scanstate::EMOJI_PRESENTATION,
        ));
    } else if s.len() == 2 && s[1] == '\u{FE0F}' {
        lemma_presentation_selector_escape_class();
        assert(s.drop_first().drop_first() =~= Seq::<char>::empty());
        assert(s.drop_first()[0] == s[1]);
        assert(s.drop_first().len() == 1);
        assert(spec_scan(s.drop_first().drop_first(), cjk) == (0usize, scanstate::DEFAULT));
        assert(spec_lookup_width(s[1], cjk) == (0u8, scanstate::VARIATION_SELECTOR_16));
        assert(spec_width_step(s[1], scanstate::DEFAULT, cjk) == (
            0i8,
            scanstate::VARIATION_SELECTOR_16,
        ));
        assert(spec_scan(s.drop_first(), cjk) == (0usize, scanstate::VARIATION_SELECTOR_16));
        assert(spec_width_step(s[0], scanstate::VARIATION_SELECTOR_16, cjk) == (
            2i8,
            scanstate::EMOJI_PRESENTATION,
        ));
    } else {
        lemma_zwj_chain_scan(s.subrange(2, s.len() as int), cjk);
        assert(s.drop_first().drop_first() =~= s.subrange(2, s.len() as int));
        assert(s.drop_first()[0] == s[1]);
        assert(spec_width_step(s[1], scanstate::EMOJI_PRESENTATION, cjk) == (
            0i8,
            scanstate::ZWJ_EMOJI_PRESENTATION,
        ));
        assert(spec_scan(s.drop_first(), cjk) == (2usize, scanstate::ZWJ_EMOJI_PRESENTATION));
        assert(spec_width_step(s[0], scanstate::ZWJ_EMOJI_PRESENTATION, cjk) == (
            0i8,
            scanstate::EMOJI_PRESENTATION,
        ));
    }
}

/// A well-formed emoji zero width joiner sequence has total width two,
/// regardless of how many base emoji participate.
pub proof fn lemma_zwj_emoji_sequence_width(s: Seq<char>, cjk: bool)
    requires
        is_zwj_emoji_chain(s, cjk),
    ensures
        spec_str_width(s, cjk) == 2,
{
    lemma_zwj_chain_scan(s, cjk);
}


/// Every character of the sequence is a regional indicator symbol letter.
pub open(crate) spec fn all_regional_indicators(s: Seq<char>) -> bool {
    forall|i: int| 0 <= i < s.len() ==> is_regional_indicator(#[trigger] s[i] as u32)
}

/// Scanning a run of regional indicators counts one column per indicator
/// and leaves a pending pairing state.
proof fn lemma_ri_run_scan(s: Seq<char>, cjk: bool)
    requires
        1 <= s.len() <= usize::MAX,
        all_regional_indicators(s),
    ensures
        spec_scan(s, cjk).0 == s.len(),
        spec_scan(s, cjk).1 == scanstate::REGIONAL_INDICATOR || spec_scan(s, cjk).1
            == scanstate::SEVERAL_REGIONAL_INDICATOR,
    decreases s.len(),
{
    lemma_state_bits();
    assert(is_regional_indicator(s[0] as u32));
    if s.len() == 1 {
        lemma_regional_indicator_escape_class(s[0]);
        assert(s.drop_first() =~= Seq::<char>::empty());
        assert(spec_scan(s.drop_first(), cjk) == (0usize, scanstate::DEFAULT));
        assert(spec_lookup_width(s[0], cjk) == (1u8, scanstate::REGIONAL_INDICATOR));
        assert(spec_width_step(s[0], scanstate::DEFAULT, cjk) == (
            1i8,
            scanstate::REGIONAL_INDICATOR,
        ));
    } else {
        assert forall|i: int| 0 <= i < s.drop_first().len() implies is_regional_indicator(
            #[trigger] s.drop_first()[i] as u32,
        ) by {
            assert(s.drop_first()[i] == s[i + 1]);
        }
        lemma_ri_run_scan(s.drop_first(), cjk);
        assert(spec_width_step(s[0], scanstate::REGIONAL_INDICATOR, cjk) == (
            1i8,
            scanstate::SEVERAL_REGIONAL_INDICATOR,
        ));
        assert(spec_width_step(s[0], scanstate::SEVERAL_REGIONAL_INDICATOR, cjk) == (
            1i8,
            scanstate::SEVERAL_REGIONAL_INDICATOR,
        ));
    }
}

/// A run of regional indicator symbol letters is one column per indicator:
/// a well-formed flag pair takes two columns, and adjacent flag pairs
/// resolve independently, four indicators taking four columns.
pub proof fn lemma_regional_indicator_run(s: Seq<char>, cjk: bool)
    requires
        1 <= s.len() <= usize::MAX,
        all_regional_indicators(s),
    ensures
        spec_str_width(s, cjk) == s.len(),
{
    lemma_ri_run_scan(s, cjk);
}


/// An emoji presentation sequence, a starter followed by U+FE0F, has width
/// two under both policies, wherever the starter's own width came from.
pub proof fn lemma_emoji_presentation_sequence_width(c: char, cjk: bool)
    requires
        emoji_presentation_start(c),
    ensures
        spec_str_width(seq![c, '\u{FE0F}'], cjk) == 2,
{
    lemma_state_bits();
    lemma_presentation_selector_escape_class();
    let s = seq![c, '\u{FE0F}'];
    assert(s.drop_first() =~= seq!['\u{FE0F}']);
    assert(s.drop_first().drop_first() =~= Seq::<char>::empty());
    assert(spec_scan(s.drop_first().drop_first(), cjk) == (0usize, scanstate::DEFAULT));
    assert(spec_lookup_width('\u{FE0F}', cjk) == (0u8, scanstate::VARIATION_SELECTOR_16));
    assert(spec_width_step('\u{FE0F}', scanstate::DEFAULT, cjk) == (
        0i8,
        scanstate::VARIATION_SELECTOR_16,
    ));
    assert(spec_scan(s.drop_first(), cjk) == (0usize, scanstate::VARIATION_SELECTOR_16));
    assert(spec_width_step(c, scanstate::VARIATION_SELECTOR_16, cjk).0 == 2);
}


/// A text presentation sequence, a non-ideographic starter followed by
/// U+FE0E, has width one under the narrow policy, though the starter alone
/// is wide.
pub proof fn lemma_text_presentation_sequence_width(c: char)
    requires
        text_presentation_start(c),
        (c as u32) > 0xA0,
        !(0xFE00 <= c as u32 <= 0xFE0F),
    ensures
        spec_str_width(seq![c, '\u{FE0E}'], false) == 1,
{
    lemma_state_bits();
    lemma_presentation_selector_escape_class();
    let s = seq![c, '\u{FE0E}'];
    assert(s.drop_first() =~= seq!['\u{FE0E}']);
    assert(s.drop_first().drop_first() =~= Seq::<char>::empty());
    assert(spec_scan(s.drop_first().drop_first(), false) == (0usize, scanstate::DEFAULT));
    assert(spec_lookup_width('\u{FE0E}', false) == (0u8, scanstate::VARIATION_SELECTOR_15));
    assert(spec_width_step('\u{FE0E}', scanstate::DEFAULT, false) == (
        0i8,
        scanstate::VARIATION_SELECTOR_15,
    ));
    assert(spec_scan(s.drop_first(), false) == (0usize, scanstate::VARIATION_SELECTOR_15));
    assert(spec_width_step(c, scanstate::VARIATION_SELECTOR_15, false) == (
        1i8,
        scanstate::DEFAULT,
    ));
}

/// An emoji modifier sequence, a modifier base followed by a skin-tone
/// modifier, has width two under both policies.
pub proof fn lemma_emoji_modifier_sequence_width(base: char, skin: char, cjk: bool)
    requires
        emoji_modifier_base(base),
        0x1F3FB <= skin as u32 <= 0x1F3FF,
        (base as u32) > 0xA0,
        !(0xFE00 <= base as u32 <= 0xFE0F),
    ensures
        spec_str_width(seq![base, skin], cjk) == 2,
{
    lemma_state_bits();
    lemma_emoji_modifier_escape_class(skin);
    let s = seq![base, skin];
    assert(s.drop_first() =~= seq![skin]);
    assert(s.drop_first().drop_first() =~= Seq::<char>::empty());
    assert(spec_scan(s.drop_first().drop_first(), cjk) == (0usize, scanstate::DEFAULT));
    assert(spec_lookup_width(skin, cjk) == (2u8, scanstate::EMOJI_MODIFIER));
    assert(spec_width_step(skin, scanstate::DEFAULT, cjk) == (2i8, scanstate::EMOJI_MODIFIER));
    assert(spec_scan(s.drop_first(), cjk) == (2usize, scanstate::EMOJI_MODIFIER));
    assert(spec_width_step(base, scanstate::EMOJI_MODIFIER, cjk) == (
        0i8,
        scanstate::EMOJI_PRESENTATION,
    ));
}

} // verus!
