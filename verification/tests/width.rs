use wcwidth::single_char_width;
use wcwidth::single_char_width_cjk;
use wcwidth::str_width;
use wcwidth::str_width_cjk;

#[test]
fn empty_string_has_width_zero() {
    assert_eq!(str_width(""), 0);
    assert_eq!(str_width_cjk(""), 0);
}

#[test]
fn printable_ascii_is_single_width() {
    for c in ' '..='~' {
        assert_eq!(single_char_width(c), Some(1));
        assert_eq!(single_char_width_cjk(c), Some(1));
        assert_eq!(str_width(&c.to_string()), 1);
        assert_eq!(str_width_cjk(&c.to_string()), 1);
    }
}

#[test]
fn carriage_return_line_feed_collapses() {
    assert_eq!(str_width("\r\n"), 1);
    assert_eq!(str_width_cjk("\r\n"), 1);
}

#[test]
fn line_feed_carriage_return_does_not_collapse() {
    assert_eq!(str_width("\n\r"), 2);
    assert_eq!(str_width_cjk("\n\r"), 2);
}

#[test]
fn width_is_not_additive_under_concatenation() {
    let s1 = "\r";
    let s2 = "\n";
    let joined = format!("{}{}", s1, s2);
    assert_ne!(str_width(&joined), str_width(s1) + str_width(s2));
}

#[test]
fn flag_pair_has_width_two() {
    assert_eq!(str_width("\u{1F1E6}\u{1F1E7}"), 2);
    assert_eq!(str_width_cjk("\u{1F1E6}\u{1F1E7}"), 2);
}

#[test]
fn two_flag_pairs_have_width_four() {
    assert_eq!(str_width("\u{1F1E6}\u{1F1E7}\u{1F1E8}\u{1F1E9}"), 4);
}

#[test]
fn lone_regional_indicator_has_width_one() {
    assert_eq!(single_char_width('\u{1F1E6}'), Some(1));
    assert_eq!(str_width("\u{1F1E6}"), 1);
}

#[test]
fn zwj_family_sequence_has_width_two() {
    // man, woman and boy joined into one family glyph
    assert_eq!(str_width("\u{1F468}\u{200D}\u{1F469}\u{200D}\u{1F466}"), 2);
    assert_eq!(str_width_cjk("\u{1F468}\u{200D}\u{1F469}\u{200D}\u{1F466}"), 2);
}

#[test]
fn zwj_sequence_with_presentation_selector_has_width_two() {
    // couple with heart: the heart takes an emoji presentation selector
    assert_eq!(str_width("\u{1F468}\u{200D}\u{2764}\u{FE0F}\u{200D}\u{1F468}"), 2);
}

#[test]
fn long_zwj_chain_still_has_width_two() {
    assert_eq!(
        str_width("\u{1F9D1}\u{200D}\u{1F91D}\u{200D}\u{1F9D1}\u{200D}\u{1F91D}\u{200D}\u{1F9D1}"),
        2
    );
}

#[test]
fn ambiguous_width_character_depends_on_policy() {
    // section sign and Greek ano teleia are East-Asian-Ambiguous
    assert_eq!(single_char_width('\u{A7}'), Some(1));
    assert_eq!(single_char_width_cjk('\u{A7}'), Some(2));
    assert_eq!(single_char_width('\u{387}'), Some(1));
    assert_eq!(single_char_width_cjk('\u{387}'), Some(2));
    assert_eq!(str_width("\u{A7}"), 1);
    assert_eq!(str_width_cjk("\u{A7}"), 2);
}

#[test]
fn tab_and_delete_have_no_single_width() {
    assert_eq!(single_char_width('\u{9}'), None);
    assert_eq!(single_char_width('\u{7F}'), None);
    assert_eq!(single_char_width_cjk('\u{9}'), None);
    assert_eq!(single_char_width_cjk('\u{7F}'), None);
}

#[test]
fn tab_in_a_string_counts_one_column() {
    assert_eq!(str_width("\t"), 1);
    assert_eq!(str_width_cjk("\t"), 1);
}

#[test]
fn control_characters_in_strings_count_one_column() {
    assert_eq!(str_width("\u{1}"), 1);
    assert_eq!(str_width("\u{7F}"), 1);
    assert_eq!(str_width("\u{9B}"), 1);
    assert_eq!(str_width("\r"), 1);
    assert_eq!(str_width("\n"), 1);
}

#[test]
fn canonically_equivalent_sequences_have_equal_width() {
    // precomposed and decomposed forms of the same text
    assert_eq!(str_width("\u{E9}"), str_width("e\u{301}"));
    assert_eq!(str_width("\u{958}"), str_width("\u{915}\u{93C}"));
    assert_eq!(str_width("\u{226E}"), str_width("<\u{338}"));
    assert_eq!(str_width_cjk("\u{226E}"), str_width_cjk("<\u{338}"));
    assert_eq!(str_width("\u{16D68}"), str_width("\u{16D63}\u{16D67}"));
    assert_eq!(str_width("\u{16D69}"), str_width("\u{16D63}\u{16D67}\u{16D67}"));
}

#[test]
fn combining_marks_add_no_width() {
    assert_eq!(str_width("e\u{301}"), 1);
    assert_eq!(str_width("a\u{300}\u{316}\u{35C}"), 1);
}

#[test]
fn wide_and_halfwidth_forms() {
    assert_eq!(str_width("\u{3042}"), 2);
    assert_eq!(str_width("\u{FF28}\u{FF45}"), 4);
    assert_eq!(str_width("\u{D55C}"), 2);
    assert_eq!(str_width("\u{FF8A}"), 1);
}

#[test]
fn hangul_jamo_vowels_and_trailers_are_zero_width() {
    assert_eq!(single_char_width('\u{1161}'), Some(0));
    assert_eq!(single_char_width('\u{11A8}'), Some(0));
    assert_eq!(str_width("\u{1161}"), 0);
}

#[test]
fn special_fixed_width_characters() {
    assert_eq!(single_char_width('\u{17D8}'), Some(3));
    assert_eq!(single_char_width('\u{115F}'), Some(2));
    assert_eq!(single_char_width('\u{17A4}'), Some(2));
    assert_eq!(single_char_width('\u{2D7F}'), Some(1));
    assert_eq!(single_char_width('\u{200B}'), Some(0));
}

#[test]
fn emoji_presentation_selector_turns_text_emoji_wide() {
    assert_eq!(str_width("\u{2764}"), 1);
    assert_eq!(str_width("\u{2764}\u{FE0F}"), 2);
}

#[test]
fn text_presentation_selector_narrows_under_narrow_policy_only() {
    assert_eq!(str_width("\u{231A}"), 2);
    assert_eq!(str_width("\u{231A}\u{FE0E}"), 1);
    assert_eq!(str_width_cjk("\u{231A}\u{FE0E}"), 2);
}

#[test]
fn keycap_sequence_has_width_two() {
    assert_eq!(str_width("#\u{FE0F}\u{20E3}"), 2);
}

#[test]
fn emoji_modifier_sequence_has_width_two() {
    assert_eq!(str_width("\u{1F44D}\u{1F3FB}"), 2);
}

#[test]
fn tag_name_flag_sequences() {
    let scotland = "\u{1F3F4}\u{E0067}\u{E0062}\u{E0073}\u{E0063}\u{E0074}\u{E007F}";
    assert_eq!(str_width(scotland), 2);
    let chained = format!("{}\u{200D}\u{1F6A9}", scotland);
    assert_eq!(str_width(&chained), 2);
}

#[test]
fn arabic_lam_alef_ligature_has_width_one() {
    assert_eq!(str_width("\u{644}\u{627}"), 1);
    assert_eq!(str_width("\u{644}\u{64E}\u{627}"), 1);
    assert_eq!(str_width_cjk("\u{644}\u{627}"), 1);
}

#[test]
fn hebrew_alef_lamed_ligature_has_width_one() {
    assert_eq!(str_width("\u{5D0}\u{200D}\u{5DC}"), 1);
}

#[test]
fn khmer_coeng_sign_has_width_zero() {
    assert_eq!(str_width("\u{17D2}\u{1780}"), 0);
}

#[test]
fn tifinagh_biconsonant_has_width_one() {
    assert_eq!(str_width("\u{2D31}\u{2D7F}\u{2D31}"), 1);
    assert_eq!(str_width("\u{2D31}\u{200D}\u{2D31}"), 1);
}

#[test]
fn lisu_tone_pair_has_width_one() {
    assert_eq!(str_width("\u{A4F8}\u{A4FC}"), 1);
}

#[test]
fn buginese_ligature_has_width_one() {
    assert_eq!(str_width("\u{1A15}\u{1A17}\u{200D}\u{1A10}"), 1);
}

#[test]
fn old_turkic_ligature_has_width_one() {
    assert_eq!(str_width("\u{10C32}\u{200D}\u{10C03}"), 1);
}

#[test]
fn long_solidus_overlay_ligature_is_wide_policy_only() {
    assert_eq!(str_width("=\u{338}"), 1);
    assert_eq!(str_width_cjk("=\u{338}"), 2);
    assert_eq!(str_width_cjk("<\u{338}"), 2);
    assert_eq!(str_width_cjk(">\u{338}"), 2);
}

#[test]
fn curly_quote_selectors() {
    assert_eq!(str_width("\u{2018}"), 1);
    assert_eq!(str_width_cjk("\u{2018}"), 2);
    assert_eq!(str_width("\u{2018}\u{FE01}"), 2);
    assert_eq!(str_width_cjk("\u{2018}\u{FE00}"), 1);
    assert_eq!(str_width_cjk("\u{2018}\u{FE02}"), 1);
}

#[test]
fn plain_zwj_between_letters_adds_nothing() {
    assert_eq!(str_width("a\u{200D}b"), 2);
}

#[test]
fn mixed_text_sums_per_character() {
    assert_eq!(str_width("abc \u{3042}!"), 7);
}

#[test]
fn fullwidth_greeting_width() {
    assert_eq!(str_width("\u{FF28}\u{FF45}\u{FF4C}\u{FF4C}\u{FF4F}, \u{FF57}\u{FF4F}\u{FF52}\u{FF4C}\u{FF44}!"), 23);
}

#[test]
fn quoted_tangut_depends_on_policy() {
    assert_eq!(str_width("\u{201C}\u{18000}\u{201D}"), 4);
    assert_eq!(str_width_cjk("\u{201C}\u{18000}\u{201D}"), 6);
}

#[test]
fn modifier_and_selector_inside_zwj_sequence() {
    // person facepalming, medium-light skin tone, male sign, emoji style
    assert_eq!(str_width("\u{1F926}\u{1F3FC}\u{200D}\u{2642}\u{FE0F}"), 2);
}
