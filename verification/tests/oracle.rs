use wcwidth::is_emoji_modifier_base;
use wcwidth::starts_emoji_presentation_seq;
use wcwidth::starts_non_ideographic_text_presentation_seq;
use wcwidth::UNICODE_VERSION_MAJOR;

#[test]
fn emoji_presentation_sequence_starters() {
    assert!(starts_emoji_presentation_seq('\u{2764}'));
    assert!(starts_emoji_presentation_seq('\u{231A}'));
    assert!(starts_emoji_presentation_seq('#'));
    assert!(starts_emoji_presentation_seq('0'));
    assert!(!starts_emoji_presentation_seq('a'));
    assert!(!starts_emoji_presentation_seq('\u{3042}'));
}

#[test]
fn text_presentation_sequence_starters() {
    assert!(starts_non_ideographic_text_presentation_seq('\u{231A}'));
    assert!(starts_non_ideographic_text_presentation_seq('\u{2B55}'));
    assert!(!starts_non_ideographic_text_presentation_seq('\u{2764}'));
    assert!(!starts_non_ideographic_text_presentation_seq('a'));
}

#[test]
fn emoji_modifier_bases() {
    assert!(is_emoji_modifier_base('\u{1F44D}'));
    assert!(is_emoji_modifier_base('\u{261D}'));
    assert!(is_emoji_modifier_base('\u{1F9D1}'));
    assert!(!is_emoji_modifier_base('\u{1F525}'));
    assert!(!is_emoji_modifier_base('a'));
}

#[test]
fn unicode_version_is_declared() {
    assert!(UNICODE_VERSION_MAJOR >= 15);
}
