//! Display width of characters and strings in fixed-width columns, following
//! the Unicode recommendations for terminal-style rendering: a classification
//! trie gives every scalar value a base width, and a right-to-left scan
//! resolves the sequences (ligatures, joiners, selectors, flags) whose width
//! is not the sum of their parts. Two policies are offered, differing in how
//! East-Asian-Ambiguous characters resolve: narrow outside East Asian
//! contexts, wide within them.
use vstd::prelude::*;

mod classify;
mod laws;
mod oracle;
mod scan;
mod scanstate;
mod tables;

pub use crate::classify::single_char_width;
pub use crate::classify::single_char_width_cjk;
pub use crate::laws::lemma_control_char_in_string;
pub use crate::laws::lemma_emoji_modifier_sequence_width;
pub use crate::laws::lemma_emoji_presentation_sequence_width;
pub use crate::laws::lemma_empty_string_width;
pub use crate::laws::lemma_regional_indicator_run;
pub use crate::laws::lemma_text_presentation_sequence_width;
pub use crate::laws::lemma_zwj_emoji_sequence_width;
pub use crate::oracle::is_emoji_modifier_base;
pub use crate::oracle::starts_emoji_presentation_seq;
pub use crate::oracle::starts_non_ideographic_text_presentation_seq;
pub use crate::scan::str_width;
pub use crate::scan::str_width_cjk;

verus! {

/// The major version of the character data this crate's tables reflect.
pub const UNICODE_VERSION_MAJOR: u8 = 15;

/// The minor version of the character data this crate's tables reflect.
pub const UNICODE_VERSION_MINOR: u8 = 1;

/// The update version of the character data this crate's tables reflect.
pub const UNICODE_VERSION_UPDATE: u8 = 0;

} // verus!
