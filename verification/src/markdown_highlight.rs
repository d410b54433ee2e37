//! Which highlighter colours a fenced block.

use vstd::prelude::*;

use crate::text;

verus! {

/// The name that a block's language is looked up by; none where the block is not coloured.
pub open spec fn language_key_of(lang: Option<Seq<char>>, code: Seq<char>) -> Option<Seq<char>> {
    match lang {
        None => None,
        Some(lang) => if text::trimmed(lang).len() == 0 || code.len() == 0 {
            None
        } else {
            Some(text::lower(text::trimmed(lang)))
        },
    }
}

pub fn language_key(lang: &Option<String>, code: &str) -> (r: Option<String>)
    ensures
        text::option_text(r) == language_key_of(text::option_text(*lang), code@),
{
    match lang {
        None => None,
        Some(lang) => {
            let lang = text::trim(lang);
            if lang.as_str().is_empty() || code.is_empty() {
                return None;
            }
            Some(text::to_lower(&lang))
        },
    }
}

/// Whether a highlighter has to be made anew: there is none yet, or the one that is kept was made
/// before its language was known.
pub open spec fn is_stale(kept: Option<Seq<char>>, configured: Option<Seq<char>>) -> bool {
    match kept {
        None => true,
        Some(kept) => configured is Some && kept != configured->0,
    }
}

pub fn needs_new_highlighter(kept: &Option<String>, configured: &Option<String>) -> (r: bool)
    ensures
        r == is_stale(text::option_text(*kept), text::option_text(*configured)),
{
    match (kept, configured) {
        (None, _) => true,
        (Some(_), None) => false,
        (Some(kept), Some(configured)) => !text::same_text(kept, configured),
    }
}

// ---------------------------------------------------------------------------
// Laws

/// A block is coloured exactly if it has code and a language that is not blank, and is looked up
/// by that language without the space around it and in lower case.
pub proof fn law_blocks_with_a_language_are_coloured(lang: Seq<char>, code: Seq<char>)
    ensures
        language_key_of(None, code) is None,
        language_key_of(Some(lang), code) is Some <==> !text::blank(lang) && code.len() > 0,
        language_key_of(Some(lang), code) matches Some(key) ==> key == text::lower(
            text::trimmed(lang),
        ),
{
    text::law_trimmed_is_empty_iff_blank(lang);
}

/// A highlighter is kept exactly if there is one and its language is not known to be another.
pub proof fn law_highlighters_are_kept_for_their_language(
    kept: Option<Seq<char>>,
    configured: Option<Seq<char>>,
)
    ensures
        !is_stale(kept, configured) <==> kept is Some && (configured is None || configured == kept),
{
}

} // verus!
