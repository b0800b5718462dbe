//! The translation step: when it runs, and the instruction sent to the
//! generation model.

use vstd::prelude::*;
use crate::identity::opt_view;

verus! {

/// The instruction that precedes the target language.
pub const PROMPT_HEAD: &'static str = "Please translate below text to ";

/// The instruction that follows the target language, before the text.
pub const PROMPT_TAIL: &'static str = " without any extra explation and type exact text if It already translated:\n";

/// The language to translate into: a requested language that is not empty.
pub open spec fn target_language(requested: Option<Seq<char>>) -> Option<Seq<char>> {
    match requested {
        Some(l) => if l.len() > 0 { Some(l) } else { None },
        None => None,
    }
}

/// The prompt that asks for `text` in `language`.
pub open spec fn prompt_text(text: Seq<char>, language: Seq<char>) -> Seq<char> {
    PROMPT_HEAD@ + language + PROMPT_TAIL@ + text
}

/// The language to translate into, if translation was asked for at all.
pub fn translation_target(requested: &Option<String>) -> (r: Option<String>)
    ensures
        opt_view(r) == target_language(opt_view(*requested)),
{
    match requested {
        Some(l) => {
            if l.as_str().is_empty() {
                None
            } else {
                Some(l.clone())
            }
        },
        None => None,
    }
}

/// Builds the prompt that asks the generation model to translate `prompt`
/// into `lang`.
pub fn translate_prompt(prompt: &str, lang: &str) -> (r: String)
    ensures
        r@ == prompt_text(prompt@, lang@),
{
    let mut r = String::from_str(PROMPT_HEAD);
    r.append(lang);
    r.append(PROMPT_TAIL);
    r.append(prompt);
    r
}

} // verus!
