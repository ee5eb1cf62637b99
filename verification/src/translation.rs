use vstd::prelude::*;

use crate::error::Error;
use crate::text::str_equal;

verus! {

/// The texts one after the other.
pub open spec fn concat_all(parts: Seq<Seq<char>>) -> Seq<char>
    decreases parts.len(),
{
    if parts.len() == 0 {
        Seq::empty()
    } else {
        concat_all(parts.drop_last()) + parts.last()
    }
}

/// A text that needs no translation: one asked for in English (`en_US`) is
/// its own translation.
pub fn untranslated(target_lang: &str, input: &str) -> (r: Option<String>)
    ensures
        target_lang@ == "en_US"@ <==> r is Some,
        r matches Some(t) ==> t@ == input@,
{
    proof {
        reveal_strlit("en_US");
    }
    if str_equal(target_lang, "en_US") {
        Some(input.to_string())
    } else {
        None
    }
}

/// The translation in a reply of the translation service: the translated
/// pieces of its first entry, joined; empty where the reply has no entry.
pub fn translation_text(first_entry: &Option<Vec<String>>) -> (r: String)
    ensures
        r@ == match first_entry {
            Some(pieces) => concat_all(pieces@.map_values(|p: String| p@)),
            None => Seq::empty(),
        },
{
    match first_entry {
        Some(pieces) => {
            let ghost all = pieces@.map_values(|p: String| p@);
            let mut r = String::new();
            let mut i: usize = 0;
            while i < pieces.len()
                invariant
                    i <= pieces@.len(),
                    all == pieces@.map_values(|p: String| p@),
                    r@ == concat_all(all.subrange(0, i as int)),
                decreases pieces@.len() - i,
            {
                r.append(pieces[i].as_str());
                proof {
                    let next = all.subrange(0, i + 1);
                    assert(next.drop_last() =~= all.subrange(0, i as int));
                    assert(next.last() == pieces@[i as int]@);
                }
                i = i + 1;
            }
            assert(all.subrange(0, pieces@.len() as int) =~= all);
            r
        },
        None => String::new(),
    }
}

/// The URL `Url::parse_with_params` makes of a base URL with the query pairs
/// `tl` = `lang` and `q` = `input`; none where the base is not an absolute URL.
pub uninterp spec fn url_with_translation_params(base: Seq<char>, lang: Seq<char>, input: Seq<char>) -> Option<
    Seq<char>,
>;

/// `reqwest::Url::parse_with_params` (of the url crate) with the pairs
/// (`tl`, `lang`) and (`q`, `input`), written out as text. The contract names
/// the result; the parsing and form encoding of the url crate are not
/// restated.
#[verifier::external_body]
fn parse_with_params(base: &str, lang: &str, input: &str) -> (r: Option<String>)
    ensures
        r matches Some(u) ==> url_with_translation_params(base@, lang@, input@) == Some(u@),
        r is None ==> url_with_translation_params(base@, lang@, input@) is None,
{
    match reqwest::Url::parse_with_params(base, &[("tl", lang), ("q", input)]) {
        Ok(url) => Some(url.to_string()),
        Err(_) => None,
    }
}

/// The address of the translation service, for texts in English.
pub open spec fn translation_service() -> Seq<char> {
    "https://translate.googleapis.com/translate_a/single?client=gtx&ie=UTF-8&oe=UTF-8&dt=t&sl=en_US"@
}

/// The request for a text in a language to the translation service.
pub fn translation_url(lang: &str, input: &str) -> (r: Result<String, Error>)
    ensures
        match url_with_translation_params(translation_service(), lang@, input@) {
            Some(u) => r matches Ok(s) && s@ == u,
            None => r matches Err(e) && e == Error::InvalidUrl,
        },
{
    match parse_with_params(
        "https://translate.googleapis.com/translate_a/single?client=gtx&ie=UTF-8&oe=UTF-8&dt=t&sl=en_US",
        lang,
        input,
    ) {
        Some(url) => Ok(url),
        None => Err(Error::InvalidUrl),
    }
}

} // verus!
