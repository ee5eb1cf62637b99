use vstd::prelude::*;

use crate::config::Config;
use crate::error::Error;

verus! {

/// The language to use: the argument if given, else the configured one, else
/// the default language.
pub fn get(lang_arg: &str, lang_cfg: &str) -> (r: Result<String, Error>)
    ensures
        r matches Ok(lang) && lang@ == (if lang_arg@.len() > 0 {
            lang_arg@
        } else if lang_cfg@.len() > 0 {
            lang_cfg@
        } else {
            "en_US"@
        }),
{
    let lang = if !lang_arg.is_empty() {
        lang_arg.to_string()
    } else if lang_arg.is_empty() && !lang_cfg.is_empty() {
        lang_cfg.to_string()
    } else {
        Config::default().language
    };
    Ok(lang)
}

} // verus!
