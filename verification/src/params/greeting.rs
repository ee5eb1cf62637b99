use vstd::prelude::*;

use crate::error::Error;

verus! {

/// Whether to greet: as configured, flipped by the toggle argument; without a
/// setting, greet unless toggled.
pub fn get(args_toggle_greeting: bool, config_greet: Option<bool>) -> (r: Result<bool, Error>)
    ensures
        r == Ok::<bool, Error>(match config_greet {
            Some(c) => if args_toggle_greeting { !c } else { c },
            None => !args_toggle_greeting,
        }),
{
    if let Some(config_greet_value) = config_greet {
        let greet = match args_toggle_greeting {
            true => !config_greet_value,
            _ => config_greet_value,
        };
        Ok(greet)
    } else {
        Ok(!args_toggle_greeting)
    }
}

} // verus!
