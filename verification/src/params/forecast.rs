use vstd::prelude::*;

use crate::args::Forecast;
use crate::error::Error;

verus! {

/// The forecasts asked for: those given as arguments, else the configured ones.
pub fn get(forecast_args: &[Forecast], forecast_cfg: Option<Vec<Forecast>>) -> (r: Result<Vec<Forecast>, Error>)
    ensures
        r matches Ok(f) && f@ == (if forecast_args@.len() > 0 {
            forecast_args@
        } else {
            match forecast_cfg {
                Some(c) => c@,
                None => Seq::empty(),
            }
        }),
{
    let forecast = if !forecast_args.is_empty() {
        vstd::slice::slice_to_vec(forecast_args)
    } else {
        match forecast_cfg {
            Some(c) => c,
            None => Vec::new(),
        }
    };
    Ok(forecast)
}

} // verus!
