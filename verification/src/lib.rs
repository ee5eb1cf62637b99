use vstd::prelude::*;

pub mod api;
pub mod args;
pub mod border;
pub mod config;
pub mod date;
pub mod display;
pub mod error;
pub mod forecast;
pub mod graph;
pub mod localization;
pub mod location;
pub mod params;
pub mod text;
pub mod translation;
pub mod units;
pub mod weather;
pub mod weathercode;
pub mod wind;

verus! {
}
