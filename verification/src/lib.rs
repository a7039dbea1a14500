//! Fantasy baseball logic for Fantrax leagues: platoon analysis, lineup
//! ranking, morning briefings, and the parsing of Fantrax and MLB Stats API
//! responses.
use vstd::prelude::*;

pub mod analysis;
pub mod briefing;
pub mod config;
pub mod dates;
pub mod db;
pub mod fantrax;
pub mod json;
pub mod mlb;
pub mod projections;
pub mod server;
pub mod text;
pub mod types;

verus! {

} // verus!
