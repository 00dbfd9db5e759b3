//! An ad exchange's auction pipeline: the DSP catalog, per-DSP bid calls and their
//! classification, the auction over their outcomes, creative rewriting, the HTTP front's
//! answers, and the logging records, each specified and verified.

pub mod auction_log;
pub mod catalog;
pub mod context;
pub mod creative;
pub mod dsp_client;
pub mod engine;
pub mod front;
pub mod json;
pub mod laws;
pub mod logging;
pub mod mock_dsp;
pub mod openrtb;
pub mod placements;
pub mod price;
pub mod text;
