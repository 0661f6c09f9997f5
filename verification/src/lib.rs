//! Season and episode compilation pipeline.
//!
//! A download folder holds one folder per season, and each season one folder
//! per episode with raw video and audio streams and a subtitle. A run over
//! the download folder either lists every season, or compiles every episode
//! into one playable file and packages each season into an output folder.
//!
//! The library decides what a run does next, and computes every text and
//! path that the run needs. It performs no input or output itself: the
//! caller carries out each [`pipeline::Task`] and reports back an
//! [`pipeline::Outcome`]. The step functions [`list`] and
//! [`compile_seasons`] take the state of the run and the last outcome, and
//! give the next state and the next task.

pub mod episode;
pub mod episode_order;
pub mod error_handling;
pub mod messages;
pub mod metadata;
pub mod order_laws;
pub mod paths;
pub mod pipeline;
pub mod run_laws;
pub mod season;
pub mod season_laws;
pub mod text_code;

pub use crate::episode::compile_episode;
pub use crate::episode_order::format_index;
pub use crate::error_handling::return_when_error;
pub use crate::messages::make_loading_message;
pub use crate::season::compile_seasons;
pub use crate::season::list;
pub use crate::text_code::TextCode;
