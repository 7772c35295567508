//! Verified core of a SponsorBlock plugin for the mpv media player.
//!
//! The plugin asks a segment service which parts of a video are sponsored
//! or otherwise skippable, and skips or mutes them while the video plays.
//! This crate holds what the plugin decides: the segment model, the split of
//! the segments of a video into the views that are asked on every change of
//! the position, the state of the lookup that runs beside the player, the
//! reactions to the reports of the player, the cache of the session, and the
//! requests to the service.  Waiting for the network and talking to the
//! player are left to the caller, who hands in what happened and is told what
//! to do next.
//!
//! Times are integer microseconds throughout.

pub mod text;
pub mod utils;
pub mod action;
pub mod category;
pub mod segment;
pub mod sorted;
pub mod config;
pub mod lookup;
pub mod cache;
pub mod worker;
pub mod event_handler;
pub mod client;
pub mod mpv;

pub use action::Action;
pub use cache::ResultCache;
pub use category::Category;
pub use client::{Client, Loading, Message, Phase, Reaction, Watch};
pub use config::{Config, ConfigError};
pub use event_handler::{Command, EventHandler};
pub use lookup::{fetch, Answer, Fetch, LookupError, Video};
pub use segment::{Segment, Segments, SKIP_MARGIN};
pub use sorted::SortedSegments;
pub use utils::get_youtube_id;
pub use worker::{Worker, WorkerAction, WorkerEvent, WorkerState};
