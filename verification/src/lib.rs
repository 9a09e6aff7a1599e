//! The logic of an e-paper reader, proved: what it does with its card, its
//! panel and its books.
//!
//! Every task is a machine that is asked what to do next and told what came
//! of it. The traits, queues and drivers that carry the answers out stand
//! outside.
pub mod app_duties;
pub mod app_laws;
pub mod app_loop;
pub mod app_model;
pub mod app_runs;
pub mod app_turns;
pub mod background;
pub mod book_open;
pub mod bounded;
pub mod cache_clear;
pub mod cache_error;
pub mod catalog;
pub mod catalog_write;
pub mod chars;
pub mod delivery;
pub mod display_laws;
pub mod display_loop;
pub mod display_runs;
pub mod evidence;
pub mod href;
pub mod href_laws;
pub mod ink;
pub mod line;
pub mod listing;
pub mod messages;
pub mod open_laws;
pub mod phrases;
pub mod place;
pub mod position;
pub mod progress;
pub mod read_budget;
pub mod recovery;
pub mod replay;
pub mod resume;
pub mod sections;
pub mod session;
pub mod sink;
pub mod sink_anchors;
pub mod sink_column;
pub mod sink_laws;
pub mod sink_runs;
pub mod sleep_frame;
pub mod slice;
pub mod spi;
pub mod spine;
pub mod spine_laws;
pub mod storage;
pub mod storage_duties;
pub mod storage_laws;
pub mod storage_model;
pub mod text;
pub mod text_laws;
pub mod toc;
pub mod upload;
pub mod upload_laws;
pub mod walk;
pub mod wifi;
pub mod word_laws;
pub mod zip_build;
pub mod zip_laws;
