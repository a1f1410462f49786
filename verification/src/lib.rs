//! Extraction of a user's saved Reddit items and their optional bulk removal,
//! together with a few small command-line utilities.
//!
//! The library holds the decisions; it performs no input or output itself.
//! Network exchanges, files, the terminal and the clock are the caller's: the
//! caller is told what to do by plain values and reports back what happened.

pub mod auth;
pub mod check_md_duplicates;
pub mod convert_image;
pub mod extract_reddit_saved_data;
pub mod fetch_reddit_saved_data;
pub mod generate_random_number;
pub mod http;
pub mod paginator;
pub mod permalink;
pub mod persist;
pub mod prompt;
pub mod random_number_generator;
pub mod saved_item;
pub mod text;
pub mod unsave;
pub mod workflow;
