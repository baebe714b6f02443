//! Color-scheme configuration: reading a palette from a table document or a
//! resource dump, and writing it out as the flat map of text forms that
//! templates are rendered from.

pub mod config;
pub mod context;
pub mod document;
pub mod error;
pub mod pattern;
pub mod scan;
pub mod structured;
pub mod structures;
pub mod text;
pub mod utils;

pub use crate::config::{compose_config, Config, Overrides};
pub use crate::error::ConfigError;
pub use crate::structures::{Color, Colors, Wallpaper};
pub use crate::utils::detect_string_type;
