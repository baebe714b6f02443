//! The values a configuration is made of.

pub mod alpha;
pub mod color;
pub mod colors;
pub mod wallpaper;

pub use self::color::Color;
pub use self::colors::Colors;
pub use self::wallpaper::Wallpaper;
