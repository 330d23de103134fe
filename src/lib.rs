//! Reduces map tiles to an eight-colour palette and packs them four bits per pixel.
pub mod palette;
pub mod dither;
pub mod exact;
pub mod perceptual;
pub mod encoder;

pub use encoder::{convert_image, DecodeError};
pub use exact::outdoor_map_color;
pub use palette::{color_to_raw, PaletteColor, Rgb};
pub use perceptual::generic_map_color;
