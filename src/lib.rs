//! Pie charts for character-cell terminals, verified.
//!
//! A chart's slices are split into angular ranges (`angle`), the target
//! area into a disc and a legend (`chart`), and the disc is rasterized one
//! glyph per cell or eight braille dots per cell (`raster`); the legend is
//! laid out as text runs (`legend`). `render` ties these together. The
//! caller supplies the angle of each vector that `disc_offsets` lists, in
//! `TURN` units per full turn, and applies the cell writes and text runs
//! that come back to its buffer.

pub mod angle;
pub mod border_style;
pub mod chart;
pub mod config;
pub mod legend;
pub mod raster;
pub mod render;
pub mod slice;
pub mod symbols;
pub mod text;
pub mod title;

pub use angle::{is_angle_in_slice, slice_angle_range, QUARTER, TURN};
pub use border_style::BorderStyle;
pub use chart::{Percentage, PieChart};
pub use config::{LegendAlignment, LegendLayout, LegendPosition, Rect, Resolution};
pub use legend::{legend_entry_text, LegendText};
pub use raster::{braille_offsets, standard_offsets, Cell};
pub use slice::PieSlice;
pub use title::{TitleAlignment, TitlePosition, TitleStyle};
