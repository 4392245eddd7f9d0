//! The darkroom's edit model: develop parameters and their stored form, the
//! stage plan they stand for, styles, the catalogue rows that keep them, and the
//! text and pixel helpers of the panels around them.
pub mod catalogue;
pub mod codec;
pub mod collections;
pub mod curves;
pub mod editor;
pub mod exif;
pub mod fields;
pub mod float32;
pub mod history;
pub mod lists;
pub mod metadata;
pub mod params;
pub mod paths;
pub mod pipeline;
pub mod planlaws;
pub mod print;
pub mod raster;
pub mod raw_preview;
pub mod render;
pub mod rules;
pub mod stagelaws;
pub mod stylelaws;
pub mod stylemodules;
pub mod stylepanel;
pub mod styles;
pub mod tables;
pub mod tags;
pub mod tether;
pub mod text;
pub mod theme;

use vstd::prelude::*;

verus! {

} // verus!
