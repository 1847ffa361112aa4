//! The asset database's configuration as it is written down by its users.

use vstd::prelude::*;
use crate::geometry::Double;
use crate::geometry::Rect2D;

verus! {

pub struct SpriteJSONEntry {
    pub name: String,
    pub image_path: String,
}

pub struct SpriteJSON {
    pub sprites: Vec<SpriteJSONEntry>,
}

/// One sprite of a sheet: its number and where it lies in the sheet's image,
/// in pixels.
pub struct SpriteSheetJSONSprite {
    pub name: String,
    pub id: u32,
    pub bounds: Rect2D,
}

pub struct SpriteSheetJSONAutoGen {
    pub name: String,
    pub bounds: Rect2D,
    pub stride: u32,
}

pub struct SpriteSheetJSONEntry {
    pub name: String,
    pub image_path: String,
    pub sprites: Option<Vec<SpriteSheetJSONSprite>>,
    pub auto_gen: Option<SpriteSheetJSONAutoGen>,
}

pub struct SpriteSheetJSON {
    pub sprite_sheets: Vec<SpriteSheetJSONEntry>,
}

/// One font: the file, the size to rasterize it at, and the characters to
/// rasterize, where these are not the default ones.
pub struct TTFJSONEntry {
    pub name: String,
    pub path: String,
    pub size: Double,
    pub glyphs: Option<String>,
}

pub struct TTFJSON {
    pub fonts: Vec<TTFJSONEntry>,
}

/// The database's own file: where the other configurations are, each
/// relative to the database's directory.
pub struct DatabaseJSON {
    pub sprite_cfg: Option<String>,
    pub sprite_sheet_cfg: Option<String>,
    pub ttf_cfg: Option<String>,
    pub particle_cfg: Option<String>,
}

} // verus!
