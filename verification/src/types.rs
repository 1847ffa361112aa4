//! The records that the resource manager keeps for sprites, sprite sheets
//! and fonts.

use std::collections::HashMap;
use vstd::prelude::*;
use crate::geometry::Rect2D;
use crate::gpu::BindGroup;
use crate::gpu::Image;
use crate::gpu::ImageView;
use crate::pool::Handle;

verus! {

pub struct FontInfo<'a> {
    pub name: &'a str,
    pub db_key: &'a str,
}

pub struct SpriteInfo<'a> {
    pub name: &'a str,
    pub db_key: &'a str,
}

pub struct SpriteSheetInfo<'a> {
    pub name: &'a str,
    pub db_key: &'a str,
}

#[derive(Debug, PartialEq, Eq)]
pub struct Sprite {
    pub dim: [u32; 2],
    pub handle: Handle<Image>,
    pub view: Handle<ImageView>,
    pub bg: Handle<BindGroup>,
}

/// A sheet of sprites: the image, and where each sprite lies in it, in
/// pixels, by the sprite's number.
#[derive(Debug, PartialEq, Eq)]
pub struct SpriteSheet {
    pub dim: [u32; 2],
    pub handle: Handle<Image>,
    pub view: Handle<ImageView>,
    pub bg: Handle<BindGroup>,
    pub sprites: HashMap<u32, Rect2D>,
}

/// A font: the atlas on the GPU, and the name under which the database has
/// the glyphs.
#[derive(Debug, PartialEq, Eq)]
pub struct Font {
    pub dim: [u32; 2],
    pub atlas: Handle<Image>,
    pub atlas_view: Handle<ImageView>,
    pub font: String,
    pub bg: Handle<BindGroup>,
}

/// What was made on the GPU for an asset: the image, its view, and the bind
/// group that binds the view.
#[derive(Clone, Copy, Debug, PartialEq, Eq)]
pub struct Uploaded {
    pub image: Handle<Image>,
    pub view: Handle<ImageView>,
    pub bg: Handle<BindGroup>,
}

} // verus!
