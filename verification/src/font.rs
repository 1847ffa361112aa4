//! A rasterized font: the atlas that holds its glyphs, and where each glyph
//! lies in it.

use std::collections::HashMap;
use vstd::prelude::*;
use crate::geometry::Rect2D;
use crate::geometry::Scalar;

verus! {

broadcast use vstd::std_specs::hash::group_hash_axioms;

/// One glyph: where it is in the atlas, in pixels, and how it is set.
#[derive(Clone, Copy, Debug, PartialEq, Eq, Structural)]
pub struct Glyph {
    pub bounds: Rect2D,
    pub advance: Scalar,
    pub bearing_x: Scalar,
    pub bearing_y: Scalar,
}

/// A character with its glyph.
#[derive(Clone, Copy, Debug, PartialEq, Eq, Structural)]
pub struct GlyphOf {
    pub character: char,
    pub glyph: Glyph,
}

pub struct TTFont {
    glyphs: HashMap<u32, Glyph>,
    atlas: Option<Vec<u8>>,
    atlas_width: u32,
    atlas_height: u32,
}

/// The glyphs of the list, by the characters' code points. Where a character
/// comes twice, its last glyph counts.
pub open spec fn glyph_map(glyphs: Seq<GlyphOf>) -> Map<u32, Glyph>
    decreases glyphs.len(),
{
    if glyphs.len() == 0 {
        Map::empty()
    } else {
        glyph_map(glyphs.drop_last()).insert(glyphs.last().character as u32, glyphs.last().glyph)
    }
}

impl TTFont {
    /// The code points of the characters that the font has a glyph for, each
    /// with its glyph.
    pub closed spec fn glyphs(&self) -> Map<u32, Glyph> {
        self.glyphs@
    }

    /// The atlas, one byte for each pixel, row after row.
    pub closed spec fn atlas(&self) -> Option<Vec<u8>> {
        self.atlas
    }

    /// The atlas's width and height in pixels.
    pub closed spec fn atlas_size(&self) -> (u32, u32) {
        (self.atlas_width, self.atlas_height)
    }

    /// A font from the glyphs that were rasterized into `atlas`.
    pub fn new(glyphs: &Vec<GlyphOf>, atlas: Vec<u8>, atlas_width: u32, atlas_height: u32) -> (font:
        TTFont)
        ensures
            font.glyphs() == glyph_map(glyphs@),
            font.atlas() == Some(atlas),
            font.atlas_size() == (atlas_width, atlas_height),
    {
        let mut map: HashMap<u32, Glyph> = HashMap::new();
        let mut font = TTFont { glyphs: map, atlas: Some(atlas), atlas_width, atlas_height };
        assert(glyphs@.take(0) =~= Seq::<GlyphOf>::empty());
        assert(font.glyphs() =~= glyph_map(glyphs@.take(0)));
        let mut k: usize = 0;
        while k < glyphs.len()
            invariant
                k <= glyphs.len(),
                font.glyphs() == glyph_map(glyphs@.take(k as int)),
                font.atlas == Some(atlas),
                font.atlas_width == atlas_width,
                font.atlas_height == atlas_height,
            decreases glyphs.len() - k,
        {
            let item = glyphs[k];
            font.glyphs.insert(item.character as u32, item.glyph);
            assert(glyphs@.take(k + 1).drop_last() =~= glyphs@.take(k as int));
            k = k + 1;
        }
        assert(glyphs@.take(k as int) =~= glyphs@);
        font
    }

    pub fn atlas_bytes(&self) -> (atlas: Option<&Vec<u8>>)
        ensures
            match atlas {
                Some(bytes) => self.atlas() == Some(*bytes),
                None => self.atlas() is None,
            },
    {
        self.atlas.as_ref()
    }

    pub fn atlas_width(&self) -> (width: u32)
        ensures
            width == self.atlas_size().0,
    {
        self.atlas_width
    }

    pub fn atlas_height(&self) -> (height: u32)
        ensures
            height == self.atlas_size().1,
    {
        self.atlas_height
    }

    /// The glyph of `character`, if the font has one.
    pub fn glyph(&self, character: char) -> (found: Option<Glyph>)
        ensures
            found == if self.glyphs().dom().contains(character as u32) {
                Some(self.glyphs()[character as u32])
            } else {
                None::<Glyph>
            },
    {
        let code: u32 = character as u32;
        match self.glyphs.get(&code) {
            Some(glyph) => Some(*glyph),
            None => None,
        }
    }
}

} // verus!
