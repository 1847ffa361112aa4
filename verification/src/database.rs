//! The asset database: what sprites, sprite sheets and fonts there are, by
//! name, and which of them have been loaded.

use vstd::prelude::*;
use vstd::string::StrSliceExecFns;
use vstd::string::StringExecFns;
use crate::catalog::Catalog;
use crate::error::Error;
use crate::error::LoadingError;
use crate::error::LookupError;
use crate::font::TTFont;
use crate::geometry::Double;
use crate::gpu::Format;
use crate::json::DatabaseJSON;
use crate::json::SpriteJSON;
use crate::json::SpriteJSONEntry;
use crate::json::SpriteSheetJSON;
use crate::json::SpriteSheetJSONEntry;
use crate::json::TTFJSON;
use crate::json::TTFJSONEntry;

verus! {

/// An image in memory: its width and height, and its texels row after row.
pub struct ImageLoadInfo<T> {
    pub size: [u32; 2],
    pub format: Format,
    pub bytes: Vec<T>,
}

impl ImageLoadInfo<u8> {
    /// The image of `width` by `height` texels of four bytes each, if
    /// `bytes` holds just that many.
    pub fn rgba8(width: u32, height: u32, bytes: Vec<u8>) -> (image: Option<ImageLoadInfo<u8>>)
        ensures
            width * height * 4 != bytes.len() ==> image is None,
            width * height * 4 == bytes.len() ==> {
                &&& image matches Some(loaded)
                &&& loaded.size@ == seq![width, height]
                &&& loaded.format == Format::RGBA8
                &&& loaded.bytes == bytes
            },
    {
        assert(width * height <= 0xffff_ffff * 0xffff_ffff) by (nonlinear_arith)
            requires
                width <= 0xffff_ffff,
                height <= 0xffff_ffff,
        ;
        let texels: u64 = width as u64 * height as u64;
        let needed: u128 = texels as u128 * 4;
        if needed == bytes.len() as u128 {
            let size: [u32; 2] = [width, height];
            assert(size@ =~= seq![width, height]);
            Some(ImageLoadInfo { size, format: Format::RGBA8, bytes })
        } else {
            None
        }
    }
}

pub struct SpriteEntry {
    pub cfg: SpriteJSONEntry,
    pub loaded: Option<ImageLoadInfo<u8>>,
}

pub struct SpriteSheetEntry {
    pub cfg: SpriteSheetJSONEntry,
    pub loaded: Option<ImageLoadInfo<u8>>,
}

pub struct TTFEntry {
    pub cfg: TTFJSONEntry,
    pub loaded: Option<TTFont>,
}

/// `relative` below the directory `base`.
pub fn join_path(base: &str, relative: &str) -> (path: String)
    ensures
        path@ == base@ + "/"@ + relative@,
{
    let mut path = String::from_str(base);
    path.append("/");
    path.append(relative);
    path
}

/// The sprites of a configuration by name, none of them loaded. Where a
/// name comes twice, the last entry counts.
pub open spec fn sprite_entries(entries: Seq<SpriteJSONEntry>) -> Map<Seq<char>, SpriteEntry>
    decreases entries.len(),
{
    if entries.len() == 0 {
        Map::empty()
    } else {
        sprite_entries(entries.drop_last()).insert(
            entries.last().name@,
            SpriteEntry { cfg: entries.last(), loaded: None },
        )
    }
}

pub fn parse_sprites(info: SpriteJSON) -> (catalog: Catalog<SpriteEntry>)
    ensures
        catalog@ == sprite_entries(info.sprites@),
{
    let mut catalog: Catalog<SpriteEntry> = Catalog::new();
    let ghost all = info.sprites@;
    assert(all.take(0) =~= Seq::<SpriteJSONEntry>::empty());
    for entry in it: info.sprites
        invariant
            it.seq() == all,
            catalog@ == sprite_entries(all.take(it.index() as int)),
    {
        assert(all.take(it.index() + 1).drop_last() =~= all.take(it.index() as int));
        let name = entry.name.clone();
        catalog.insert(name.as_str(), SpriteEntry { cfg: entry, loaded: None });
    }
    assert(all.take(all.len() as int) =~= all);
    catalog
}

/// The sprite sheets of a configuration by name, none of them loaded.
/// Where a name comes twice, the last entry counts.
pub open spec fn sprite_sheet_entries(entries: Seq<SpriteSheetJSONEntry>) -> Map<
    Seq<char>,
    SpriteSheetEntry,
>
    decreases entries.len(),
{
    if entries.len() == 0 {
        Map::empty()
    } else {
        sprite_sheet_entries(entries.drop_last()).insert(
            entries.last().name@,
            SpriteSheetEntry { cfg: entries.last(), loaded: None },
        )
    }
}

pub fn parse_sprite_sheets(info: SpriteSheetJSON) -> (catalog: Catalog<SpriteSheetEntry>)
    ensures
        catalog@ == sprite_sheet_entries(info.sprite_sheets@),
{
    let mut catalog: Catalog<SpriteSheetEntry> = Catalog::new();
    let ghost all = info.sprite_sheets@;
    assert(all.take(0) =~= Seq::<SpriteSheetJSONEntry>::empty());
    for entry in it: info.sprite_sheets
        invariant
            it.seq() == all,
            catalog@ == sprite_sheet_entries(all.take(it.index() as int)),
    {
        assert(all.take(it.index() + 1).drop_last() =~= all.take(it.index() as int));
        let name = entry.name.clone();
        catalog.insert(name.as_str(), SpriteSheetEntry { cfg: entry, loaded: None });
    }
    assert(all.take(all.len() as int) =~= all);
    catalog
}

/// The fonts of a configuration by name, none of them loaded. Where a name
/// comes twice, the last entry counts.
pub open spec fn ttf_entries(entries: Seq<TTFJSONEntry>) -> Map<Seq<char>, TTFEntry>
    decreases entries.len(),
{
    if entries.len() == 0 {
        Map::empty()
    } else {
        ttf_entries(entries.drop_last()).insert(
            entries.last().name@,
            TTFEntry { cfg: entries.last(), loaded: None },
        )
    }
}

pub fn parse_ttfs(info: TTFJSON) -> (catalog: Catalog<TTFEntry>)
    ensures
        catalog@ == ttf_entries(info.fonts@),
{
    let mut catalog: Catalog<TTFEntry> = Catalog::new();
    let ghost all = info.fonts@;
    assert(all.take(0) =~= Seq::<TTFJSONEntry>::empty());
    for entry in it: info.fonts
        invariant
            it.seq() == all,
            catalog@ == ttf_entries(all.take(it.index() as int)),
    {
        assert(all.take(it.index() + 1).drop_last() =~= all.take(it.index() as int));
        let name = entry.name.clone();
        catalog.insert(name.as_str(), TTFEntry { cfg: entry, loaded: None });
    }
    assert(all.take(all.len() as int) =~= all);
    catalog
}

impl SpriteEntry {
    /// Where the sprite's image is, for a database in the directory
    /// `base_path`.
    pub fn path(&self, base_path: &str) -> (path: String)
        ensures
            path@ == base_path@ + "/"@ + self.cfg.image_path@,
    {
        join_path(base_path, self.cfg.image_path.as_str())
    }

    /// Keeps the image that was read from `path`.
    pub fn load(&mut self, image: ImageLoadInfo<u8>)
        ensures
            final(self).cfg == old(self).cfg,
            final(self).loaded == Some(image),
    {
        self.loaded = Some(image);
    }

    pub fn unload(&mut self)
        ensures
            final(self).cfg == old(self).cfg,
            final(self).loaded is None,
    {
        self.loaded = None;
    }
}

impl SpriteSheetEntry {
    /// Where the sheet's image is, for a database in the directory
    /// `base_path`.
    pub fn path(&self, base_path: &str) -> (path: String)
        ensures
            path@ == base_path@ + "/"@ + self.cfg.image_path@,
    {
        join_path(base_path, self.cfg.image_path.as_str())
    }

    /// Keeps the image that was read from `path`.
    pub fn load(&mut self, image: ImageLoadInfo<u8>)
        ensures
            final(self).cfg == old(self).cfg,
            final(self).loaded == Some(image),
    {
        self.loaded = Some(image);
    }

    pub fn unload(&mut self)
        ensures
            final(self).cfg == old(self).cfg,
            final(self).loaded is None,
    {
        self.loaded = None;
    }
}

/// The width of the atlas that a font is rasterized into.
pub const ATLAS_WIDTH: u32 = 1280;

/// The height of the atlas that a font is rasterized into.
pub const ATLAS_HEIGHT: u32 = 1024;

/// How many characters the default set has: those with the codes below it.
pub const DEFAULT_TYPESET_LEN: u8 = 127;

/// What is needed to rasterize a font.
pub struct FontRequest {
    pub path: String,
    pub width: u32,
    pub height: u32,
    pub size: Double,
    pub typeset: Vec<char>,
}

/// The characters that are rasterized where a font names none: those with
/// the codes 0 to 126.
pub open spec fn default_typeset() -> Seq<char> {
    Seq::new(DEFAULT_TYPESET_LEN as nat, |code: int| code as u8 as char)
}

impl TTFEntry {
    /// Where the font's file is, for a database in the directory
    /// `base_path`.
    pub fn path(&self, base_path: &str) -> (path: String)
        ensures
            path@ == base_path@ + "/"@ + self.cfg.path@,
    {
        join_path(base_path, self.cfg.path.as_str())
    }

    /// The characters to rasterize: those that the configuration names, in
    /// their order, or the default ones.
    pub open spec fn typeset_spec(&self) -> Seq<char> {
        match self.cfg.glyphs {
            Some(glyphs) => glyphs@,
            None => default_typeset(),
        }
    }

    pub fn typeset(&self) -> (typeset: Vec<char>)
        ensures
            typeset@ == self.typeset_spec(),
    {
        let mut typeset: Vec<char> = Vec::new();
        match &self.cfg.glyphs {
            Some(glyphs) => {
                let text = glyphs.as_str();
                let count: usize = text.unicode_len();
                let mut k: usize = 0;
                while k < count
                    invariant
                        k <= count,
                        count == text@.len(),
                        typeset@ == text@.take(k as int),
                    decreases count - k,
                {
                    typeset.push(text.get_char(k));
                    assert(typeset@ =~= text@.take(k + 1));
                    k = k + 1;
                }
                assert(text@.take(count as int) =~= text@);
            },
            None => {
                let mut code: u8 = 0;
                while code < DEFAULT_TYPESET_LEN
                    invariant
                        code <= DEFAULT_TYPESET_LEN,
                        typeset@ == default_typeset().take(code as int),
                    decreases DEFAULT_TYPESET_LEN - code,
                {
                    typeset.push(code as char);
                    assert(typeset@ =~= default_typeset().take(code + 1));
                    code = code + 1;
                }
                assert(default_typeset().take(code as int) =~= default_typeset());
            },
        }
        typeset
    }

    /// What to rasterize for this font, for a database in the directory
    /// `base_path`.
    pub fn request(&self, base_path: &str) -> (request: FontRequest)
        ensures
            request.path@ == base_path@ + "/"@ + self.cfg.path@,
            request.width == ATLAS_WIDTH,
            request.height == ATLAS_HEIGHT,
            request.size == self.cfg.size,
            request.typeset@ == self.typeset_spec(),
    {
        FontRequest {
            path: self.path(base_path),
            width: ATLAS_WIDTH,
            height: ATLAS_HEIGHT,
            size: self.cfg.size,
            typeset: self.typeset(),
        }
    }

    /// Keeps the font that was rasterized for `request`.
    pub fn load(&mut self, font: TTFont)
        ensures
            final(self).cfg == old(self).cfg,
            final(self).loaded == Some(font),
    {
        self.loaded = Some(font);
    }

    pub fn unload(&mut self)
        ensures
            final(self).cfg == old(self).cfg,
            final(self).loaded is None,
    {
        self.loaded = None;
    }
}

/// The files that hold the configurations of a database, each where the
/// database's own file names one.
pub struct ConfigPaths {
    pub sprite_cfg: Option<String>,
    pub sprite_sheet_cfg: Option<String>,
    pub ttf_cfg: Option<String>,
    pub particle_cfg: Option<String>,
}

/// `relative` below `base`, where there is one.
pub open spec fn joined(base: Seq<char>, relative: Option<String>) -> Option<Seq<char>> {
    match relative {
        Some(relative) => Some(base + "/"@ + relative@),
        None => None,
    }
}

fn join_optional(base: &str, relative: &Option<String>) -> (path: Option<String>)
    ensures
        match path {
            Some(path) => joined(base@, *relative) == Some(path@),
            None => joined(base@, *relative) is None,
        },
{
    match relative {
        Some(relative) => Some(join_path(base, relative.as_str())),
        None => None,
    }
}

pub struct Database {
    base_path: String,
    sprites: Catalog<SpriteEntry>,
    sprite_sheets: Catalog<SpriteSheetEntry>,
    ttfs: Catalog<TTFEntry>,
    particle_cfg: String,
}

impl Database {
    /// The database's directory.
    pub closed spec fn base(&self) -> Seq<char> {
        self.base_path@
    }

    pub closed spec fn sprites(&self) -> Map<Seq<char>, SpriteEntry> {
        self.sprites@
    }

    pub closed spec fn sprite_sheets(&self) -> Map<Seq<char>, SpriteSheetEntry> {
        self.sprite_sheets@
    }

    pub closed spec fn ttfs(&self) -> Map<Seq<char>, TTFEntry> {
        self.ttfs@
    }

    /// The particle system's configuration file, relative to the
    /// database's directory; empty where none was named.
    pub closed spec fn particle_cfg(&self) -> Seq<char> {
        self.particle_cfg@
    }

    /// Where the database's own file is: `shoyu.json` in its directory.
    pub fn file_path(base_path: &str) -> (path: String)
        ensures
            path@ == base_path@ + "/"@ + "shoyu.json"@,
    {
        join_path(base_path, "shoyu.json")
    }

    /// Where the configurations are that the database's own file names.
    pub fn config_paths(base_path: &str, info: &DatabaseJSON) -> (paths: ConfigPaths)
        ensures
            paths.sprite_cfg.is_some() == info.sprite_cfg.is_some(),
            paths.sprite_cfg matches Some(path) ==> joined(base_path@, info.sprite_cfg) == Some(
                path@,
            ),
            paths.sprite_sheet_cfg.is_some() == info.sprite_sheet_cfg.is_some(),
            paths.sprite_sheet_cfg matches Some(path) ==> joined(
                base_path@,
                info.sprite_sheet_cfg,
            ) == Some(path@),
            paths.ttf_cfg.is_some() == info.ttf_cfg.is_some(),
            paths.ttf_cfg matches Some(path) ==> joined(base_path@, info.ttf_cfg) == Some(path@),
            paths.particle_cfg.is_some() == info.particle_cfg.is_some(),
            paths.particle_cfg matches Some(path) ==> joined(base_path@, info.particle_cfg)
                == Some(path@),
    {
        ConfigPaths {
            sprite_cfg: join_optional(base_path, &info.sprite_cfg),
            sprite_sheet_cfg: join_optional(base_path, &info.sprite_sheet_cfg),
            ttf_cfg: join_optional(base_path, &info.ttf_cfg),
            particle_cfg: join_optional(base_path, &info.particle_cfg),
        }
    }

    /// A database in the directory `base_path`, from its own file and from
    /// the configurations that were read for it. A configuration that is
    /// not there leaves its part of the database empty. Nothing is loaded.
    pub fn new(
        base_path: &str,
        info: DatabaseJSON,
        sprites: Option<SpriteJSON>,
        sprite_sheets: Option<SpriteSheetJSON>,
        ttfs: Option<TTFJSON>,
    ) -> (database: Database)
        ensures
            database.base() == base_path@,
            database.sprites() == match sprites {
                Some(json) => sprite_entries(json.sprites@),
                None => Map::<Seq<char>, SpriteEntry>::empty(),
            },
            database.sprite_sheets() == match sprite_sheets {
                Some(json) => sprite_sheet_entries(json.sprite_sheets@),
                None => Map::<Seq<char>, SpriteSheetEntry>::empty(),
            },
            database.ttfs() == match ttfs {
                Some(json) => ttf_entries(json.fonts@),
                None => Map::<Seq<char>, TTFEntry>::empty(),
            },
            database.particle_cfg() == match info.particle_cfg {
                Some(path) => path@,
                None => Seq::<char>::empty(),
            },
    {
        let sprites = match sprites {
            Some(json) => parse_sprites(json),
            None => Catalog::new(),
        };
        let sprite_sheets = match sprite_sheets {
            Some(json) => parse_sprite_sheets(json),
            None => Catalog::new(),
        };
        let ttfs = match ttfs {
            Some(json) => parse_ttfs(json),
            None => Catalog::new(),
        };
        let particle_cfg = match info.particle_cfg {
            Some(path) => path,
            None => String::new(),
        };
        Database {
            base_path: String::from_str(base_path),
            sprites,
            sprite_sheets,
            ttfs,
            particle_cfg,
        }
    }

    pub fn base_path(&self) -> (path: &str)
        ensures
            path@ == self.base(),
    {
        self.base_path.as_str()
    }

    pub fn particle_system_cfg_path(&self) -> (result: Result<String, Error>)
        ensures
            result matches Ok(path) && path@ == self.particle_cfg(),
    {
        Ok(self.particle_cfg.clone())
    }

    /// The sprite `name` with its image. An unknown name is a lookup error
    /// that names it. A sprite that is not loaded is a loading error that
    /// names it and the image's path.
    pub fn fetch_sprite(&self, name: &str) -> (result: Result<&SpriteEntry, Error>)
        ensures
            match result {
                Ok(entry) => self.sprites().dom().contains(name@) && *entry == self.sprites()[name@]
                    && entry.loaded is Some,
                Err(Error::LookupError(error)) => !self.sprites().dom().contains(name@)
                    && error.entry@ == name@,
                Err(Error::LoadingError(error)) => self.sprites().dom().contains(name@)
                    && self.sprites()[name@].loaded is None && error.entry@ == name@ && error.path@
                    == self.base() + "/"@ + self.sprites()[name@].cfg.image_path@,
                Err(Error::SlotError()) => false,
            },
    {
        match self.sprites.get(name) {
            Some(entry) => {
                if entry.loaded.is_some() {
                    Ok(entry)
                } else {
                    Err(
                        Error::LoadingError(
                            LoadingError {
                                entry: String::from_str(name),
                                path: entry.path(self.base_path.as_str()),
                            },
                        ),
                    )
                }
            },
            None => Err(Error::LookupError(LookupError { entry: String::from_str(name) })),
        }
    }

    /// The sprite sheet `name` with its image; errors as for a sprite.
    pub fn fetch_sprite_sheet(&self, name: &str) -> (result: Result<&SpriteSheetEntry, Error>)
        ensures
            match result {
                Ok(entry) => self.sprite_sheets().dom().contains(name@) && *entry
                    == self.sprite_sheets()[name@] && entry.loaded is Some,
                Err(Error::LookupError(error)) => !self.sprite_sheets().dom().contains(name@)
                    && error.entry@ == name@,
                Err(Error::LoadingError(error)) => self.sprite_sheets().dom().contains(name@)
                    && self.sprite_sheets()[name@].loaded is None && error.entry@ == name@
                    && error.path@ == self.base() + "/"@
                    + self.sprite_sheets()[name@].cfg.image_path@,
                Err(Error::SlotError()) => false,
            },
    {
        match self.sprite_sheets.get(name) {
            Some(entry) => {
                if entry.loaded.is_some() {
                    Ok(entry)
                } else {
                    Err(
                        Error::LoadingError(
                            LoadingError {
                                entry: String::from_str(name),
                                path: entry.path(self.base_path.as_str()),
                            },
                        ),
                    )
                }
            },
            None => Err(Error::LookupError(LookupError { entry: String::from_str(name) })),
        }
    }

    /// The font `name`, rasterized; errors as for a sprite, with the path
    /// of the font's file.
    pub fn fetch_ttf(&self, name: &str) -> (result: Result<&TTFEntry, Error>)
        ensures
            match result {
                Ok(entry) => self.ttfs().dom().contains(name@) && *entry == self.ttfs()[name@]
                    && entry.loaded is Some,
                Err(Error::LookupError(error)) => !self.ttfs().dom().contains(name@)
                    && error.entry@ == name@,
                Err(Error::LoadingError(error)) => self.ttfs().dom().contains(name@)
                    && self.ttfs()[name@].loaded is None && error.entry@ == name@ && error.path@
                    == self.base() + "/"@ + self.ttfs()[name@].cfg.path@,
                Err(Error::SlotError()) => false,
            },
    {
        match self.ttfs.get(name) {
            Some(entry) => {
                if entry.loaded.is_some() {
                    Ok(entry)
                } else {
                    Err(
                        Error::LoadingError(
                            LoadingError {
                                entry: String::from_str(name),
                                path: entry.path(self.base_path.as_str()),
                            },
                        ),
                    )
                }
            },
            None => Err(Error::LookupError(LookupError { entry: String::from_str(name) })),
        }
    }

    /// The sprite `name`, loaded or not.
    pub fn sprite(&self, name: &str) -> (found: Option<&SpriteEntry>)
        ensures
            self.sprites().dom().contains(name@) ==> found == Some(&self.sprites()[name@]),
            !self.sprites().dom().contains(name@) ==> found is None,
    {
        self.sprites.get(name)
    }

    /// The sprite sheet `name`, loaded or not.
    pub fn sprite_sheet(&self, name: &str) -> (found: Option<&SpriteSheetEntry>)
        ensures
            self.sprite_sheets().dom().contains(name@) ==> found == Some(
                &self.sprite_sheets()[name@],
            ),
            !self.sprite_sheets().dom().contains(name@) ==> found is None,
    {
        self.sprite_sheets.get(name)
    }

    /// The font `name`, loaded or not.
    pub fn ttf(&self, name: &str) -> (found: Option<&TTFEntry>)
        ensures
            self.ttfs().dom().contains(name@) ==> found == Some(&self.ttfs()[name@]),
            !self.ttfs().dom().contains(name@) ==> found is None,
    {
        self.ttfs.get(name)
    }

    /// The sprite `name`, loaded or not, for loading it.
    pub fn sprite_mut(&mut self, name: &str) -> (found: Option<&mut SpriteEntry>)
        ensures
            final(self).base() == old(self).base(),
            final(self).sprite_sheets() == old(self).sprite_sheets(),
            final(self).ttfs() == old(self).ttfs(),
            final(self).particle_cfg() == old(self).particle_cfg(),
            !old(self).sprites().dom().contains(name@) ==> found is None && final(self).sprites()
                == old(self).sprites(),
            old(self).sprites().dom().contains(name@) ==> {
                &&& found matches Some(entry)
                &&& *entry == old(self).sprites()[name@]
                &&& final(self).sprites() == old(self).sprites().insert(name@, *final(entry))
            },
    {
        self.sprites.get_mut(name)
    }

    /// The sprite sheet `name`, loaded or not, for loading it.
    pub fn sprite_sheet_mut(&mut self, name: &str) -> (found: Option<&mut SpriteSheetEntry>)
        ensures
            final(self).base() == old(self).base(),
            final(self).sprites() == old(self).sprites(),
            final(self).ttfs() == old(self).ttfs(),
            final(self).particle_cfg() == old(self).particle_cfg(),
            !old(self).sprite_sheets().dom().contains(name@) ==> found is None
                && final(self).sprite_sheets() == old(self).sprite_sheets(),
            old(self).sprite_sheets().dom().contains(name@) ==> {
                &&& found matches Some(entry)
                &&& *entry == old(self).sprite_sheets()[name@]
                &&& final(self).sprite_sheets() == old(self).sprite_sheets().insert(
                    name@,
                    *final(entry),
                )
            },
    {
        self.sprite_sheets.get_mut(name)
    }

    /// The font `name`, loaded or not, for loading it.
    pub fn ttf_mut(&mut self, name: &str) -> (found: Option<&mut TTFEntry>)
        ensures
            final(self).base() == old(self).base(),
            final(self).sprites() == old(self).sprites(),
            final(self).sprite_sheets() == old(self).sprite_sheets(),
            final(self).particle_cfg() == old(self).particle_cfg(),
            !old(self).ttfs().dom().contains(name@) ==> found is None && final(self).ttfs()
                == old(self).ttfs(),
            old(self).ttfs().dom().contains(name@) ==> {
                &&& found matches Some(entry)
                &&& *entry == old(self).ttfs()[name@]
                &&& final(self).ttfs() == old(self).ttfs().insert(name@, *final(entry))
            },
    {
        self.ttfs.get_mut(name)
    }
}

} // verus!
