use shoyu::catalog::Catalog;
use shoyu::database::join_path;
use shoyu::database::parse_sprite_sheets;
use shoyu::database::parse_sprites;
use shoyu::database::parse_ttfs;
use shoyu::database::Database;
use shoyu::database::ImageLoadInfo;
use shoyu::error::Error;
use shoyu::font::Glyph;
use shoyu::font::GlyphOf;
use shoyu::font::TTFont;
use shoyu::geometry::Double;
use shoyu::geometry::Rect2D;
use shoyu::geometry::Scalar;
use shoyu::gpu::Format;
use shoyu::json::DatabaseJSON;
use shoyu::json::SpriteJSON;
use shoyu::json::SpriteJSONEntry;
use shoyu::json::SpriteSheetJSON;
use shoyu::json::SpriteSheetJSONEntry;
use shoyu::json::TTFJSONEntry;
use shoyu::json::TTFJSON;

fn sprite(name: &str, path: &str) -> SpriteJSONEntry {
    SpriteJSONEntry { name: name.to_string(), image_path: path.to_string() }
}

fn sheet(name: &str, path: &str) -> SpriteSheetJSONEntry {
    SpriteSheetJSONEntry {
        name: name.to_string(),
        image_path: path.to_string(),
        sprites: None,
        auto_gen: None,
    }
}

fn font(name: &str, glyphs: Option<&str>) -> TTFJSONEntry {
    TTFJSONEntry {
        name: name.to_string(),
        path: "fonts/a.ttf".to_string(),
        size: Double { bits: 24.0f64.to_bits() },
        glyphs: glyphs.map(|g| g.to_string()),
    }
}

fn database() -> Database {
    Database::new(
        "/wksp/database",
        DatabaseJSON {
            sprite_cfg: Some("sprites.json".to_string()),
            sprite_sheet_cfg: Some("sheets.json".to_string()),
            ttf_cfg: Some("fonts.json".to_string()),
            particle_cfg: Some("particles.json".to_string()),
        },
        Some(SpriteJSON { sprites: vec![sprite("name", "img/a.png"), sprite("other", "b.png")] }),
        Some(SpriteSheetJSON { sprite_sheets: vec![sheet("name", "img/sheet.png")] }),
        Some(TTFJSON { fonts: vec![font("font", None)] }),
    )
}

fn image() -> ImageLoadInfo<u8> {
    ImageLoadInfo::rgba8(2, 1, vec![0, 1, 2, 3, 4, 5, 6, 7]).unwrap()
}

#[test]
fn test_database() {
    let mut db = database();
    assert_eq!(db.base_path(), "/wksp/database");
    db.sprite_mut("name").unwrap().load(image());
    db.sprite_sheet_mut("name").unwrap().load(image());

    let sprite = db.fetch_sprite("name");
    assert!(sprite.is_ok());

    let sprite = db.fetch_sprite_sheet("name");
    assert!(sprite.is_ok());
}

#[test]
fn a_catalog_keeps_the_last_value_under_a_name() {
    let mut catalog: Catalog<u32> = Catalog::new();
    assert!(catalog.get("a").is_none());
    catalog.insert("a", 1);
    catalog.insert("b", 2);
    catalog.insert("a", 3);
    assert_eq!(catalog.get("a"), Some(&3));
    assert_eq!(catalog.get("b"), Some(&2));
    assert!(catalog.contains("b"));
    assert!(!catalog.contains("c"));
    *catalog.get_mut("b").unwrap() = 20;
    assert_eq!(catalog.get("b"), Some(&20));
    assert_eq!(catalog.get("a"), Some(&3));
    assert!(catalog.get_mut("c").is_none());
    assert!(catalog.get("").is_none());
}

#[test]
fn paths_are_joined_with_a_slash() {
    assert_eq!(join_path("/wksp/database", "img/a.png"), "/wksp/database/img/a.png");
    assert_eq!(join_path("", ""), "/");
    assert_eq!(Database::file_path("db"), "db/shoyu.json");
}

#[test]
fn the_configurations_lie_below_the_database() {
    let info = DatabaseJSON {
        sprite_cfg: Some("s.json".to_string()),
        sprite_sheet_cfg: None,
        ttf_cfg: Some("sub/t.json".to_string()),
        particle_cfg: None,
    };
    let paths = Database::config_paths("db", &info);
    assert_eq!(paths.sprite_cfg, Some("db/s.json".to_string()));
    assert_eq!(paths.sprite_sheet_cfg, None);
    assert_eq!(paths.ttf_cfg, Some("db/sub/t.json".to_string()));
    assert_eq!(paths.particle_cfg, None);
}

#[test]
fn an_unknown_name_is_a_lookup_error() {
    let db = database();
    match db.fetch_sprite("nobody") {
        Err(Error::LookupError(e)) => assert_eq!(e.entry, "nobody"),
        _ => panic!("not a lookup error"),
    }
    match db.fetch_sprite_sheet("nobody") {
        Err(Error::LookupError(e)) => assert_eq!(e.entry, "nobody"),
        _ => panic!("not a lookup error"),
    }
    match db.fetch_ttf("nobody") {
        Err(Error::LookupError(e)) => assert_eq!(e.entry, "nobody"),
        _ => panic!("not a lookup error"),
    }
}

#[test]
fn what_is_not_loaded_is_a_loading_error_with_its_path() {
    let db = database();
    match db.fetch_sprite("name") {
        Err(Error::LoadingError(e)) => {
            assert_eq!(e.entry, "name");
            assert_eq!(e.path, "/wksp/database/img/a.png");
        }
        _ => panic!("not a loading error"),
    }
    match db.fetch_sprite_sheet("name") {
        Err(Error::LoadingError(e)) => assert_eq!(e.path, "/wksp/database/img/sheet.png"),
        _ => panic!("not a loading error"),
    }
    match db.fetch_ttf("font") {
        Err(Error::LoadingError(e)) => assert_eq!(e.path, "/wksp/database/fonts/a.ttf"),
        _ => panic!("not a loading error"),
    }
}

#[test]
fn what_is_loaded_is_fetched_and_can_be_unloaded() {
    let mut db = database();
    assert_eq!(db.sprite("name").unwrap().path(db.base_path()), "/wksp/database/img/a.png");
    db.sprite_mut("name").unwrap().load(image());
    let entry = db.fetch_sprite("name").ok().unwrap();
    assert_eq!(entry.cfg.image_path, "img/a.png");
    assert_eq!(entry.loaded.as_ref().unwrap().size, [2, 1]);
    assert_eq!(entry.loaded.as_ref().unwrap().bytes.len(), 8);
    assert!(db.fetch_sprite("other").is_err());
    db.sprite_mut("name").unwrap().unload();
    assert!(db.fetch_sprite("name").is_err());
    assert!(db.sprite_mut("nobody").is_none());
    assert!(db.sprite_sheet("name").unwrap().loaded.is_none());
    assert!(db.ttf("nobody").is_none());
}

#[test]
fn the_last_entry_of_a_name_counts() {
    let sprites = parse_sprites(SpriteJSON {
        sprites: vec![sprite("a", "first.png"), sprite("b", "b.png"), sprite("a", "last.png")],
    });
    assert_eq!(sprites.get("a").unwrap().cfg.image_path, "last.png");
    assert!(sprites.get("a").unwrap().loaded.is_none());
    assert_eq!(sprites.get("b").unwrap().cfg.image_path, "b.png");
    let sheets = parse_sprite_sheets(SpriteSheetJSON {
        sprite_sheets: vec![sheet("s", "1.png"), sheet("s", "2.png")],
    });
    assert_eq!(sheets.get("s").unwrap().cfg.image_path, "2.png");
    let fonts = parse_ttfs(TTFJSON { fonts: vec![font("f", Some("ab")), font("g", None)] });
    assert_eq!(fonts.get("f").unwrap().cfg.glyphs, Some("ab".to_string()));
    assert!(fonts.get("h").is_none());
}

#[test]
fn a_database_without_configurations_is_empty() {
    let db = Database::new(
        "db",
        DatabaseJSON { sprite_cfg: None, sprite_sheet_cfg: None, ttf_cfg: None, particle_cfg: None },
        None,
        None,
        None,
    );
    assert_eq!(db.base_path(), "db");
    assert_eq!(db.particle_system_cfg_path().ok().unwrap(), "");
    assert!(db.fetch_sprite("name").is_err());
    assert_eq!(database().particle_system_cfg_path().ok().unwrap(), "particles.json");
}

#[test]
fn a_font_names_its_characters_or_takes_the_default_ones() {
    let db = Database::new(
        "db",
        DatabaseJSON { sprite_cfg: None, sprite_sheet_cfg: None, ttf_cfg: None, particle_cfg: None },
        None,
        None,
        Some(TTFJSON { fonts: vec![font("few", Some("héllo")), font("all", None)] }),
    );
    let few = db.ttf("few").unwrap().request(db.base_path());
    assert_eq!(few.typeset, vec!['h', 'é', 'l', 'l', 'o']);
    assert_eq!(few.path, "db/fonts/a.ttf");
    assert_eq!((few.width, few.height), (1280, 1024));
    assert_eq!(few.size, Double { bits: 24.0f64.to_bits() });
    let all = db.ttf("all").unwrap().typeset();
    assert_eq!(all.len(), 127);
    assert_eq!(all[0], '\0');
    assert_eq!(all[65], 'A');
    assert_eq!(all[126], '~');
}

#[test]
fn an_image_needs_four_bytes_for_each_texel() {
    assert!(ImageLoadInfo::rgba8(2, 2, vec![0; 16]).is_some());
    assert!(ImageLoadInfo::rgba8(2, 2, vec![0; 15]).is_none());
    assert!(ImageLoadInfo::rgba8(0, 7, vec![]).is_some());
    assert!(ImageLoadInfo::rgba8(u32::MAX, u32::MAX, vec![0; 4]).is_none());
    let loaded = ImageLoadInfo::rgba8(1, 3, vec![9; 12]).unwrap();
    assert_eq!(loaded.size, [1, 3]);
    assert_eq!(loaded.format, Format::RGBA8);
    assert_eq!(loaded.bytes, vec![9; 12]);
}

fn glyph(x: u32) -> Glyph {
    Glyph {
        bounds: Rect2D { x, y: 0, w: 8, h: 12 },
        advance: Scalar { bits: 1 },
        bearing_x: Scalar { bits: 2 },
        bearing_y: Scalar { bits: 3 },
    }
}

#[test]
fn a_font_finds_the_glyphs_it_was_made_with() {
    let font = TTFont::new(
        &vec![
            GlyphOf { character: 'a', glyph: glyph(0) },
            GlyphOf { character: 'é', glyph: glyph(8) },
            GlyphOf { character: 'a', glyph: glyph(16) },
        ],
        vec![0; 6],
        3,
        2,
    );
    assert_eq!(font.glyph('a'), Some(glyph(16)));
    assert_eq!(font.glyph('é'), Some(glyph(8)));
    assert_eq!(font.glyph('b'), None);
    assert_eq!(font.atlas_width(), 3);
    assert_eq!(font.atlas_height(), 2);
    assert_eq!(font.atlas_bytes(), Some(&vec![0u8; 6]));
}
