//! The painter: the long-lived shaping and rasterization state a caller
//! owns. Construction discovers system fonts, or takes a caller-supplied
//! font database, and picks the shaping locale from the system with a
//! fixed fallback when detection fails.

use vstd::prelude::*;

verus! {

#[verifier::external_type_specification]
#[verifier::external_body]
pub struct ExFontSystem(cosmic_text::FontSystem);

#[verifier::external_type_specification]
#[verifier::external_body]
pub struct ExSwashCache(cosmic_text::SwashCache);

#[verifier::external_type_specification]
#[verifier::external_body]
pub struct ExCacheKey(cosmic_text::CacheKey);

#[verifier::external_type_specification]
#[verifier::external_body]
pub struct ExFontDatabase(fontdb::Database);

/// Shared mutable shaping and rasterization state, scoped to one painter.
/// A painter must not be used from several threads at once: every glyph
/// lookup mutates the rasterizer cache.
pub struct TextPainter {
    /// The shaping engine's font system: font data and shaping state.
    pub font_system: cosmic_text::FontSystem,
    /// The rasterized-glyph cache, keyed by glyph identity.
    pub swash_cache: cosmic_text::SwashCache,
}

/// Relies on `sys_locale::get_locale`: the system locale, when one can be
/// detected; the result depends on the environment.
#[verifier::external_body]
fn detect_locale() -> (r: Option<String>) {
    sys_locale::get_locale()
}

/// Relies on `fontdb::Database::new`: an empty font database.
#[verifier::external_body]
fn new_font_database() -> (r: fontdb::Database) {
    fontdb::Database::new()
}

/// Relies on `fontdb::Database::load_system_fonts`: loads the fonts
/// installed on the system into the database; what is found depends on
/// the machine.
#[verifier::external_body]
fn load_system_fonts(db: &mut fontdb::Database) {
    db.load_system_fonts();
}

/// Relies on `cosmic_text::FontSystem::new_with_locale_and_db`: a font
/// system over the given locale and font database.
#[verifier::external_body]
fn new_font_system(locale: String, db: fontdb::Database) -> (r: cosmic_text::FontSystem) {
    cosmic_text::FontSystem::new_with_locale_and_db(locale, db)
}

/// Relies on `cosmic_text::SwashCache::new`: an empty rasterized-glyph
/// cache.
#[verifier::external_body]
fn new_swash_cache() -> (r: cosmic_text::SwashCache) {
    cosmic_text::SwashCache::new()
}

/// The locale shaping decisions follow: the detected one, or a fixed
/// default when detection fails.
fn locale_or_default(detected: Option<String>) -> (r: String)
    ensures
        match detected {
            Some(l) => r == l,
            None => r@ == "en-US"@,
        },
{
    match detected {
        Some(l) => l,
        None => "en-US".to_owned(),
    }
}

impl TextPainter {
    /// A painter over the fonts installed on the system.
    pub fn new() -> (r: TextPainter) {
        let mut db = new_font_database();
        load_system_fonts(&mut db);
        TextPainter::new_with_font_db(db)
    }

    /// A painter over the given font database, shaping with the system
    /// locale when one can be detected and a fixed default otherwise.
    pub fn new_with_font_db(font_database: fontdb::Database) -> (r: TextPainter) {
        let locale = locale_or_default(detect_locale());
        let font_system = new_font_system(locale, font_database);
        let swash_cache = new_swash_cache();
        TextPainter { font_system, swash_cache }
    }
}

impl Default for TextPainter {
    fn default() -> Self {
        TextPainter::new()
    }
}

} // verus!
