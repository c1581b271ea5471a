//! Where the program finds the files it ships with.

use vstd::prelude::*;
use crate::paths::{pushed, push_path};
use crate::content::{font_from_vec_and_index, font_data_parses};

verus! {

/// Knows where the program's assets (its fonts) are, and keeps the default font once
/// it was read.
pub struct AssetsManager {
    pub assets_path: Option<String>,
    pub default_font: Option<rusttype::Font<'static>>,
}

/// The default font's file in the assets directory `assets`.
pub open spec fn default_font_path(assets: Seq<char>) -> Seq<char> {
    pushed(pushed(assets, "fonts"@), "FiraSans-Regular.ttf"@)
}

impl AssetsManager {
    /// No assets directory known yet.
    pub fn default() -> (r: AssetsManager)
        ensures
            r.assets_path is None,
            !r.has_default_font(),
    {
        AssetsManager { assets_path: None, default_font: None }
    }

    /// The default font was read.
    pub open spec fn has_default_font(&self) -> bool {
        self.default_font is Some
    }

    /// Whether the default font was read.
    pub fn default_font_loaded(&self) -> (r: bool)
        ensures
            r == self.has_default_font(),
    {
        self.default_font.is_some()
    }

    /// The default font. Where it was not read yet, it is read from `file`: the bytes of
    /// the default font's file (see `get_default_font_path`), or the message of the
    /// error that reading it gave, which is handed back. `Ok(None)` where the bytes are
    /// not a font.
    pub fn get_default_font_err(&mut self, file: Result<Vec<u8>, String>) -> (r: Result<Option<&mut rusttype::Font<'static>>, String>)
        ensures
            final(self).assets_path == old(self).assets_path,
            old(self).has_default_font() ==> r matches Ok(Some(_)),
            !old(self).has_default_font() ==> match file {
                Err(e) => (r matches Err(m) && m@ == e@) && !final(self).has_default_font(),
                Ok(b) => if font_data_parses(b@, 0) {
                    r matches Ok(Some(_))
                } else {
                    r matches Ok(None) && !final(self).has_default_font()
                },
            },
    {
        if self.default_font.is_none() {
            match file {
                Err(e) => return Err(e),
                Ok(bytes) => match font_from_vec_and_index(bytes, 0) {
                    Some(font) => {
                        self.default_font = Some(font);
                    },
                    None => return Ok(None),
                },
            }
        }
        match &mut self.default_font {
            Some(f) => Ok(Some(f)),
            None => Ok(None),
        }
    }

    /// The assets directory; it must have been given.
    pub fn get_assets_path(&mut self) -> (r: String)
        requires
            old(self).assets_path is Some,
        ensures
            r@ == old(self).assets_path->Some_0@,
            final(self).assets_path == old(self).assets_path,
    {
        match &self.assets_path {
            Some(p) => p.clone(),
            None => String::new(),
        }
    }

    /// The default font's file; the assets directory must have been given.
    pub fn get_default_font_path(&mut self) -> (r: String)
        requires
            old(self).assets_path is Some,
        ensures
            r@ == default_font_path(old(self).assets_path->Some_0@),
            final(self).assets_path == old(self).assets_path,
    {
        let p = self.get_assets_path();
        Self::get_default_font_path_from_assets_path(&p)
    }

    /// The default font's file in the assets directory `assets_path`.
    pub fn get_default_font_path_from_assets_path(assets_path: &String) -> (r: String)
        ensures
            r@ == default_font_path(assets_path@),
    {
        let mut p = assets_path.clone();
        push_path(&mut p, "fonts");
        push_path(&mut p, "FiraSans-Regular.ttf");
        p
    }
}

} // verus!
