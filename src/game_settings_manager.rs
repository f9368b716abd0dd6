//! What every text window shares: the default font size, the icon atlas and
//! the window skin.

use vstd::prelude::*;

use crate::iconset::Iconset;
use crate::window::Skin;

verus! {

pub struct GameSettingsManager {
    pub default_font_size: u32,
    pub iconset: Iconset,
    pub window_skin: Skin,
}

impl GameSettingsManager {
    pub fn new(font_size: u32, iconset: Iconset, window_skin: Skin) -> (r: GameSettingsManager)
        ensures
            r.default_font_size == font_size,
            r.iconset == iconset,
            r.window_skin == window_skin,
    {
        GameSettingsManager { default_font_size: font_size, iconset, window_skin }
    }

    /// The icon atlas and the skin both fit their layouts.
    pub open spec fn is_valid(&self) -> bool {
        self.iconset.is_valid() && self.window_skin.is_valid()
    }
}

} // verus!
