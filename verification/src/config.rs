//! The symbol section of the configuration: preset names, badges, the diagonal
//! corner switch and per-slot glyph overrides.

use vstd::prelude::*;
use crate::strmap::StrMap;
use crate::text::owned;

verus! {

/// Symbol settings as written in a config or style file.
#[derive(Debug, PartialEq)]
pub struct SymbolConfig {
    pub box_style: String,
    pub arrow_set: String,
    pub portal_icons: String,
    pub path_style: String,
    pub badge_zcode: String,
    pub badge_glulx: String,
    pub badge_blorb: String,
    pub badge_save: String,
    pub badge_hint: String,
    pub diagonal_corners: bool,
    /// Per-slot glyph overrides, slot key to glyph text.
    pub overrides: StrMap<String>,
}

pub open spec fn spec_default_box_style() -> Seq<char> { "rounded"@ }
pub open spec fn spec_default_arrow_set() -> Seq<char> { "filled"@ }
pub open spec fn spec_default_portal_icons() -> Seq<char> { "ascii"@ }
pub open spec fn spec_default_path_style() -> Seq<char> { "light"@ }
pub open spec fn spec_default_badge_zcode() -> Seq<char> { "Z"@ }
pub open spec fn spec_default_badge_glulx() -> Seq<char> { "G"@ }
pub open spec fn spec_default_badge_blorb() -> Seq<char> { "B"@ }
pub open spec fn spec_default_badge_save() -> Seq<char> { "S"@ }
pub open spec fn spec_default_badge_hint() -> Seq<char> { "H"@ }

pub fn default_box_style() -> (r: String)
    ensures r@ == spec_default_box_style(),
{
    owned("rounded")
}

pub fn default_arrow_set() -> (r: String)
    ensures r@ == spec_default_arrow_set(),
{
    owned("filled")
}

pub fn default_portal_icons() -> (r: String)
    ensures r@ == spec_default_portal_icons(),
{
    owned("ascii")
}

pub fn default_path_style() -> (r: String)
    ensures r@ == spec_default_path_style(),
{
    owned("light")
}

pub fn default_badge_zcode() -> (r: String)
    ensures r@ == spec_default_badge_zcode(),
{
    owned("Z")
}

pub fn default_badge_glulx() -> (r: String)
    ensures r@ == spec_default_badge_glulx(),
{
    owned("G")
}

pub fn default_badge_blorb() -> (r: String)
    ensures r@ == spec_default_badge_blorb(),
{
    owned("B")
}

pub fn default_badge_save() -> (r: String)
    ensures r@ == spec_default_badge_save(),
{
    owned("S")
}

pub fn default_badge_hint() -> (r: String)
    ensures r@ == spec_default_badge_hint(),
{
    owned("H")
}

/// Diagonal corner stubs are on by default.
pub fn default_diagonal_corners() -> (r: bool)
    ensures r == true,
{
    true
}

impl SymbolConfig {
    /// The factory settings: every field at its `default_*` value and no overrides.
    pub open spec fn is_factory(self) -> bool {
        &&& self.box_style@ == spec_default_box_style()
        &&& self.arrow_set@ == spec_default_arrow_set()
        &&& self.portal_icons@ == spec_default_portal_icons()
        &&& self.path_style@ == spec_default_path_style()
        &&& self.badge_zcode@ == spec_default_badge_zcode()
        &&& self.badge_glulx@ == spec_default_badge_glulx()
        &&& self.badge_blorb@ == spec_default_badge_blorb()
        &&& self.badge_save@ == spec_default_badge_save()
        &&& self.badge_hint@ == spec_default_badge_hint()
        &&& self.diagonal_corners
        &&& self.overrides.pairs().len() == 0
    }
}

impl Default for SymbolConfig {
    fn default() -> (r: Self)
        ensures
            r.is_factory(),
    {
        SymbolConfig {
            box_style: default_box_style(),
            arrow_set: default_arrow_set(),
            portal_icons: default_portal_icons(),
            path_style: default_path_style(),
            badge_zcode: default_badge_zcode(),
            badge_glulx: default_badge_glulx(),
            badge_blorb: default_badge_blorb(),
            badge_save: default_badge_save(),
            badge_hint: default_badge_hint(),
            diagonal_corners: default_diagonal_corners(),
            overrides: StrMap::new(),
        }
    }
}

} // verus!
