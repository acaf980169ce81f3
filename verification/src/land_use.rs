use vstd::prelude::*;
use crate::model::{LandUse, Rgba};

verus! {

/// The name of a zone type.
pub open spec fn land_use_label(lu: LandUse) -> Seq<char> {
    match lu {
        LandUse::Residential => "Residential"@,
        LandUse::Commercial => "Commercial"@,
        LandUse::Industrial => "Industrial"@,
        LandUse::Agricultural => "Agricultural"@,
        LandUse::Recreational => "Recreational"@,
        LandUse::Administrative => "Administrative"@,
    }
}

/// The name of a zone type.
pub fn land_use_name(lu: LandUse) -> (r: &'static str)
    ensures
        r@ == land_use_label(lu),
{
    match lu {
        LandUse::Residential => "Residential",
        LandUse::Commercial => "Commercial",
        LandUse::Industrial => "Industrial",
        LandUse::Agricultural => "Agricultural",
        LandUse::Recreational => "Recreational",
        LandUse::Administrative => "Administrative",
    }
}

/// The icon of a zone type, as a glyph.
pub open spec fn land_use_symbol(lu: LandUse) -> Seq<char> {
    match lu {
        LandUse::Residential => "⌂"@,
        LandUse::Commercial => "🏪"@,
        LandUse::Industrial => "🏭"@,
        LandUse::Agricultural => "🌾"@,
        LandUse::Recreational => "🌲"@,
        LandUse::Administrative => "🏛"@,
    }
}

/// The icon of a zone type, as a glyph.
pub fn land_use_glyph(lu: LandUse) -> (r: &'static str)
    ensures
        r@ == land_use_symbol(lu),
{
    match lu {
        LandUse::Residential => "⌂",
        LandUse::Commercial => "🏪",
        LandUse::Industrial => "🏭",
        LandUse::Agricultural => "🌾",
        LandUse::Recreational => "🌲",
        LandUse::Administrative => "🏛",
    }
}

/// The swatch color of a zone type: its base color mixed nine parts to one
/// over the grass color, in sRGB.
pub open spec fn land_use_swatch(lu: LandUse) -> Rgba {
    match lu {
        LandUse::Residential => Rgba(234, 207, 105, 255),
        LandUse::Commercial => Rgba(215, 120, 75, 255),
        LandUse::Industrial => Rgba(135, 103, 114, 255),
        LandUse::Agricultural => Rgba(149, 151, 124, 255),
        LandUse::Recreational => Rgba(139, 198, 136, 255),
        LandUse::Administrative => Rgba(87, 162, 220, 255),
    }
}

/// The swatch color of a zone type.
pub fn land_use_color(lu: LandUse) -> (r: Rgba)
    ensures
        r == land_use_swatch(lu),
{
    match lu {
        LandUse::Residential => Rgba(234, 207, 105, 255),
        LandUse::Commercial => Rgba(215, 120, 75, 255),
        LandUse::Industrial => Rgba(135, 103, 114, 255),
        LandUse::Agricultural => Rgba(149, 151, 124, 255),
        LandUse::Recreational => Rgba(139, 198, 136, 255),
        LandUse::Administrative => Rgba(87, 162, 220, 255),
    }
}

/// The zone types in the order the zoning toolbar shows them.
pub open spec fn land_use_order() -> Seq<LandUse> {
    seq![
        LandUse::Residential,
        LandUse::Commercial,
        LandUse::Industrial,
        LandUse::Agricultural,
        LandUse::Recreational,
        LandUse::Administrative,
    ]
}

/// The zone types in the order the zoning toolbar shows them.
pub fn land_uses() -> (r: Vec<LandUse>)
    ensures
        r@ == land_use_order(),
{
    let r = vec![
        LandUse::Residential,
        LandUse::Commercial,
        LandUse::Industrial,
        LandUse::Agricultural,
        LandUse::Recreational,
        LandUse::Administrative,
    ];
    assert(r@ =~= land_use_order());
    r
}

} // verus!
