//! The images of the game and the asset each is loaded from.
use vstd::prelude::*;
use vstd::string::StringExecFns;

use crate::level_elements::assemble_asset_path;
use crate::level_elements::color_name;
use crate::level_elements::durability_color;
use crate::level_elements::element_asset_path;
use crate::level_elements::ElementDurability;
use crate::level_elements::ElementShape;

verus! {

/// An image that a sprite can show.
#[derive(Clone, Copy, Debug, PartialEq, Eq, Structural)]
pub enum Image {
    /// A block of a level, coloured by its durability.
    Element(ElementDurability, ElementShape),
    /// The glossy polygon of a level selector, in the colour of a durability.
    GlossyPolygon(ElementDurability),
    PaddleBlue,
    PaddleRed,
    Ball,
    Border,
    /// Outline of a selector that can be chosen.
    SelectorOpen,
    /// Outline of a selector that is still locked.
    SelectorLocked,
}

/// Path of the asset that holds `image`.
pub open spec fn asset_path_of(image: Image) -> Seq<char> {
    match image {
        Image::Element(durability, shape) => element_asset_path(durability, shape),
        Image::GlossyPolygon(durability) => "element_"@ + durability_color(durability)
            + "_polygon_glossy.png"@,
        Image::PaddleBlue => "paddleBlu.png"@,
        Image::PaddleRed => "paddleRed.png"@,
        Image::Ball => "ballGrey.png"@,
        Image::Border => "buttonSelected.png"@,
        Image::SelectorOpen => "selectorA.png"@,
        Image::SelectorLocked => "selectorB.png"@,
    }
}

impl Image {
    /// The asset key under which the image is loaded.
    pub fn asset_path(&self) -> (path: String)
        ensures
            path@ == asset_path_of(*self),
    {
        match self {
            Image::Element(durability, shape) => assemble_asset_path(durability, shape),
            Image::GlossyPolygon(durability) => {
                let mut path = String::from_str("element_");
                path.append(color_name(durability));
                path.append("_polygon_glossy.png");
                path
            },
            Image::PaddleBlue => String::from_str("paddleBlu.png"),
            Image::PaddleRed => String::from_str("paddleRed.png"),
            Image::Ball => String::from_str("ballGrey.png"),
            Image::Border => String::from_str("buttonSelected.png"),
            Image::SelectorOpen => String::from_str("selectorA.png"),
            Image::SelectorLocked => String::from_str("selectorB.png"),
        }
    }
}

} // verus!
