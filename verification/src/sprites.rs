//! A hardware sprite: screen position, tile index, palette selection and
//! the flip and priority attributes.

use vstd::prelude::*;

verus! {

/// One sprite's attributes.
#[derive(Debug, Clone, Copy, PartialEq, Eq, Structural)]
pub struct Sprite {
    pub x: u8,
    pub y: u8,
    pub tile_index: u8,
    pub palette: u8,
    pub x_flip: bool,
    pub y_flip: bool,
    pub priority: bool,
}

impl Sprite {
    /// A sprite at the origin with every attribute cleared.
    pub fn new() -> (r: Sprite)
        ensures
            r == (Sprite {
                x: 0,
                y: 0,
                tile_index: 0,
                palette: 0,
                x_flip: false,
                y_flip: false,
                priority: false,
            }),
    {
        Sprite { x: 0, y: 0, tile_index: 0, palette: 0, x_flip: false, y_flip: false, priority: false }
    }
}

impl Default for Sprite {
    fn default() -> (r: Sprite)
        ensures
            r == (Sprite {
                x: 0,
                y: 0,
                tile_index: 0,
                palette: 0,
                x_flip: false,
                y_flip: false,
                priority: false,
            }),
    {
        Sprite::new()
    }
}

} // verus!
