//! A rectangular tile map: a row-major grid of tile indices with
//! bounds-checked access; a read outside the grid yields zero and a write
//! outside it is dropped.

use vstd::prelude::*;

verus! {

/// A row-major grid of tile indices.
#[derive(Debug, Clone)]
pub struct TileMap {
    pub tiles: Vec<u8>,
    pub width: u16,
    pub height: u16,
}

impl TileMap {
    /// The grid holds exactly one byte per cell.
    pub open spec fn wf(&self) -> bool {
        self.tiles@.len() == self.width * self.height
    }

    /// An all-zero map of the given dimensions.
    pub fn new(width: u16, height: u16) -> (r: TileMap)
        requires
            width * height <= u16::MAX,
        ensures
            r.width == width,
            r.height == height,
            r.wf(),
            forall|i: int| 0 <= i < r.tiles@.len() ==> r.tiles@[i] == 0,
    {
        proof {
            assert(width * height >= 0) by (nonlinear_arith);
        }
        let tiles: Vec<u8> = vec![0u8; (width as usize) * (height as usize)];
        TileMap { tiles, width, height }
    }

    /// The tile at a coordinate; a coordinate outside the grid reads zero.
    pub fn get_tile(&self, x: u16, y: u16) -> (r: u8)
        requires
            self.wf(),
        ensures
            x < self.width && y < self.height ==> r == self.tiles@[y * self.width + x],
            !(x < self.width && y < self.height) ==> r == 0,
    {
        if x < self.width && y < self.height {
            let len = self.tiles.len();
            proof {
                let xi = x as int;
                let yi = y as int;
                let wi = self.width as int;
                let hi = self.height as int;
                assert(yi * wi + xi < hi * wi) by (nonlinear_arith)
                    requires
                        0 <= xi < wi,
                        0 <= yi < hi,
                ;
                assert(hi * wi == wi * hi) by (nonlinear_arith);
                assert(yi * wi + xi < len as int);
            }
            self.tiles[(y as usize) * (self.width as usize) + (x as usize)]
        } else {
            0
        }
    }

    /// Writes the tile at a coordinate; a coordinate outside the grid is
    /// silently dropped.
    pub fn set_tile(&mut self, x: u16, y: u16, tile: u8)
        requires
            old(self).wf(),
        ensures
            final(self).wf(),
            final(self).width == old(self).width,
            final(self).height == old(self).height,
            x < old(self).width && y < old(self).height ==> final(self).tiles@ == old(
                self,
            ).tiles@.update(y * old(self).width + x, tile),
            !(x < old(self).width && y < old(self).height) ==> final(self).tiles@ == old(
                self,
            ).tiles@,
    {
        if x < self.width && y < self.height {
            let len = self.tiles.len();
            proof {
                let xi = x as int;
                let yi = y as int;
                let wi = self.width as int;
                let hi = self.height as int;
                assert(yi * wi + xi < hi * wi) by (nonlinear_arith)
                    requires
                        0 <= xi < wi,
                        0 <= yi < hi,
                ;
                assert(hi * wi == wi * hi) by (nonlinear_arith);
                assert(yi * wi + xi < len as int);
            }
            let index = (y as usize) * (self.width as usize) + (x as usize);
            self.tiles[index] = tile;
        }
    }
}

} // verus!
