use vstd::prelude::*;
use vstd::arithmetic::div_mod::lemma_fundamental_div_mod_converse;
use vstd::arithmetic::mul::lemma_mul_strict_inequality;
use crate::vector::Vector2;

verus! {

/// Width and height, in display units, of the square drawn for one tile or
/// one entity.
pub const TILE_SIZE: u32 = 20;

/// Color of a wall tile.
pub const WALL_COLOR: u32 = 0x033499;

/// Color of a floor tile.
pub const FLOOR_COLOR: u32 = 0x191919;

/// One cell of the map.
#[derive(Clone, Copy, Debug, PartialEq, Eq, Structural)]
pub enum Tile {
    Wall,
    Floor,
}

/// The display color of a tile.
pub open spec fn tile_color(t: Tile) -> u32 {
    match t {
        Tile::Floor => FLOOR_COLOR,
        Tile::Wall => WALL_COLOR,
    }
}

/// A coordinate scaled to display units, wrapping on overflow of `u32`.
pub open spec fn screen(c: u32) -> u32 {
    ((c as int * TILE_SIZE as int) % 0x1_0000_0000) as u32
}

/// Scales a coordinate to display units, wrapping on overflow of `u32`.
pub fn to_screen(c: u32) -> (r: u32)
    ensures
        r == screen(c),
{
    ((c as u64 * TILE_SIZE as u64) % 0x1_0000_0000) as u32
}

/// The five numbers that draw one square: color, left, top, width, height.
pub open spec fn square(color: u32, x: u32, y: u32) -> Seq<u32> {
    seq![color, screen(x), screen(y), TILE_SIZE, TILE_SIZE]
}

impl Tile {
    pub fn get_color(&self) -> (r: u32)
        ensures
            r == tile_color(*self),
    {
        match self {
            Tile::Floor => FLOOR_COLOR,
            Tile::Wall => WALL_COLOR,
        }
    }
}

/// The static map. Tiles are stored column by column: the tile at `(x, y)`
/// sits at offset `x * height + y`, so that the column index `x` runs over
/// `[0, width)` and the row index `y` over `[0, height)`.
#[derive(Debug)]
pub struct Grid {
    pub tiles: Vec<Tile>,
    pub width: u32,
    pub height: u32,
}

impl Grid {
    /// The grid holds exactly one tile per cell.
    pub open spec fn wf(&self) -> bool {
        self.tiles@.len() == self.width as int * self.height as int
    }

    /// Whether `p` names a cell of the grid.
    pub open spec fn in_bounds(&self, p: Vector2) -> bool {
        &&& 0 <= p.x < self.width
        &&& 0 <= p.y < self.height
    }

    /// The flat offset of the cell `p`.
    pub open spec fn offset(&self, p: Vector2) -> int {
        p.x as int * self.height as int + p.y as int
    }

    /// The tile at `p`, if `p` names a cell that is stored.
    pub open spec fn tile_at(&self, p: Vector2) -> Option<Tile> {
        if self.in_bounds(p) && self.offset(p) < self.tiles@.len() {
            Some(self.tiles@[self.offset(p)])
        } else {
            None
        }
    }

    /// Whether an entity may stand on `p`: the cell exists and is no wall.
    pub open spec fn walkable(&self, p: Vector2) -> bool {
        self.tile_at(p) == Some(Tile::Floor)
    }

    /// The draw calls of the first `n` stored tiles, in storage order.
    pub open spec fn calls_upto(&self, n: nat) -> Seq<u32>
        decreases n,
    {
        if n == 0 {
            Seq::empty()
        } else {
            let i = (n - 1) as int;
            self.calls_upto((n - 1) as nat) + square(
                tile_color(self.tiles@[i]),
                (i / self.height as int) as u32,
                (i % self.height as int) as u32,
            )
        }
    }

    /// The draw calls of the whole grid.
    pub open spec fn calls(&self) -> Seq<u32> {
        self.calls_upto((self.width * self.height) as nat)
    }

    pub fn new(width: u32, height: u32, tiles: Vec<Tile>) -> (r: Grid)
        ensures
            r.width == width,
            r.height == height,
            r.tiles@ == tiles@,
    {
        Grid { tiles: tiles, width: width, height: height }
    }

    /// Looks up the tile at `position`; coordinates outside
    /// `[0, width) x [0, height)` have no tile.
    pub fn get_tile(&self, position: Vector2) -> (r: Option<Tile>)
        ensures
            r == self.tile_at(position),
    {
        if position.x < 0 || position.y < 0 {
            return None;
        }
        let x = position.x as u32;
        let y = position.y as u32;
        if x >= self.width || y >= self.height {
            return None;
        }
        proof {
            assert(x as int * self.height as int <= 0xffff_ffff * 0xffff_ffff) by (nonlinear_arith)
                requires x <= 0xffff_ffff, self.height <= 0xffff_ffff;
        }
        let index: u64 = x as u64 * self.height as u64 + y as u64;
        if index < self.tiles.len() as u64 {
            Some(self.tiles[index as usize])
        } else {
            None
        }
    }

    /// One square per tile, column by column: `x` in the outer loop, `y` in
    /// the inner one.
    pub fn draw(&self) -> (r: Vec<u32>)
        requires
            self.wf(),
        ensures
            r@ == self.calls(),
            r@.len() == 5 * self.width * self.height,
    {
        let mut out: Vec<u32> = Vec::new();
        let h = self.height;
        let n = self.tiles.len();
        let mut x: u32 = 0;
        while x < self.width
            invariant
                self.wf(),
                h == self.height,
                n == self.tiles@.len(),
                x <= self.width,
                out@ == self.calls_upto((x * h) as nat),
            decreases self.width - x,
        {
            let mut y: u32 = 0;
            while y < h
                invariant
                    self.wf(),
                    h == self.height,
                    n == self.tiles@.len(),
                    x < self.width,
                    y <= h,
                    out@ == self.calls_upto((x * h + y) as nat),
                    decreases h - y,
            {
                proof {
                    assert(x as int * h as int <= 0xffff_ffff * 0xffff_ffff) by (nonlinear_arith)
                        requires x <= 0xffff_ffff, h <= 0xffff_ffff;
                }
                let i: u64 = x as u64 * h as u64 + y as u64;
                proof {
                    lemma_fundamental_div_mod_converse(i as int, h as int, x as int, y as int);
                    lemma_mul_strict_inequality(x as int, self.width as int, h as int);
                    assert((x as int + 1) * h == x * h + h) by (nonlinear_arith);
                    assert(x * h + h <= self.width * h) by (nonlinear_arith)
                        requires x < self.width;
                }
                assert(i < n);
                let color = self.tiles[i as usize].get_color();
                let px = to_screen(x);
                let py = to_screen(y);
                out.push(color);
                out.push(px);
                out.push(py);
                out.push(TILE_SIZE);
                out.push(TILE_SIZE);
                assert(out@ =~= self.calls_upto((i + 1) as nat));
                y = y + 1;
            }
            proof {
                assert((x as int + 1) * h == x * h + h) by (nonlinear_arith);
            }
            x = x + 1;
        }
        proof {
            self.lemma_calls_len((self.width * self.height) as nat);
            assert(5 * (self.width * self.height) == 5 * self.width * self.height) by (nonlinear_arith);
        }
        out
    }

    /// Each stored tile contributes five numbers.
    pub proof fn lemma_calls_len(&self, n: nat)
        ensures
            self.calls_upto(n).len() == 5 * n,
        decreases n,
    {
        if n > 0 {
            self.lemma_calls_len((n - 1) as nat);
        }
    }
}

} // verus!
