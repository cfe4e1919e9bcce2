//! The tile map and how it is made from noise.

use vstd::prelude::*;

verus! {

/// The ground of one cell.
#[derive(Debug, PartialEq, Eq, Clone, Copy, Structural)]
pub enum TileType {
    Water,
    Grass,
    Dirt,
}

/// A grid of tiles, row after row: the tile of cell `(x, y)` stands at
/// `y * width + x`.
pub struct TileMap {
    pub width: usize,
    pub height: usize,
    pub tiles: Vec<TileType>,
}

/// A fraction `num / den` with a positive denominator.
#[derive(Debug, PartialEq, Eq, Clone, Copy, Structural)]
pub struct Ratio {
    pub num: i128,
    pub den: i128,
}

/// Where the noise is read for one cell.
#[derive(Debug, PartialEq, Eq, Clone, Copy, Structural)]
pub struct NoisePoint {
    pub x: Ratio,
    pub y: Ratio,
}

/// The seed of the game's map.
pub const MAP_SEED: u32 = 123456;

/// The width of the game's map, in cells.
pub const MAP_WIDTH: usize = 200;

/// The height of the game's map, in cells.
pub const MAP_HEIGHT: usize = 200;

/// Noise below this, in thousandths, is water.
pub const WATER_BELOW: i32 = -200;

/// Noise below this, in thousandths, and not water, is grass; the rest is dirt.
pub const GRASS_BELOW: i32 = 200;

/// The ground for a noise value given in thousandths, rounded down.
pub open spec fn spec_classify(noise: i32) -> TileType {
    if noise < WATER_BELOW {
        TileType::Water
    } else if noise < GRASS_BELOW {
        TileType::Grass
    } else {
        TileType::Dirt
    }
}

/// The position of `index` along an axis of `extent` cells, as a fraction:
/// `index / extent - 1/2`.
pub open spec fn spec_normalized(index: usize, extent: usize) -> Ratio {
    Ratio { num: (2 * index - extent) as i128, den: (2 * extent) as i128 }
}

/// The noise point of cell `(x, y)` in a grid of `width` by `height`.
pub open spec fn point_of(x: usize, y: usize, width: usize, height: usize) -> NoisePoint {
    NoisePoint { x: spec_normalized(x, width), y: spec_normalized(y, height) }
}

/// Turns a noise value, in thousandths rounded down, into ground.
#[verifier::when_used_as_spec(spec_classify)]
pub fn classify(noise: i32) -> (tile: TileType)
    ensures
        tile == spec_classify(noise),
{
    if noise < WATER_BELOW {
        TileType::Water
    } else if noise < GRASS_BELOW {
        TileType::Grass
    } else {
        TileType::Dirt
    }
}

/// Places `index` of `extent` cells on the axis from -1/2 up to, but not
/// reaching, 1/2.
#[verifier::when_used_as_spec(spec_normalized)]
pub fn normalized(index: usize, extent: usize) -> (at: Ratio)
    requires
        index < extent,
    ensures
        at == spec_normalized(index, extent),
        at.num == 2 * index - extent,
        at.den == 2 * extent,
        at.den > 0,
        -at.den <= 2 * at.num < at.den,
{
    Ratio { num: 2 * (index as i128) - (extent as i128), den: 2 * (extent as i128) }
}

/// The place of cell `(x, y)` among the tiles of a grid `width` wide.
pub open spec fn cell_index(x: int, y: int, width: int) -> int {
    y * width + x
}

/// The noise point of the cell whose tile stands at `index`.
pub open spec fn point_at(index: int, width: usize, height: usize) -> NoisePoint {
    point_of((index % (width as int)) as usize, (index / (width as int)) as usize, width, height)
}

/// The noise points of a grid, cell by cell in the order of the tiles.
pub open spec fn grid_points(width: usize, height: usize) -> Seq<NoisePoint> {
    Seq::new((width * height) as nat, |index: int| point_at(index, width, height))
}

/// The grounds of a run of noise values, one for one.
pub open spec fn tiles_of(samples: Seq<i32>) -> Seq<TileType> {
    samples.map_values(|noise: i32| spec_classify(noise))
}

/// Cell `(x, y)` of a grid of `width` by `height` has its place among the
/// first `width * height`, and no other cell shares it.
pub proof fn lemma_cell_in_grid(x: int, y: int, width: int, height: int)
    requires
        0 <= x < width,
        0 <= y < height,
    ensures
        0 <= cell_index(x, y, width) < width * height,
        cell_index(x, y, width) % width == x,
        cell_index(x, y, width) / width == y,
{
    assert(y * width + width == (y + 1) * width) by (nonlinear_arith);
    assert((y + 1) * width <= height * width) by (nonlinear_arith)
        requires
            y + 1 <= height,
            0 <= width,
    ;
    assert(height * width == width * height) by (nonlinear_arith);
    assert(0 <= y * width) by (nonlinear_arith)
        requires
            0 <= y,
            0 <= width,
    ;
    vstd::arithmetic::div_mod::lemma_fundamental_div_mod_converse(
        cell_index(x, y, width),
        width,
        y,
        x,
    );
}

/// The noise point listed for cell `(x, y)` is the one at the cell's own
/// coordinates, each placed on its axis.
pub proof fn lemma_grid_point_of_cell(x: usize, y: usize, width: usize, height: usize)
    requires
        x < width,
        y < height,
    ensures
        0 <= cell_index(x as int, y as int, width as int) < grid_points(width, height).len(),
        grid_points(width, height)[cell_index(x as int, y as int, width as int)] == point_of(
            x,
            y,
            width,
            height,
        ),
{
    lemma_cell_in_grid(x as int, y as int, width as int, height as int);
}

impl TileMap {
    /// There is one tile for each cell.
    pub open spec fn wf(&self) -> bool {
        self.tiles@.len() == self.width * self.height
    }

    /// The tile of cell `(x, y)`.
    pub open spec fn tile_at(&self, x: int, y: int) -> TileType {
        self.tiles@[cell_index(x, y, self.width as int)]
    }

    /// The points at which the noise is read, cell by cell in the order of
    /// the tiles; `None` where the grid has more cells than can be counted.
    pub fn sample_points(width: usize, height: usize) -> (points: Option<Vec<NoisePoint>>)
        ensures
            points is Some <==> width * height <= usize::MAX,
            points matches Some(list) ==> list@ == grid_points(width, height),
    {
        if width.checked_mul(height).is_none() {
            return None;
        }
        let mut list: Vec<NoisePoint> = Vec::new();
        let mut y: usize = 0;
        assert(0 * width == 0) by (nonlinear_arith);
        while y < height
            invariant
                y <= height,
                list@.len() == y * width,
                forall|index: int|
                    0 <= index < list@.len() ==> list@[index] == point_at(index, width, height),
            decreases height - y,
        {
            let mut x: usize = 0;
            while x < width
                invariant
                    x <= width,
                    y < height,
                    list@.len() == y * width + x,
                    forall|index: int|
                        0 <= index < list@.len() ==> list@[index] == point_at(index, width, height),
                decreases width - x,
            {
                proof {
                    lemma_cell_in_grid(x as int, y as int, width as int, height as int);
                }
                list.push(NoisePoint { x: normalized(x, width), y: normalized(y, height) });
                x += 1;
            }
            assert(y * width + width == (y + 1) * width) by (nonlinear_arith);
            y += 1;
        }
        assert(height * width == width * height) by (nonlinear_arith);
        assert(list@ =~= grid_points(width, height));
        Some(list)
    }

    /// Makes the map of `width` by `height` from one noise value per cell,
    /// given in thousandths rounded down and in the order of the tiles. The
    /// same values give the same map. `None` where the number of values is
    /// not the number of cells.
    pub fn generate(width: usize, height: usize, samples: &Vec<i32>) -> (made: Option<TileMap>)
        ensures
            made is Some <==> samples@.len() == width * height,
            made matches Some(map) ==> generated(map, width, height, samples@),
    {
        if width.checked_mul(height) != Some(samples.len()) {
            return None;
        }
        let mut tiles: Vec<TileType> = Vec::new();
        let mut i: usize = 0;
        while i < samples.len()
            invariant
                i <= samples.len(),
                tiles@.len() == i,
                forall|k: int| 0 <= k < i ==> tiles@[k] == spec_classify(samples@[k]),
            decreases samples.len() - i,
        {
            tiles.push(classify(samples[i]));
            i += 1;
        }
        assert(tiles@ =~= tiles_of(samples@));
        Some(TileMap { width, height, tiles })
    }

    /// The tile of cell `(x, y)`, or `None` outside the grid. In a map with
    /// one tile for each cell, every cell of the grid has its tile.
    pub fn tile(&self, x: usize, y: usize) -> (found: Option<TileType>)
        ensures
            found == if x < self.width && y < self.height && cell_index(
                x as int,
                y as int,
                self.width as int,
            ) < self.tiles@.len() {
                Some(self.tile_at(x as int, y as int))
            } else {
                None
            },
            self.wf() ==> (found is Some <==> x < self.width && y < self.height),
    {
        proof {
            if x < self.width && y < self.height {
                lemma_cell_in_grid(x as int, y as int, self.width as int, self.height as int);
            }
        }
        let cells = self.tiles.len();
        if x >= self.width || y >= self.height {
            return None;
        }
        let row = match y.checked_mul(self.width) {
            Some(row) => row,
            None => {
                return None;
            },
        };
        let index = match row.checked_add(x) {
            Some(index) => index,
            None => {
                return None;
            },
        };
        if index < cells {
            Some(self.tiles[index])
        } else {
            None
        }
    }
}

/// What `generate` makes of its arguments: a map of the given size whose
/// tiles are the grounds of the noise values, one for one.
pub open spec fn generated(map: TileMap, width: usize, height: usize, samples: Seq<i32>) -> bool {
    &&& map.width == width
    &&& map.height == height
    &&& map.wf()
    &&& map.tiles@ == tiles_of(samples)
}

/// Generation is a function of its arguments: two maps made from the same
/// size and the same noise values have the same tiles in the same places.
pub proof fn lemma_generate_deterministic(
    first: TileMap,
    second: TileMap,
    width: usize,
    height: usize,
    samples: Seq<i32>,
)
    requires
        generated(first, width, height, samples),
        generated(second, width, height, samples),
    ensures
        first.width == second.width,
        first.height == second.height,
        first.tiles@ == second.tiles@,
{
}

/// In a generated map the tile of every cell is the ground of the noise
/// value read for that cell.
pub proof fn lemma_tile_follows_noise(
    map: TileMap,
    width: usize,
    height: usize,
    samples: Seq<i32>,
    x: usize,
    y: usize,
)
    requires
        generated(map, width, height, samples),
        x < width,
        y < height,
    ensures
        0 <= cell_index(x as int, y as int, width as int) < samples.len(),
        map.tile_at(x as int, y as int) == spec_classify(
            samples[cell_index(x as int, y as int, width as int)],
        ),
{
    lemma_cell_in_grid(x as int, y as int, width as int, height as int);
}

} // verus!
