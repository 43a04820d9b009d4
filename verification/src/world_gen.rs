//! The world generator: from a grid of noise percentages and a grid of
//! resource rolls to the tiles of the world.
//!
//! Columns are counted along x and rows along y. The tile of column `x` and
//! row `y` is the entry `x * rows + y` of the generated world.

use vstd::arithmetic::div_mod::{
    lemma_fundamental_div_mod, lemma_mod_pos_bound, lemma_multiply_divide_lt,
};
use vstd::prelude::*;

use crate::bounds::{axis_contains_centered, axis_strictly_inside, Bounds2, Vec2};
use crate::global_state::GlobalState;
use crate::rng::random_seed;
use crate::tiles::{
    contiguous, exactly_one_covers, first_match, lemma_contiguous_partition, lookup, Band,
    ResourceItem, ResourceKind, ResourceNode, Tile, TileType,
};

verus! {

/// The bands of the resource roll, lowest first: tree, rock, berry bush, and
/// nothing for the rest of the percentages below 100.
pub open spec fn resource_table() -> Seq<Band<Option<ResourceKind>>> {
    seq![
        Band { start: 0, end: 15, outcome: Some(ResourceKind::Tree) },
        Band { start: 16, end: 21, outcome: Some(ResourceKind::Stone) },
        Band { start: 22, end: 30, outcome: Some(ResourceKind::Berry) },
        Band { start: 31, end: 99, outcome: None },
    ]
}

/// The bands of the resource roll as a table that `lookup` can evaluate.
pub fn resource_bands() -> (bands: Vec<Band<Option<ResourceKind>>>)
    ensures
        bands@ == resource_table(),
{
    let mut bands: Vec<Band<Option<ResourceKind>>> = Vec::new();
    bands.push(Band { start: 0, end: 15, outcome: Some(ResourceKind::Tree) });
    bands.push(Band { start: 16, end: 21, outcome: Some(ResourceKind::Stone) });
    bands.push(Band { start: 22, end: 30, outcome: Some(ResourceKind::Berry) });
    bands.push(Band { start: 31, end: 99, outcome: None });
    assert(bands@ =~= resource_table());
    bands
}

/// The bands of the resource roll cut the percentages 0 to 99 without gap or
/// overlap.
pub proof fn lemma_resource_table_contiguous()
    ensures
        contiguous(resource_table(), 0, 99),
{
}

/// Every roll has exactly one outcome. From 0 to 99 it lies in exactly one
/// band of the resource roll, and the outcome of that band is what it
/// selects; outside, no band holds it, and it selects nothing.
pub proof fn lemma_resource_bands_partition(q: int)
    ensures
        0 <= q < 100 ==> exactly_one_covers(resource_table(), q),
        0 <= q < 100 ==> forall|i: int|
            0 <= i < resource_table().len() && #[trigger] resource_table()[i].covers(q)
                ==> resource_table()[i].outcome == kind_for_roll(q),
        !(0 <= q < 100) ==> kind_for_roll(q) is None,
        !(0 <= q < 100) ==> forall|i: int|
            0 <= i < resource_table().len() ==> !(#[trigger] resource_table()[i]).covers(q),
{
    lemma_resource_table_contiguous();
    if 0 <= q < 100 {
        lemma_contiguous_partition(resource_table(), 0, 99, q);
    }
}

/// The kind of node that the roll `q` puts on a grass tile, if it puts one
/// there.
pub open spec fn kind_for_roll(q: int) -> Option<ResourceKind> {
    if 0 <= q <= 15 {
        Some(ResourceKind::Tree)
    } else if 16 <= q <= 21 {
        Some(ResourceKind::Stone)
    } else if 22 <= q <= 30 {
        Some(ResourceKind::Berry)
    } else {
        None
    }
}

/// Looking `q` up in the bands of the resource roll gives `kind_for_roll(q)`
/// for a roll from 0 to 99, and matches nothing outside.
pub proof fn lemma_table_gives_kind(q: int)
    ensures
        first_match(resource_table(), q) == (if 0 <= q <= 99 {
            Some(kind_for_roll(q))
        } else {
            None
        }),
{
    let t0 = resource_table();
    let t1 = t0.drop_first();
    let t2 = t1.drop_first();
    let t3 = t2.drop_first();
    let t4 = t3.drop_first();
    assert(t4.len() == 0);
    assert(first_match(t4, q) == None::<Option<ResourceKind>>);
    assert(first_match(t3, q) == if t3[0].covers(q) {
        Some(t3[0].outcome)
    } else {
        first_match(t4, q)
    });
    assert(first_match(t2, q) == if t2[0].covers(q) {
        Some(t2[0].outcome)
    } else {
        first_match(t3, q)
    });
    assert(first_match(t1, q) == if t1[0].covers(q) {
        Some(t1[0].outcome)
    } else {
        first_match(t2, q)
    });
    assert(first_match(t0, q) == if t0[0].covers(q) {
        Some(t0[0].outcome)
    } else {
        first_match(t1, q)
    });
}

/// Whether `resource` is what a tile gets when `kind` was selected for it: a
/// node of that kind with a level in the kind's range, or nothing where no
/// kind was selected.
pub open spec fn node_follows(kind: Option<ResourceKind>, resource: Option<ResourceNode>) -> bool {
    match kind {
        Some(k) => resource matches Some(node) && node.kind() == k && node.valid(),
        None => resource is None,
    }
}

/// Twice the distance by which the tiles of an axis are moved back, so that
/// `count` tiles of edge `block_size` lie around the origin.
pub open spec fn axis_offset(block_size: int, count: int) -> int {
    block_size * count - block_size
}

/// The middle of tile `i` of an axis with `count` tiles of edge
/// `block_size`, in half units.
pub open spec fn axis_position(block_size: int, count: int, i: int) -> int {
    2 * block_size * i - axis_offset(block_size, count)
}

/// The place of the tile of column `x` and row `y` in a world with `rows`
/// rows.
pub open spec fn cell_index(rows: int, x: int, y: int) -> int {
    x * rows + y
}

/// Whether `grid` has `cols` columns of `rows` entries each.
pub open spec fn is_grid(grid: Seq<Vec<i32>>, cols: int, rows: int) -> bool {
    &&& grid.len() == cols
    &&& forall|x: int| 0 <= x < cols ==> (#[trigger] grid[x]).len() == rows
}

/// Whether `tile` is the tile of column `x` and row `y` of the world of
/// `state`, for the noise percentage `noise` and the resource roll `roll`.
pub open spec fn tile_matches(
    state: GlobalState,
    x: int,
    y: int,
    noise: int,
    roll: int,
    tile: Tile,
) -> bool {
    &&& tile.col == x
    &&& tile.row == y
    &&& tile.tile_type == TileType::for_percentage(noise)
    &&& tile.bounds.position.x == axis_position(
        state.block_size as int,
        state.world_cols as int,
        x,
    )
    &&& tile.bounds.position.y == axis_position(
        state.block_size as int,
        state.world_rows as int,
        y,
    )
    &&& tile.bounds.size.x == 2 * state.block_size
    &&& tile.bounds.size.y == 2 * state.block_size
    &&& node_follows(
        if tile.tile_type == TileType::Grass {
            kind_for_roll(roll)
        } else {
            None
        },
        tile.resource,
    )
}

/// Whether `tiles` is a world of `state` for the noise percentages `atlas`
/// and the resource rolls `rolls`: one tile for every cell, each at its place.
pub open spec fn is_world(
    state: GlobalState,
    atlas: Seq<Vec<i32>>,
    rolls: Seq<Vec<i32>>,
    tiles: Seq<Tile>,
) -> bool {
    &&& tiles.len() == state.world_cols * state.world_rows
    &&& forall|x: int, y: int|
        0 <= x < state.world_cols && 0 <= y < state.world_rows ==> tile_matches(
            state,
            x,
            y,
            atlas[x][y] as int,
            rolls[x][y] as int,
            #[trigger] tiles[cell_index(state.world_rows as int, x, y)],
        )
}

/// The cell of column `a` comes before every cell of a later column `x`.
proof fn lemma_cell_index_below(rows: int, a: int, b: int, x: int)
    requires
        0 <= a < x,
        0 <= b < rows,
    ensures
        0 <= cell_index(rows, a, b) < x * rows,
{
    assert(a * rows + rows <= x * rows) by (nonlinear_arith)
        requires
            a + 1 <= x,
            0 <= rows,
    ;
    assert(0 <= a * rows) by (nonlinear_arith)
        requires
            0 <= a,
            0 <= rows,
    ;
}

/// The steps of world generation.
pub struct WorldGenerator;

impl WorldGenerator {
    /// The seed of a generation run: the one supplied, or a fresh random one
    /// where none is.
    pub fn pick_seed(seed: Option<u32>) -> (picked: u32)
        ensures
            seed matches Some(supplied) ==> picked == supplied,
    {
        match seed {
            Some(supplied) => supplied,
            None => random_seed(),
        }
    }

    /// Whether `grid` has `cols` columns of `rows` entries each.
    pub fn has_shape(grid: &Vec<Vec<i32>>, cols: u32, rows: u32) -> (ok: bool)
        ensures
            ok == is_grid(grid@, cols as int, rows as int),
    {
        if grid.len() != cols as usize {
            return false;
        }
        let mut x: usize = 0;
        while x < grid.len()
            invariant
                x <= grid.len(),
                grid.len() == cols,
                forall|a: int| 0 <= a < x ==> (#[trigger] grid@[a]).len() == rows,
            decreases grid.len() - x,
        {
            if grid[x].len() != rows as usize {
                return false;
            }
            x += 1;
        }
        true
    }

    /// The kind of node that the roll `percentage` selects, by the bands of
    /// the resource roll.
    pub fn kind_from_roll(percentage: i32) -> (kind: Option<ResourceKind>)
        ensures
            kind == kind_for_roll(percentage as int),
    {
        let bands = resource_bands();
        proof {
            lemma_table_gives_kind(percentage as int);
        }
        match lookup(&bands, percentage) {
            Some(kind) => kind,
            None => None,
        }
    }

    /// Decides what grows on a grass tile from its roll: the kind by the
    /// bands of the resource roll, the level by a random draw from the
    /// kind's range.
    pub fn spawn_grass_resources(percentage: i32) -> (resource: Option<ResourceNode>)
        ensures
            node_follows(kind_for_roll(percentage as int), resource),
    {
        match WorldGenerator::kind_from_roll(percentage) {
            Some(kind) => Some(ResourceNode::random(kind)),
            None => None,
        }
    }

    /// The middle of tile `i` of an axis with `count` tiles, in half units.
    pub fn position_on_axis(block_size: u32, count: u32, i: u32) -> (position: i128)
        ensures
            position == axis_position(block_size as int, count as int, i as int),
    {
        let size: i128 = block_size as i128;
        assert(0 <= size * (count as i128) <= 0xffff_ffff * 0xffff_ffff) by (nonlinear_arith)
            requires
                0 <= size <= 0xffff_ffff,
                0 <= (count as i128) <= 0xffff_ffff,
        ;
        assert(0 <= 2 * size * (i as i128) <= 2 * 0xffff_ffff * 0xffff_ffff) by (nonlinear_arith)
            requires
                0 <= size <= 0xffff_ffff,
                0 <= (i as i128) <= 0xffff_ffff,
        ;
        let offset: i128 = size * (count as i128) - size;
        2 * size * (i as i128) - offset
    }

    /// Makes the tile of column `col` and row `row`: classifies the noise
    /// percentage, places the tile, and lets the roll decide what grows on
    /// it if it is grass.
    pub fn spawn_tile(state: &GlobalState, col: u32, row: u32, noise: i32, roll: i32) -> (tile:
        Tile)
        ensures
            tile_matches(*state, col as int, row as int, noise as int, roll as int, tile),
    {
        let tile_type = TileType::from_perlin(noise);
        let position = Vec2::new(
            WorldGenerator::position_on_axis(state.block_size, state.world_cols, col),
            WorldGenerator::position_on_axis(state.block_size, state.world_rows, row),
        );
        let edge: i128 = 2 * (state.block_size as i128);
        let resource = match tile_type {
            TileType::Grass => WorldGenerator::spawn_grass_resources(roll),
            _ => None,
        };
        let bounds = Bounds2 { position, size: Vec2::splat(edge) };
        Tile { col, row, tile_type, bounds, resource }
    }

    /// Generates the world of `state`, column by column: one tile for each
    /// cell of the noise grid `atlas`, with the terrain that the cell's
    /// percentage stands for, placed so that the grid lies around the
    /// origin; and on grass the node, if any, that the cell's entry of
    /// `rolls` selects.
    pub fn spawn_world(
        state: &GlobalState,
        atlas: &Vec<Vec<i32>>,
        rolls: &Vec<Vec<i32>>,
    ) -> (tiles: Vec<Tile>)
        requires
            is_grid(atlas@, state.world_cols as int, state.world_rows as int),
            is_grid(rolls@, state.world_cols as int, state.world_rows as int),
        ensures
            is_world(*state, atlas@, rolls@, tiles@),
            forall|i: int| 0 <= i < tiles@.len() ==> (#[trigger] tiles@[i]).wf(),
    {
        let cols: u32 = state.world_cols;
        let rows: u32 = state.world_rows;
        let mut tiles: Vec<Tile> = Vec::new();
        let mut x: u32 = 0;
        while x < cols
            invariant
                x <= cols,
                cols == state.world_cols,
                rows == state.world_rows,
                is_grid(atlas@, cols as int, rows as int),
                is_grid(rolls@, cols as int, rows as int),
                tiles@.len() == x * rows,
                forall|a: int, b: int|
                    0 <= a < x && 0 <= b < rows ==> tile_matches(
                        *state,
                        a,
                        b,
                        atlas@[a][b] as int,
                        rolls@[a][b] as int,
                        #[trigger] tiles@[cell_index(rows as int, a, b)],
                    ),
                forall|i: int| 0 <= i < tiles@.len() ==> (#[trigger] tiles@[i]).wf(),
            decreases cols - x,
        {
            let mut y: u32 = 0;
            while y < rows
                invariant
                    y <= rows,
                    x < cols,
                    cols == state.world_cols,
                    rows == state.world_rows,
                    is_grid(atlas@, cols as int, rows as int),
                    is_grid(rolls@, cols as int, rows as int),
                    tiles@.len() == x * rows + y,
                    forall|a: int, b: int|
                        0 <= a < x && 0 <= b < rows ==> tile_matches(
                            *state,
                            a,
                            b,
                            atlas@[a][b] as int,
                            rolls@[a][b] as int,
                            #[trigger] tiles@[cell_index(rows as int, a, b)],
                        ),
                    forall|b: int|
                        0 <= b < y ==> tile_matches(
                            *state,
                            x as int,
                            b,
                            atlas@[x as int][b] as int,
                            rolls@[x as int][b] as int,
                            #[trigger] tiles@[cell_index(rows as int, x as int, b)],
                        ),
                    forall|i: int| 0 <= i < tiles@.len() ==> (#[trigger] tiles@[i]).wf(),
                decreases rows - y,
            {
                let noise: i32 = atlas[x as usize][y as usize];
                let roll: i32 = rolls[x as usize][y as usize];
                let tile = WorldGenerator::spawn_tile(state, x, y, noise, roll);
                let ghost before = tiles@;
                tiles.push(tile);
                proof {
                    assert forall|a: int, b: int| 0 <= a < x && 0 <= b < rows implies tile_matches(
                        *state,
                        a,
                        b,
                        atlas@[a][b] as int,
                        rolls@[a][b] as int,
                        #[trigger] tiles@[cell_index(rows as int, a, b)],
                    ) by {
                        lemma_cell_index_below(rows as int, a, b, x as int);
                        let at = cell_index(rows as int, a, b);
                        assert(tiles@[at] == before[at]);
                    }
                    assert forall|b: int| 0 <= b < y + 1 implies tile_matches(
                        *state,
                        x as int,
                        b,
                        atlas@[x as int][b] as int,
                        rolls@[x as int][b] as int,
                        #[trigger] tiles@[cell_index(rows as int, x as int, b)],
                    ) by {
                        if b < y {
                            let at = cell_index(rows as int, x as int, b);
                            assert(tiles@[at] == before[at]);
                        }
                    }
                    assert forall|i: int| 0 <= i < tiles@.len() implies (#[trigger] tiles@[i]).wf(
                    ) by {
                        if i < before.len() {
                            assert(tiles@[i] == before[i]);
                        }
                    }
                }
                y += 1;
            }
            proof {
                assert((x + 1) * rows == x * rows + rows) by (nonlinear_arith);
            }
            x += 1;
        }
        tiles
    }
}

/// Whether `p` lies in the rectangle that the world of `state` fills: as
/// wide as its columns and as high as its rows, with the origin in the
/// middle.
pub open spec fn in_world(state: GlobalState, p: Vec2) -> bool {
    &&& axis_contains_centered(0, 2 * (state.block_size * state.world_cols), p.x as int)
    &&& axis_contains_centered(0, 2 * (state.block_size * state.world_rows), p.y as int)
}

/// From one tile of an axis to the next, the middle moves by one tile edge.
proof fn lemma_axis_step(block_size: int, count: int, i: int)
    ensures
        axis_position(block_size, count, i + 1) == axis_position(block_size, count, i) + 2
            * block_size,
{
    assert(2 * block_size * (i + 1) == 2 * block_size * i + 2 * block_size) by (nonlinear_arith);
}

/// A later tile of an axis lies at least one tile edge further on.
proof fn lemma_axis_order(block_size: int, count: int, i: int, j: int)
    requires
        0 <= block_size,
        i < j,
    ensures
        axis_position(block_size, count, i) + 2 * block_size <= axis_position(block_size, count, j),
{
    assert(2 * block_size * i + 2 * block_size <= 2 * block_size * j) by (nonlinear_arith)
        requires
            0 <= block_size,
            i + 1 <= j,
    ;
}

/// The first tile of an axis begins, and the last one ends, half the length
/// of the axis away from the origin.
proof fn lemma_axis_ends(block_size: int, count: int)
    ensures
        axis_position(block_size, count, 0) - block_size == -(block_size * count),
        axis_position(block_size, count, count - 1) + block_size == block_size * count,
{
    assert(2 * block_size * 0 == 0) by (nonlinear_arith);
    assert(2 * block_size * (count - 1) == 2 * (block_size * count) - 2 * block_size)
        by (nonlinear_arith);
}

/// Finds the tile of an axis that holds `c`, at or after tile `from`.
proof fn lemma_axis_cell(block_size: int, count: int, c: int, from: int) -> (i: int)
    requires
        0 <= block_size,
        0 <= from < count,
        axis_position(block_size, count, from) - block_size <= c <= block_size * count,
    ensures
        from <= i < count,
        axis_contains_centered(axis_position(block_size, count, i), 2 * block_size, c),
    decreases count - from,
{
    if c <= axis_position(block_size, count, from) + block_size {
        from
    } else {
        lemma_axis_ends(block_size, count);
        lemma_axis_step(block_size, count, from);
        lemma_axis_cell(block_size, count, c, from + 1)
    }
}

/// Every tile of an axis lies within the length of the axis.
proof fn lemma_axis_inside(block_size: int, count: int, i: int, c: int)
    requires
        0 <= block_size,
        0 <= i < count,
        axis_contains_centered(axis_position(block_size, count, i), 2 * block_size, c),
    ensures
        axis_contains_centered(0, 2 * (block_size * count), c),
{
    lemma_axis_ends(block_size, count);
    if 0 < i {
        lemma_axis_order(block_size, count, 0, i);
    }
    if i < count - 1 {
        lemma_axis_order(block_size, count, i, count - 1);
    }
}

/// What lies strictly inside one tile of an axis lies in no other.
proof fn lemma_axis_apart(block_size: int, count: int, i: int, j: int, c: int)
    requires
        0 <= block_size,
        i != j,
        axis_strictly_inside(axis_position(block_size, count, i), 2 * block_size, c),
    ensures
        !axis_contains_centered(axis_position(block_size, count, j), 2 * block_size, c),
{
    if i < j {
        lemma_axis_order(block_size, count, i, j);
    } else {
        lemma_axis_order(block_size, count, j, i);
    }
}

/// Entry `i` of a world is the tile of column `i / rows` and row `i % rows`.
pub proof fn lemma_tile_at(
    state: GlobalState,
    atlas: Seq<Vec<i32>>,
    rolls: Seq<Vec<i32>>,
    tiles: Seq<Tile>,
    i: int,
) -> (cell: (int, int))
    requires
        is_world(state, atlas, rolls, tiles),
        0 <= i < tiles.len(),
    ensures
        cell.0 == i / (state.world_rows as int),
        cell.1 == i % (state.world_rows as int),
        0 <= cell.0 < state.world_cols,
        0 <= cell.1 < state.world_rows,
        i == cell_index(state.world_rows as int, cell.0, cell.1),
        tile_matches(
            state,
            cell.0,
            cell.1,
            atlas[cell.0][cell.1] as int,
            rolls[cell.0][cell.1] as int,
            tiles[i],
        ),
{
    let cols = state.world_cols as int;
    let rows = state.world_rows as int;
    assert(rows > 0) by (nonlinear_arith)
        requires
            0 <= i < cols * rows,
            0 <= rows,
    ;
    let x = i / rows;
    let y = i % rows;
    lemma_fundamental_div_mod(i, rows);
    lemma_mod_pos_bound(i, rows);
    assert(cols * rows == rows * cols) by (nonlinear_arith);
    lemma_multiply_divide_lt(i, rows, cols);
    assert(rows * x == x * rows) by (nonlinear_arith);
    assert(0 <= x) by (nonlinear_arith)
        requires
            0 <= i,
            0 < rows,
            x == i / rows,
    ;
    assert(tile_matches(
        state,
        x,
        y,
        atlas[x][y] as int,
        rolls[x][y] as int,
        tiles[cell_index(rows, x, y)],
    ));
    (x, y)
}

/// No two tiles of a world stand on the same cell: two different entries
/// differ in their column or in their row.
pub proof fn lemma_cells_unique(
    state: GlobalState,
    atlas: Seq<Vec<i32>>,
    rolls: Seq<Vec<i32>>,
    tiles: Seq<Tile>,
    i: int,
    j: int,
)
    requires
        is_world(state, atlas, rolls, tiles),
        0 <= i < tiles.len(),
        0 <= j < tiles.len(),
        i != j,
    ensures
        tiles[i].col != tiles[j].col || tiles[i].row != tiles[j].row,
{
    let a = lemma_tile_at(state, atlas, rolls, tiles, i);
    let b = lemma_tile_at(state, atlas, rolls, tiles, j);
}

/// Every tile of a world lies within the world's rectangle: a point that a
/// tile holds, taken around its middle, is a point of the rectangle.
pub proof fn lemma_tiles_inside_world(
    state: GlobalState,
    atlas: Seq<Vec<i32>>,
    rolls: Seq<Vec<i32>>,
    tiles: Seq<Tile>,
    i: int,
    p: Vec2,
)
    requires
        is_world(state, atlas, rolls, tiles),
        0 <= i < tiles.len(),
        tiles[i].bounds.contains_centered(p),
    ensures
        in_world(state, p),
{
    let cell = lemma_tile_at(state, atlas, rolls, tiles, i);
    let size = state.block_size as int;
    lemma_axis_inside(size, state.world_cols as int, cell.0, p.x as int);
    lemma_axis_inside(size, state.world_rows as int, cell.1, p.y as int);
}

/// The tiles of a world with at least one column and one row leave no gap:
/// every point of the world's rectangle is held by some tile, taken around
/// its middle.
pub proof fn lemma_world_covered(
    state: GlobalState,
    atlas: Seq<Vec<i32>>,
    rolls: Seq<Vec<i32>>,
    tiles: Seq<Tile>,
    p: Vec2,
) -> (i: int)
    requires
        is_world(state, atlas, rolls, tiles),
        state.world_cols > 0,
        state.world_rows > 0,
        in_world(state, p),
    ensures
        0 <= i < tiles.len(),
        tiles[i].bounds.contains_centered(p),
{
    let size = state.block_size as int;
    let cols = state.world_cols as int;
    let rows = state.world_rows as int;
    lemma_axis_ends(size, cols);
    lemma_axis_ends(size, rows);
    let x = lemma_axis_cell(size, cols, p.x as int, 0);
    let y = lemma_axis_cell(size, rows, p.y as int, 0);
    let i = cell_index(rows, x, y);
    lemma_cell_index_below(rows, x, y, cols);
    assert(tile_matches(state, x, y, atlas[x][y] as int, rolls[x][y] as int, tiles[i]));
    i
}

/// The tiles of a world do not overlap: a point strictly inside one tile,
/// taken around its middle, is held by no other tile.
pub proof fn lemma_tiles_do_not_overlap(
    state: GlobalState,
    atlas: Seq<Vec<i32>>,
    rolls: Seq<Vec<i32>>,
    tiles: Seq<Tile>,
    i: int,
    j: int,
    p: Vec2,
)
    requires
        is_world(state, atlas, rolls, tiles),
        0 <= i < tiles.len(),
        0 <= j < tiles.len(),
        i != j,
        tiles[i].bounds.strictly_contains_centered(p),
    ensures
        !tiles[j].bounds.contains_centered(p),
{
    let a = lemma_tile_at(state, atlas, rolls, tiles, i);
    let b = lemma_tile_at(state, atlas, rolls, tiles, j);
    let size = state.block_size as int;
    if a.0 != b.0 {
        lemma_axis_apart(size, state.world_cols as int, a.0, b.0, p.x as int);
    } else {
        lemma_axis_apart(size, state.world_rows as int, a.1, b.1, p.y as int);
    }
}

} // verus!
