//! Terrain types, the percentage bands that select them, the resource nodes
//! that grow on grass, and the tile that holds them all.

use vstd::prelude::*;

use crate::bounds::Bounds2;
use crate::loading::TextureKey;
use crate::rng::random_level;

verus! {

/// The terrain of one tile.
#[derive(Clone, Copy, PartialEq, Eq, Debug, Hash, Structural)]
pub enum TileType {
    Dirt,
    Grass,
    Sand,
    Stone,
    Water,
}

/// One row of a band table: `outcome` is selected by every percentage from
/// `start` to `end`, both included.
#[derive(Debug)]
pub struct Band<T> {
    pub start: i32,
    pub end: i32,
    pub outcome: T,
}

impl<T> Band<T> {
    /// Whether the band holds the percentage `p`.
    pub open spec fn covers(self, p: int) -> bool {
        self.start <= p <= self.end
    }
}

/// The outcome of the first band of `bands` that holds `p`, if any does.
pub open spec fn first_match<T>(bands: Seq<Band<T>>, p: int) -> Option<T>
    decreases bands.len(),
{
    if bands.len() == 0 {
        None
    } else if bands[0].covers(p) {
        Some(bands[0].outcome)
    } else {
        first_match(bands.drop_first(), p)
    }
}

/// Evaluates a band table in order and returns the outcome of the first band
/// that holds `percentage`.
pub fn lookup<T: Copy>(bands: &Vec<Band<T>>, percentage: i32) -> (outcome: Option<T>)
    ensures
        outcome == first_match(bands@, percentage as int),
{
    let mut i: usize = 0;
    assert(bands@.skip(0) =~= bands@);
    while i < bands.len()
        invariant
            i <= bands.len(),
            first_match(bands@, percentage as int) == first_match(
                bands@.skip(i as int),
                percentage as int,
            ),
        decreases bands.len() - i,
    {
        let band = &bands[i];
        proof {
            assert(bands@.skip(i as int)[0] == bands@[i as int]);
            assert(bands@.skip(i as int).drop_first() =~= bands@.skip(i as int + 1));
        }
        if band.start <= percentage && percentage <= band.end {
            return Some(band.outcome);
        }
        i += 1;
    }
    None
}

/// Whether exactly one band of `bands` holds `p`.
pub open spec fn exactly_one_covers<T>(bands: Seq<Band<T>>, p: int) -> bool {
    exists|i: int|
        0 <= i < bands.len() && #[trigger] bands[i].covers(p) && forall|j: int|
            0 <= j < bands.len() && #[trigger] bands[j].covers(p) ==> j == i
}

/// Whether `bands` cuts the percentages from `low` to `high` into
/// consecutive, non-empty pieces: the first band starts at `low`, each band
/// starts right after the one before it ends, and the last ends at `high`.
pub open spec fn contiguous<T>(bands: Seq<Band<T>>, low: int, high: int) -> bool {
    &&& bands.len() > 0
    &&& bands[0].start == low
    &&& bands[bands.len() - 1].end == high
    &&& forall|i: int| 0 <= i < bands.len() ==> (#[trigger] bands[i]).start <= bands[i].end
    &&& forall|i: int| 0 < i < bands.len() ==> (#[trigger] bands[i]).start == bands[i - 1].end + 1
}

/// In a contiguous table the bands are in increasing order: a later band
/// starts after every earlier one has ended.
proof fn lemma_contiguous_increasing<T>(bands: Seq<Band<T>>, low: int, high: int, i: int, j: int)
    requires
        contiguous(bands, low, high),
        0 <= i < j < bands.len(),
    ensures
        bands[i].end < bands[j].start,
    decreases j - i,
{
    assert(bands[j].start == bands[j - 1].end + 1);
    if i + 1 < j {
        lemma_contiguous_increasing(bands, low, high, i, j - 1);
        assert(bands[j - 1].start <= bands[j - 1].end);
    }
}

/// Some band at or after index `from` holds `p`, once `p` lies between the
/// start of that band and the end of the table.
proof fn lemma_contiguous_covered<T>(
    bands: Seq<Band<T>>,
    low: int,
    high: int,
    p: int,
    from: int,
) -> (i: int)
    requires
        contiguous(bands, low, high),
        0 <= from < bands.len(),
        bands[from].start <= p <= high,
    ensures
        from <= i < bands.len(),
        bands[i].covers(p),
    decreases bands.len() - from,
{
    if p <= bands[from].end {
        from
    } else {
        assert(bands[from + 1].start == bands[from].end + 1);
        lemma_contiguous_covered(bands, low, high, p, from + 1)
    }
}

/// A contiguous band table is a partition: every percentage from `low` to
/// `high` is held by exactly one band.
pub proof fn lemma_contiguous_partition<T>(bands: Seq<Band<T>>, low: int, high: int, p: int)
    requires
        contiguous(bands, low, high),
        low <= p <= high,
    ensures
        exactly_one_covers(bands, p),
{
    let i = lemma_contiguous_covered(bands, low, high, p, 0);
    assert forall|j: int| 0 <= j < bands.len() && #[trigger] bands[j].covers(p) implies j == i by {
        if j < i {
            lemma_contiguous_increasing(bands, low, high, j, i);
        } else if i < j {
            lemma_contiguous_increasing(bands, low, high, i, j);
        }
    }
}

/// The terrain bands, lowest first: water, sand, dirt, grass, stone.
pub open spec fn terrain_table() -> Seq<Band<TileType>> {
    seq![
        Band { start: 0, end: 3, outcome: TileType::Water },
        Band { start: 4, end: 10, outcome: TileType::Sand },
        Band { start: 11, end: 15, outcome: TileType::Dirt },
        Band { start: 16, end: 95, outcome: TileType::Grass },
        Band { start: 96, end: 100, outcome: TileType::Stone },
    ]
}

/// The terrain bands as a table that `lookup` can evaluate.
pub fn terrain_bands() -> (bands: Vec<Band<TileType>>)
    ensures
        bands@ == terrain_table(),
{
    let mut bands: Vec<Band<TileType>> = Vec::new();
    bands.push(Band { start: 0, end: 3, outcome: TileType::Water });
    bands.push(Band { start: 4, end: 10, outcome: TileType::Sand });
    bands.push(Band { start: 11, end: 15, outcome: TileType::Dirt });
    bands.push(Band { start: 16, end: 95, outcome: TileType::Grass });
    bands.push(Band { start: 96, end: 100, outcome: TileType::Stone });
    assert(bands@ =~= terrain_table());
    bands
}

/// The terrain bands cut the percentages 0 to 100 without gap or overlap.
pub proof fn lemma_terrain_table_contiguous()
    ensures
        contiguous(terrain_table(), 0, 100),
{
}

/// Every percentage has exactly one terrain. From 0 to 100 it lies in
/// exactly one terrain band, and its terrain is the outcome of that band;
/// outside, no band holds it, and its terrain is grass.
pub proof fn lemma_terrain_bands_partition(p: int)
    ensures
        0 <= p <= 100 ==> exactly_one_covers(terrain_table(), p),
        0 <= p <= 100 ==> forall|i: int|
            0 <= i < terrain_table().len() && #[trigger] terrain_table()[i].covers(p)
                ==> terrain_table()[i].outcome == TileType::for_percentage(p),
        !(0 <= p <= 100) ==> TileType::for_percentage(p) == TileType::Grass,
        !(0 <= p <= 100) ==> forall|i: int|
            0 <= i < terrain_table().len() ==> !(#[trigger] terrain_table()[i]).covers(p),
{
    lemma_terrain_table_contiguous();
    if 0 <= p <= 100 {
        lemma_contiguous_partition(terrain_table(), 0, 100, p);
    }
}

impl TileType {
    /// The terrain that the percentage `p` stands for: the band that holds
    /// it, and grass for a percentage that no band holds.
    pub open spec fn for_percentage(p: int) -> TileType {
        if 0 <= p <= 3 {
            TileType::Water
        } else if 4 <= p <= 10 {
            TileType::Sand
        } else if 11 <= p <= 15 {
            TileType::Dirt
        } else if 16 <= p <= 95 {
            TileType::Grass
        } else if 96 <= p <= 100 {
            TileType::Stone
        } else {
            TileType::Grass
        }
    }

    /// Looking `p` up in the terrain bands, with grass where nothing
    /// matches, gives `for_percentage(p)`.
    pub proof fn lemma_table_gives_terrain(p: int)
        ensures
            first_match(terrain_table(), p) == (if 0 <= p <= 100 {
                Some(TileType::for_percentage(p))
            } else {
                None
            }),
    {
        let t0 = terrain_table();
        let t1 = t0.drop_first();
        let t2 = t1.drop_first();
        let t3 = t2.drop_first();
        let t4 = t3.drop_first();
        let t5 = t4.drop_first();
        assert(t5.len() == 0);
        assert(first_match(t5, p) == None::<TileType>);
        assert(first_match(t4, p) == if t4[0].covers(p) {
            Some(t4[0].outcome)
        } else {
            first_match(t5, p)
        });
        assert(first_match(t3, p) == if t3[0].covers(p) {
            Some(t3[0].outcome)
        } else {
            first_match(t4, p)
        });
        assert(first_match(t2, p) == if t2[0].covers(p) {
            Some(t2[0].outcome)
        } else {
            first_match(t3, p)
        });
        assert(first_match(t1, p) == if t1[0].covers(p) {
            Some(t1[0].outcome)
        } else {
            first_match(t2, p)
        });
        assert(first_match(t0, p) == if t0[0].covers(p) {
            Some(t0[0].outcome)
        } else {
            first_match(t1, p)
        });
    }

    /// The terrain of the band that holds `percentage`, or nothing where no
    /// band holds it: that is where `from_perlin` falls back on grass, and a
    /// caller can tell by this that the sample left the range it was
    /// expected in.
    pub fn band_of(percentage: i32) -> (held: Option<TileType>)
        ensures
            held == (if 0 <= percentage <= 100 {
                Some(TileType::for_percentage(percentage as int))
            } else {
                None
            }),
    {
        let bands = terrain_bands();
        proof {
            TileType::lemma_table_gives_terrain(percentage as int);
        }
        lookup(&bands, percentage)
    }

    /// Classifies a noise sample, given as the whole percentage of its
    /// magnitude, by the terrain bands. A percentage outside every band is
    /// grass. The terrain depends on the percentage alone: the same
    /// percentage is classified the same every time.
    pub fn from_perlin(percentage: i32) -> (tile_type: TileType)
        ensures
            tile_type == TileType::for_percentage(percentage as int),
    {
        match TileType::band_of(percentage) {
            Some(tile_type) => tile_type,
            None => TileType::Grass,
        }
    }

    /// The image that a tile of this terrain is drawn with.
    pub fn texture(&self) -> (key: TextureKey)
        ensures
            key == self.texture_key(),
    {
        match self {
            TileType::Dirt => TextureKey::Dirt,
            TileType::Grass => TextureKey::Grass,
            TileType::Sand => TextureKey::Sand,
            TileType::Stone => TextureKey::Stone,
            TileType::Water => TextureKey::Water,
        }
    }

    /// The key of the terrain's image.
    pub open spec fn texture_key(self) -> TextureKey {
        match self {
            TileType::Dirt => TextureKey::Dirt,
            TileType::Grass => TextureKey::Grass,
            TileType::Sand => TextureKey::Sand,
            TileType::Stone => TextureKey::Stone,
            TileType::Water => TextureKey::Water,
        }
    }
}

/// The kinds of resource node.
#[derive(Clone, Copy, PartialEq, Eq, Debug, Hash, Structural)]
pub enum ResourceKind {
    Tree,
    Stone,
    Berry,
}

impl ResourceKind {
    /// The highest level of a node of this kind; the lowest is 1.
    pub open spec fn max_level(self) -> int {
        match self {
            ResourceKind::Tree => 4,
            ResourceKind::Stone => 3,
            ResourceKind::Berry => 2,
        }
    }
}

/// What a node of kind `kind` and level `lvl` yields when harvested.
pub open spec fn yield_of(kind: ResourceKind, lvl: int) -> int {
    match kind {
        ResourceKind::Tree => if lvl == 1 {
            1
        } else if lvl == 2 {
            3
        } else if lvl == 3 {
            5
        } else if lvl == 4 {
            7
        } else {
            0
        },
        ResourceKind::Stone => if lvl == 1 {
            1
        } else if lvl == 2 {
            3
        } else if lvl == 3 {
            5
        } else {
            0
        },
        ResourceKind::Berry => lvl,
    }
}

/// The image that a node of kind `kind` and level `lvl` is drawn with. A
/// level outside the kind's range is drawn as level 1.
pub open spec fn texture_of(kind: ResourceKind, lvl: int) -> TextureKey {
    match kind {
        ResourceKind::Tree => if lvl == 2 {
            TextureKey::Tree2
        } else if lvl == 3 {
            TextureKey::Tree3
        } else if lvl == 4 {
            TextureKey::Tree4
        } else {
            TextureKey::Tree1
        },
        ResourceKind::Stone => if lvl == 2 {
            TextureKey::Stone2
        } else if lvl == 3 {
            TextureKey::Stone3
        } else {
            TextureKey::Stone1
        },
        ResourceKind::Berry => if lvl == 2 {
            TextureKey::Berry2
        } else {
            TextureKey::Berry1
        },
    }
}

/// What every resource node offers: its image and its yield, both looked up
/// by kind and level.
pub trait ResourceItem {
    /// The kind of the node.
    spec fn kind(&self) -> ResourceKind;

    /// The level of the node.
    spec fn level(&self) -> int;

    /// The image of the node.
    fn texture(&self) -> (key: TextureKey)
        ensures
            key == texture_of(self.kind(), self.level()),
    ;

    /// The amount that the node yields.
    fn yield_amount(&self) -> (amount: usize)
        ensures
            amount == yield_of(self.kind(), self.level()),
    ;
}

/// A tree, of level 1 to 4.
#[derive(Clone, Copy, PartialEq, Eq, Debug, Hash, Structural)]
pub struct ResourceTree {
    pub lvl: usize,
}

impl Default for ResourceTree {
    /// A tree of a level drawn at random from 1 to 4.
    fn default() -> (tree: Self)
        ensures
            1 <= tree.lvl <= 4,
    {
        ResourceTree { lvl: random_level(1, 4) }
    }
}

impl ResourceItem for ResourceTree {
    open spec fn kind(&self) -> ResourceKind {
        ResourceKind::Tree
    }

    open spec fn level(&self) -> int {
        self.lvl as int
    }

    fn texture(&self) -> (key: TextureKey) {
        match self.lvl {
            1 => TextureKey::Tree1,
            2 => TextureKey::Tree2,
            3 => TextureKey::Tree3,
            4 => TextureKey::Tree4,
            _ => TextureKey::Tree1,
        }
    }

    fn yield_amount(&self) -> (amount: usize) {
        match self.lvl {
            1 => 1,
            2 => 3,
            3 => 5,
            4 => 7,
            _ => 0,
        }
    }
}

/// A rock, of level 1 to 3.
#[derive(Clone, Copy, PartialEq, Eq, Debug, Hash, Structural)]
pub struct ResourceStone {
    pub lvl: usize,
}

impl Default for ResourceStone {
    /// A rock of a level drawn at random from 1 to 3.
    fn default() -> (stone: Self)
        ensures
            1 <= stone.lvl <= 3,
    {
        ResourceStone { lvl: random_level(1, 3) }
    }
}

impl ResourceItem for ResourceStone {
    open spec fn kind(&self) -> ResourceKind {
        ResourceKind::Stone
    }

    open spec fn level(&self) -> int {
        self.lvl as int
    }

    fn texture(&self) -> (key: TextureKey) {
        match self.lvl {
            1 => TextureKey::Stone1,
            2 => TextureKey::Stone2,
            3 => TextureKey::Stone3,
            _ => TextureKey::Stone1,
        }
    }

    fn yield_amount(&self) -> (amount: usize) {
        match self.lvl {
            1 => 1,
            2 => 3,
            3 => 5,
            _ => 0,
        }
    }
}

/// A berry bush, of level 1 or 2.
#[derive(Clone, Copy, PartialEq, Eq, Debug, Hash, Structural)]
pub struct ResourceBerry {
    pub lvl: usize,
}

impl Default for ResourceBerry {
    /// A bush of a level drawn at random from 1 to 2.
    fn default() -> (berry: Self)
        ensures
            1 <= berry.lvl <= 2,
    {
        ResourceBerry { lvl: random_level(1, 2) }
    }
}

impl ResourceItem for ResourceBerry {
    open spec fn kind(&self) -> ResourceKind {
        ResourceKind::Berry
    }

    open spec fn level(&self) -> int {
        self.lvl as int
    }

    fn texture(&self) -> (key: TextureKey) {
        match self.lvl {
            1 => TextureKey::Berry1,
            2 => TextureKey::Berry2,
            _ => TextureKey::Berry1,
        }
    }

    fn yield_amount(&self) -> (amount: usize) {
        self.lvl
    }
}

/// The resource node of a tile: one of the three kinds, with its level.
#[derive(Clone, Copy, PartialEq, Eq, Debug, Hash, Structural)]
pub enum ResourceNode {
    Tree(ResourceTree),
    Stone(ResourceStone),
    Berry(ResourceBerry),
}

impl ResourceItem for ResourceNode {
    open spec fn kind(&self) -> ResourceKind {
        match self {
            ResourceNode::Tree(_) => ResourceKind::Tree,
            ResourceNode::Stone(_) => ResourceKind::Stone,
            ResourceNode::Berry(_) => ResourceKind::Berry,
        }
    }

    open spec fn level(&self) -> int {
        match self {
            ResourceNode::Tree(tree) => tree.lvl as int,
            ResourceNode::Stone(stone) => stone.lvl as int,
            ResourceNode::Berry(berry) => berry.lvl as int,
        }
    }

    fn texture(&self) -> (key: TextureKey) {
        match self {
            ResourceNode::Tree(tree) => tree.texture(),
            ResourceNode::Stone(stone) => stone.texture(),
            ResourceNode::Berry(berry) => berry.texture(),
        }
    }

    fn yield_amount(&self) -> (amount: usize) {
        match self {
            ResourceNode::Tree(tree) => tree.yield_amount(),
            ResourceNode::Stone(stone) => stone.yield_amount(),
            ResourceNode::Berry(berry) => berry.yield_amount(),
        }
    }
}

impl ResourceNode {
    /// The level lies in the range of the node's kind.
    pub open spec fn valid(&self) -> bool {
        1 <= self.level() <= self.kind().max_level()
    }

    /// The kind of the node.
    pub fn resource_type(&self) -> (kind: ResourceKind)
        ensures
            kind == self.kind(),
    {
        match self {
            ResourceNode::Tree(_) => ResourceKind::Tree,
            ResourceNode::Stone(_) => ResourceKind::Stone,
            ResourceNode::Berry(_) => ResourceKind::Berry,
        }
    }

    /// The level of the node.
    pub fn resource_level(&self) -> (lvl: usize)
        ensures
            lvl == self.level(),
    {
        match self {
            ResourceNode::Tree(tree) => tree.lvl,
            ResourceNode::Stone(stone) => stone.lvl,
            ResourceNode::Berry(berry) => berry.lvl,
        }
    }

    /// The node of the given kind and level.
    pub fn new(kind: ResourceKind, lvl: usize) -> (node: ResourceNode)
        ensures
            node.kind() == kind,
            node.level() == lvl,
    {
        match kind {
            ResourceKind::Tree => ResourceNode::Tree(ResourceTree { lvl }),
            ResourceKind::Stone => ResourceNode::Stone(ResourceStone { lvl }),
            ResourceKind::Berry => ResourceNode::Berry(ResourceBerry { lvl }),
        }
    }

    /// A node of the given kind, of a level drawn at random from the kind's
    /// range.
    pub fn random(kind: ResourceKind) -> (node: ResourceNode)
        ensures
            node.kind() == kind,
            node.valid(),
    {
        match kind {
            ResourceKind::Tree => ResourceNode::Tree(ResourceTree::default()),
            ResourceKind::Stone => ResourceNode::Stone(ResourceStone::default()),
            ResourceKind::Berry => ResourceNode::Berry(ResourceBerry::default()),
        }
    }
}

/// One cell of the world: where it lies in the grid and in the world, its
/// terrain, and the resource node on it, if there is one.
#[derive(Clone, Copy, PartialEq, Eq, Debug, Hash)]
pub struct Tile {
    pub col: u32,
    pub row: u32,
    pub tile_type: TileType,
    /// Where the tile lies in the world. The position is the middle of the
    /// tile.
    pub bounds: Bounds2,
    pub resource: Option<ResourceNode>,
}

impl Tile {
    /// A resource node stands only on grass, and its level lies in the range
    /// of its kind.
    pub open spec fn wf(&self) -> bool {
        self.resource matches Some(node) ==> self.tile_type == TileType::Grass && node.valid()
    }

    /// The key of the image that the tile is drawn with: that of its
    /// resource node, or that of its terrain where it has none.
    pub open spec fn texture_key(&self) -> TextureKey {
        match self.resource {
            Some(node) => texture_of(node.kind(), node.level()),
            None => self.tile_type.texture_key(),
        }
    }

    /// Whether something can be built on the tile: it can where no resource
    /// node stands.
    pub fn buildable(&self) -> (free: bool)
        ensures
            free == (self.resource is None),
    {
        self.resource.is_none()
    }

    /// The image that the tile is drawn with.
    pub fn texture(&self) -> (key: TextureKey)
        ensures
            key == self.texture_key(),
    {
        match &self.resource {
            Some(node) => node.texture(),
            None => self.tile_type.texture(),
        }
    }
}

} // verus!
