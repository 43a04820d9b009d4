//! Build mode: which building is being placed, which tile lies under the
//! pointer, and what a click puts there.
//!
//! A tile is known here by an identifier that the caller hands in and gets
//! back; nothing is read from it.

use vstd::prelude::*;

use crate::bounds::{Bounds2, Vec2};

verus! {

/// The buildings that the game knows.
#[derive(Clone, Copy, PartialEq, Eq, Debug, Hash, Structural)]
pub enum BuildingType {
    TownCentre,
    Barracks,
    Farm,
    HouseOne,
    HouseTwo,
    House,
    Shade,
    Stall,
}

/// Names one image of the building collection.
#[derive(Clone, Copy, PartialEq, Eq, Debug, Hash, Structural)]
pub enum BuildingTexture {
    TownCentre,
    Barracks,
    Farm,
    House1,
    House2,
    House,
    Shade,
    Stall,
}

impl BuildingType {
    /// Whether a building of this type can be put on a tile. So far only the
    /// town centre can.
    pub open spec fn placeable(self) -> bool {
        self == BuildingType::TownCentre
    }

    /// The key of the building's image.
    pub open spec fn texture_key(self) -> BuildingTexture {
        match self {
            BuildingType::TownCentre => BuildingTexture::TownCentre,
            BuildingType::Barracks => BuildingTexture::Barracks,
            BuildingType::Farm => BuildingTexture::Farm,
            BuildingType::HouseOne => BuildingTexture::House1,
            BuildingType::HouseTwo => BuildingTexture::House2,
            BuildingType::House => BuildingTexture::House,
            BuildingType::Shade => BuildingTexture::Shade,
            BuildingType::Stall => BuildingTexture::Stall,
        }
    }

    /// Whether a building of this type can be put on a tile.
    pub fn is_placeable(&self) -> (placeable: bool)
        ensures
            placeable == self.placeable(),
    {
        match self {
            BuildingType::TownCentre => true,
            _ => false,
        }
    }

    /// The image that a building of this type is drawn with.
    pub fn get_texture(&self) -> (key: BuildingTexture)
        ensures
            key == self.texture_key(),
    {
        match self {
            BuildingType::TownCentre => BuildingTexture::TownCentre,
            BuildingType::Barracks => BuildingTexture::Barracks,
            BuildingType::Farm => BuildingTexture::Farm,
            BuildingType::HouseOne => BuildingTexture::House1,
            BuildingType::HouseTwo => BuildingTexture::House2,
            BuildingType::House => BuildingTexture::House,
            BuildingType::Shade => BuildingTexture::Shade,
            BuildingType::Stall => BuildingTexture::Stall,
        }
    }
}

/// A request to enter or leave build mode.
#[derive(Clone, Copy, PartialEq, Eq, Debug, Structural)]
pub struct BuildingModeChange {
    pub state: bool,
    pub building: Option<BuildingType>,
}

/// A tile as the pointer sees it: its identifier, its bounds, and whether
/// something can still be built on it.
#[derive(Clone, Copy, PartialEq, Eq, Debug, Structural)]
pub struct Site {
    pub entity: u64,
    pub bounds: Bounds2,
    pub buildable: bool,
}

/// Whether entry `i` of `sites` is the first whose bounds, taken around
/// their middle, hold `mouse`.
pub open spec fn is_first_hit(sites: Seq<Site>, mouse: Vec2, i: int) -> bool {
    &&& 0 <= i < sites.len()
    &&& sites[i].bounds.contains_centered(mouse)
    &&& forall|j: int| 0 <= j < i ==> !(#[trigger] sites[j]).bounds.contains_centered(mouse)
}

/// Whether no entry of `sites` holds `mouse`.
pub open spec fn no_hit(sites: Seq<Site>, mouse: Vec2) -> bool {
    forall|j: int| 0 <= j < sites.len() ==> !(#[trigger] sites[j]).bounds.contains_centered(mouse)
}

/// The marker that follows the pointer in build mode: whether the tile under
/// it can be built on, and if so which tile that is.
#[derive(Clone, Copy, PartialEq, Eq, Debug, Structural)]
pub struct BuildingIndicator {
    pub valid_tile: bool,
    pub tile_entity: Option<u64>,
}

impl Default for BuildingIndicator {
    /// The marker as it is first shown: over no tile.
    fn default() -> (indicator: Self)
        ensures
            !indicator.valid_tile,
            indicator.tile_entity is None,
    {
        BuildingIndicator { valid_tile: false, tile_entity: None }
    }
}

impl BuildingIndicator {
    /// What the marker shows over `site`: the tile itself where it can be
    /// built on, and no tile where it cannot.
    pub open spec fn over(site: Site) -> BuildingIndicator {
        BuildingIndicator {
            valid_tile: site.buildable,
            tile_entity: if site.buildable {
                Some(site.entity)
            } else {
                None
            },
        }
    }

    /// The index of the first tile that holds `mouse`, if one does.
    pub fn find_tile(sites: &Vec<Site>, mouse: Vec2) -> (hit: Option<usize>)
        ensures
            match hit {
                Some(i) => is_first_hit(sites@, mouse, i as int),
                None => no_hit(sites@, mouse),
            },
    {
        let mut i: usize = 0;
        while i < sites.len()
            invariant
                i <= sites.len(),
                forall|j: int|
                    0 <= j < i ==> !(#[trigger] sites@[j]).bounds.contains_centered(mouse),
            decreases sites.len() - i,
        {
            if sites[i].bounds.in_bounds_centered(mouse) {
                return Some(i);
            }
            i += 1;
        }
        None
    }

    /// Moves the marker to the first tile that holds `mouse` and returns
    /// that tile's position. Where no tile holds `mouse`, the marker stays
    /// as it is and nothing is returned.
    pub fn track_position(&mut self, sites: &Vec<Site>, mouse: Vec2) -> (moved_to: Option<Vec2>)
        ensures
            no_hit(sites@, mouse) ==> moved_to is None && *final(self) == *old(self),
            forall|i: int|
                is_first_hit(sites@, mouse, i) ==> moved_to == Some(sites@[i].bounds.position)
                    && *final(self) == BuildingIndicator::over(sites@[i]),
    {
        match BuildingIndicator::find_tile(sites, mouse) {
            Some(i) => {
                let site = &sites[i];
                if site.buildable {
                    self.valid_tile = true;
                    self.tile_entity = Some(site.entity);
                } else {
                    self.valid_tile = false;
                    self.tile_entity = None;
                }
                proof {
                    assert forall|k: int| is_first_hit(sites@, mouse, k) implies k == i by {
                        if k < i {
                            assert(!sites@[k].bounds.contains_centered(mouse));
                        } else if i < k {
                            assert(!sites@[i as int].bounds.contains_centered(mouse));
                        }
                    }
                }
                Some(site.bounds.position)
            },
            None => None,
        }
    }
}

/// A building that a click has put on a tile.
#[derive(Clone, Copy, PartialEq, Eq, Debug, Structural)]
pub struct Placement {
    /// The tile that the building now stands on; it can no longer be built
    /// on.
    pub tile_entity: u64,
    /// The building.
    pub building: BuildingType,
    /// Whether the town centre has been built by this.
    pub town_centre_built: bool,
}

/// Build mode: whether it is on, and the building that is being placed.
#[derive(Clone, Copy, PartialEq, Eq, Debug, Structural)]
pub struct BuildingState {
    pub mode_active: bool,
    pub building: Option<BuildingType>,
}

impl Default for BuildingState {
    /// Build mode is off at first.
    fn default() -> (state: Self)
        ensures
            !state.mode_active,
            state.building is None,
    {
        BuildingState { mode_active: false, building: None }
    }
}

impl BuildingState {
    /// What a click puts on the tile under the marker: the building being
    /// placed, where build mode is on, the left button was pressed, the
    /// marker is over a tile that can be built on, and the building is one
    /// that can be put up.
    pub open spec fn placement(
        self,
        left_pressed: bool,
        indicator: BuildingIndicator,
    ) -> Option<Placement> {
        if left_pressed && self.mode_active && indicator.valid_tile
            && indicator.tile_entity is Some && self.building is Some
            && self.building.unwrap().placeable() {
            Some(
                Placement {
                    tile_entity: indicator.tile_entity.unwrap(),
                    building: self.building.unwrap(),
                    town_centre_built: self.building.unwrap() == BuildingType::TownCentre,
                },
            )
        } else {
            None
        }
    }

    /// Build mode after the click: off once the town centre stands,
    /// unchanged otherwise.
    pub open spec fn after_click(
        self,
        left_pressed: bool,
        indicator: BuildingIndicator,
    ) -> BuildingState {
        match self.placement(left_pressed, indicator) {
            Some(placed) => if placed.town_centre_built {
                BuildingState { mode_active: false, building: None }
            } else {
                self
            },
            None => self,
        }
    }

    /// Takes over the last of `changes`; with no change, build mode stays as
    /// it is.
    pub fn listen_build_mode_event(&mut self, changes: &Vec<BuildingModeChange>)
        ensures
            changes@.len() == 0 ==> *final(self) == *old(self),
            changes@.len() > 0 ==> final(self).mode_active == changes@.last().state,
            changes@.len() > 0 ==> final(self).building == changes@.last().building,
    {
        let mut i: usize = 0;
        while i < changes.len()
            invariant
                i <= changes.len(),
                i == 0 ==> *self == *old(self),
                i > 0 ==> self.mode_active == changes@[i - 1].state && self.building
                    == changes@[i - 1].building,
            decreases changes.len() - i,
        {
            self.mode_active = changes[i].state;
            self.building = changes[i].building;
            i += 1;
        }
    }

    /// Leaves build mode when escape was pressed.
    pub fn cancel_build_mode(&mut self, escape_pressed: bool)
        ensures
            escape_pressed ==> !final(self).mode_active && final(self).building is None,
            !escape_pressed ==> *final(self) == *old(self),
    {
        if escape_pressed {
            self.mode_active = false;
            self.building = None;
        }
    }

    /// Handles a click in build mode: returns what was placed, if anything,
    /// and leaves build mode once the town centre stands.
    pub fn on_building_placed(
        &mut self,
        left_pressed: bool,
        indicator: &BuildingIndicator,
    ) -> (placed: Option<Placement>)
        ensures
            placed == old(self).placement(left_pressed, *indicator),
            *final(self) == old(self).after_click(left_pressed, *indicator),
    {
        if left_pressed && self.mode_active {
            if !indicator.valid_tile {
                return None;
            }
            if let Some(tile_entity) = indicator.tile_entity {
                if let Some(building) = self.building {
                    if building.is_placeable() {
                        let town_centre_built = building == BuildingType::TownCentre;
                        if town_centre_built {
                            self.mode_active = false;
                            self.building = None;
                        }
                        return Some(Placement { tile_entity, building, town_centre_built });
                    }
                }
            }
        }
        None
    }
}

} // verus!
