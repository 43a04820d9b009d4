use game_growth::bounds::{Bounds2, Vec2};
use game_growth::building::{
    BuildingIndicator, BuildingModeChange, BuildingState, BuildingTexture, BuildingType,
    Placement, Site,
};
use game_growth::menu::{pan_limits, PanLimits};
use game_growth::global_state::GlobalState;
use game_growth::ui::{on_building_btn_click, ButtonResponse, PanelState};

fn site(entity: u64, x: i64, y: i64, buildable: bool) -> Site {
    Site {
        entity,
        bounds: Bounds2 { position: Vec2::from_units(x, y), size: Vec2::from_units(64, 64) },
        buildable,
    }
}

fn row_of_sites() -> Vec<Site> {
    vec![site(10, -64, 0, true), site(11, 0, 0, false), site(12, 64, 0, true)]
}

#[test]
fn only_the_town_centre_can_be_put_up() {
    assert!(BuildingType::TownCentre.is_placeable());
    for building in [
        BuildingType::Barracks,
        BuildingType::Farm,
        BuildingType::HouseOne,
        BuildingType::HouseTwo,
        BuildingType::House,
        BuildingType::Shade,
        BuildingType::Stall,
    ] {
        assert!(!building.is_placeable());
    }
}

#[test]
fn building_textures() {
    assert_eq!(BuildingType::TownCentre.get_texture(), BuildingTexture::TownCentre);
    assert_eq!(BuildingType::Barracks.get_texture(), BuildingTexture::Barracks);
    assert_eq!(BuildingType::Farm.get_texture(), BuildingTexture::Farm);
    assert_eq!(BuildingType::HouseOne.get_texture(), BuildingTexture::House1);
    assert_eq!(BuildingType::HouseTwo.get_texture(), BuildingTexture::House2);
    assert_eq!(BuildingType::House.get_texture(), BuildingTexture::House);
    assert_eq!(BuildingType::Shade.get_texture(), BuildingTexture::Shade);
    assert_eq!(BuildingType::Stall.get_texture(), BuildingTexture::Stall);
}

#[test]
fn build_mode_is_off_at_first() {
    assert_eq!(BuildingState::default(), BuildingState { mode_active: false, building: None });
}

#[test]
fn indicator_starts_over_no_tile() {
    assert_eq!(
        BuildingIndicator::default(),
        BuildingIndicator { valid_tile: false, tile_entity: None }
    );
}

#[test]
fn find_tile_returns_the_first_that_holds_the_pointer() {
    let sites = row_of_sites();
    assert_eq!(BuildingIndicator::find_tile(&sites, Vec2::from_units(-64, 0)), Some(0));
    assert_eq!(BuildingIndicator::find_tile(&sites, Vec2::from_units(5, -5)), Some(1));
    assert_eq!(BuildingIndicator::find_tile(&sites, Vec2::from_units(90, 30)), Some(2));
    assert_eq!(BuildingIndicator::find_tile(&sites, Vec2::from_units(-32, 0)), Some(0));
    assert_eq!(BuildingIndicator::find_tile(&sites, Vec2::from_units(32, 0)), Some(1));
    assert_eq!(BuildingIndicator::find_tile(&sites, Vec2::from_units(97, 0)), None);
    assert_eq!(BuildingIndicator::find_tile(&sites, Vec2::from_units(0, 33)), None);
    assert_eq!(BuildingIndicator::find_tile(&Vec::new(), Vec2::from_units(0, 0)), None);
}

#[test]
fn track_position_over_a_buildable_tile() {
    let mut indicator = BuildingIndicator::default();
    let moved = indicator.track_position(&row_of_sites(), Vec2::from_units(70, 3));
    assert_eq!(moved, Some(Vec2::from_units(64, 0)));
    assert_eq!(indicator, BuildingIndicator { valid_tile: true, tile_entity: Some(12) });
}

#[test]
fn track_position_over_a_tile_that_is_taken() {
    let mut indicator = BuildingIndicator { valid_tile: true, tile_entity: Some(10) };
    let moved = indicator.track_position(&row_of_sites(), Vec2::from_units(1, 1));
    assert_eq!(moved, Some(Vec2::from_units(0, 0)));
    assert_eq!(indicator, BuildingIndicator { valid_tile: false, tile_entity: None });
}

#[test]
fn track_position_off_the_world_changes_nothing() {
    let mut indicator = BuildingIndicator { valid_tile: true, tile_entity: Some(10) };
    let moved = indicator.track_position(&row_of_sites(), Vec2::from_units(500, 500));
    assert_eq!(moved, None);
    assert_eq!(indicator, BuildingIndicator { valid_tile: true, tile_entity: Some(10) });
}

#[test]
fn listen_takes_over_the_last_change() {
    let mut state = BuildingState::default();
    state.listen_build_mode_event(&vec![
        BuildingModeChange { state: true, building: Some(BuildingType::Farm) },
        BuildingModeChange { state: true, building: Some(BuildingType::TownCentre) },
    ]);
    assert_eq!(
        state,
        BuildingState { mode_active: true, building: Some(BuildingType::TownCentre) }
    );
    state.listen_build_mode_event(&vec![BuildingModeChange { state: false, building: None }]);
    assert_eq!(state, BuildingState { mode_active: false, building: None });
}

#[test]
fn listen_without_a_change_keeps_the_mode() {
    let mut state = BuildingState { mode_active: true, building: Some(BuildingType::Stall) };
    state.listen_build_mode_event(&Vec::new());
    assert_eq!(state, BuildingState { mode_active: true, building: Some(BuildingType::Stall) });
}

#[test]
fn escape_leaves_build_mode() {
    let mut state = BuildingState { mode_active: true, building: Some(BuildingType::TownCentre) };
    state.cancel_build_mode(false);
    assert_eq!(
        state,
        BuildingState { mode_active: true, building: Some(BuildingType::TownCentre) }
    );
    state.cancel_build_mode(true);
    assert_eq!(state, BuildingState { mode_active: false, building: None });
}

#[test]
fn click_places_the_town_centre_and_leaves_build_mode() {
    let mut state = BuildingState { mode_active: true, building: Some(BuildingType::TownCentre) };
    let indicator = BuildingIndicator { valid_tile: true, tile_entity: Some(42) };
    let placed = state.on_building_placed(true, &indicator);
    assert_eq!(
        placed,
        Some(Placement {
            tile_entity: 42,
            building: BuildingType::TownCentre,
            town_centre_built: true,
        })
    );
    assert_eq!(state, BuildingState { mode_active: false, building: None });
}

#[test]
fn click_places_nothing_where_it_may_not() {
    let active = BuildingState { mode_active: true, building: Some(BuildingType::TownCentre) };
    let over = BuildingIndicator { valid_tile: true, tile_entity: Some(42) };

    let mut state = active;
    assert_eq!(state.on_building_placed(false, &over), None);
    assert_eq!(state, active);

    let mut state = BuildingState { mode_active: false, building: Some(BuildingType::TownCentre) };
    assert_eq!(state.on_building_placed(true, &over), None);
    assert_eq!(
        state,
        BuildingState { mode_active: false, building: Some(BuildingType::TownCentre) }
    );

    let mut state = active;
    let taken = BuildingIndicator { valid_tile: false, tile_entity: Some(42) };
    assert_eq!(state.on_building_placed(true, &taken), None);
    assert_eq!(state, active);

    let mut state = active;
    let nowhere = BuildingIndicator { valid_tile: true, tile_entity: None };
    assert_eq!(state.on_building_placed(true, &nowhere), None);
    assert_eq!(state, active);

    let mut state = BuildingState { mode_active: true, building: None };
    assert_eq!(state.on_building_placed(true, &over), None);
    assert_eq!(state, BuildingState { mode_active: true, building: None });

    let mut state = BuildingState { mode_active: true, building: Some(BuildingType::Farm) };
    assert_eq!(state.on_building_placed(true, &over), None);
    assert_eq!(state, BuildingState { mode_active: true, building: Some(BuildingType::Farm) });
}

#[test]
fn panel_is_shown_at_first() {
    assert_eq!(PanelState::default(), PanelState { active: true });
}

#[test]
fn panel_toggle_hides_and_shows() {
    let mut panel = PanelState::default();
    assert_eq!(panel.on_panel_toggle(true), Some(-450));
    assert_eq!(panel, PanelState { active: false });
    assert_eq!(panel.on_panel_toggle(true), Some(0));
    assert_eq!(panel, PanelState { active: true });
    assert_eq!(panel.on_panel_toggle(false), None);
    assert_eq!(panel, PanelState { active: true });
}

#[test]
fn button_click_enters_build_mode_and_puts_the_panel_away() {
    let response = on_building_btn_click(
        &BuildingState::default(),
        &PanelState { active: true },
        BuildingType::TownCentre,
    );
    assert_eq!(
        response,
        ButtonResponse {
            toggle_panel: true,
            change: BuildingModeChange { state: true, building: Some(BuildingType::TownCentre) },
        }
    );
}

#[test]
fn button_click_with_the_panel_hidden_leaves_it_hidden() {
    let response = on_building_btn_click(
        &BuildingState::default(),
        &PanelState { active: false },
        BuildingType::Farm,
    );
    assert_eq!(
        response,
        ButtonResponse {
            toggle_panel: false,
            change: BuildingModeChange { state: true, building: Some(BuildingType::Farm) },
        }
    );
}

#[test]
fn button_click_in_build_mode_leaves_it() {
    let state = BuildingState { mode_active: true, building: Some(BuildingType::TownCentre) };
    let response = on_building_btn_click(&state, &PanelState { active: true }, BuildingType::Farm);
    assert_eq!(
        response,
        ButtonResponse {
            toggle_panel: false,
            change: BuildingModeChange { state: false, building: None },
        }
    );
}

#[test]
fn camera_range_is_half_the_world() {
    assert_eq!(
        pan_limits(&GlobalState::default()),
        PanLimits { min_x: -1536, max_x: 1536, min_y: -1024, max_y: 1024 }
    );
    let odd = GlobalState { world_rows: 5, world_cols: 3, block_size: 3 };
    assert_eq!(pan_limits(&odd), PanLimits { min_x: -4, max_x: 4, min_y: -7, max_y: 7 });
    let none = GlobalState { world_rows: 0, world_cols: 0, block_size: 64 };
    assert_eq!(pan_limits(&none), PanLimits { min_x: 0, max_x: 0, min_y: 0, max_y: 0 });
    let most = GlobalState { world_rows: u32::MAX, world_cols: u32::MAX, block_size: u32::MAX };
    assert_eq!(pan_limits(&most).max_x, 9_223_372_032_559_808_512);
    assert_eq!(pan_limits(&most).min_y, -9_223_372_032_559_808_512);
}
