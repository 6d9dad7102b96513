use game::assets::{
    draw_tile, init_tilemap, load_tilemap, tile_height, tile_width, Atlas, AtlasError, Blit,
    Decoded, DecodedImage, DrawFlags, Grid, LoadFailure, Region, TileSheet, DEFAULT_COLUMNS,
    DEFAULT_ROWS,
};

fn image_of(width: i32, height: i32) -> DecodedImage {
    load_tilemap(Decoded::Image { width, height }).expect("a decoded image loads")
}

fn sheet_of(width: i32, height: i32, columns: i32, rows: i32) -> TileSheet {
    TileSheet::cut(image_of(width, height), Grid { columns, rows }).expect("the grid fits")
}

fn atlas_of(width: i32, height: i32, columns: i32, rows: i32) -> Atlas {
    let mut atlas = Atlas::new();
    init_tilemap(&mut atlas, sheet_of(width, height, columns, rows));
    atlas
}

#[test]
fn stock_sheet_has_tiles_of_100_by_30() {
    let atlas = atlas_of(800, 150, 8, 5);
    assert_eq!(tile_width(&atlas), Ok(100));
    assert_eq!(tile_height(&atlas), Ok(30));
}

#[test]
fn tile_3_lies_in_the_first_row() {
    let atlas = atlas_of(800, 150, 8, 5);
    let blit = draw_tile(&atlas, 3, 0, 0, None).unwrap();
    assert_eq!(blit.tile, Region { x: 300, y: 0, w: 100, h: 30 });
}

#[test]
fn tile_9_lies_in_row_1_column_1() {
    let atlas = atlas_of(800, 150, 8, 5);
    let blit = draw_tile(&atlas, 9, 0, 0, None).unwrap();
    assert_eq!(blit.tile, Region { x: 100, y: 30, w: 100, h: 30 });
}

#[test]
fn tile_40_of_an_8_by_5_grid_is_unknown() {
    let atlas = atlas_of(800, 150, 8, 5);
    assert_eq!(draw_tile(&atlas, 40, 0, 0, None), Err(AtlasError::UnknownTileId));
    assert_eq!(atlas.sub_view(40), Err(AtlasError::UnknownTileId));
}

#[test]
fn every_id_of_the_grid_draws_its_own_cell() {
    let atlas = atlas_of(800, 150, 8, 5);
    for row in 0..5 {
        for column in 0..8 {
            let id = column + row * 8;
            let blit = draw_tile(&atlas, id, 11, -7, None).unwrap();
            assert_eq!(blit.tile, Region { x: column * 100, y: row * 30, w: 100, h: 30 });
        }
    }
}

#[test]
fn tile_size_is_positive_and_the_same_on_every_call() {
    let atlas = atlas_of(17, 9, 4, 2);
    let width = tile_width(&atlas).unwrap();
    let height = tile_height(&atlas).unwrap();
    assert!(width > 0 && height > 0);
    for _ in 0..10 {
        assert_eq!(tile_width(&atlas), Ok(width));
        assert_eq!(tile_height(&atlas), Ok(height));
    }
}

#[test]
fn ids_outside_the_grid_are_unknown() {
    let atlas = atlas_of(800, 150, 8, 5);
    for id in [-1, 40, 41, 1000, i32::MAX, i32::MIN] {
        assert_eq!(draw_tile(&atlas, id, 0, 0, None), Err(AtlasError::UnknownTileId));
        assert_eq!(atlas.sub_view(id), Err(AtlasError::UnknownTileId));
    }
}

#[test]
fn first_and_last_id_are_known() {
    let atlas = atlas_of(800, 150, 8, 5);
    assert_eq!(draw_tile(&atlas, 0, 0, 0, None).unwrap().tile, Region { x: 0, y: 0, w: 100, h: 30 });
    assert_eq!(
        draw_tile(&atlas, 39, 0, 0, None).unwrap().tile,
        Region { x: 700, y: 120, w: 100, h: 30 }
    );
}

#[test]
fn nothing_answers_before_initialization() {
    let atlas = Atlas::new();
    assert_eq!(tile_width(&atlas), Err(AtlasError::NotInitialized));
    assert_eq!(tile_height(&atlas), Err(AtlasError::NotInitialized));
    assert_eq!(draw_tile(&atlas, 0, 0, 0, None), Err(AtlasError::NotInitialized));
    assert_eq!(draw_tile(&atlas, 40, 0, 0, None), Err(AtlasError::NotInitialized));
    assert_eq!(atlas.sub_view(0), Err(AtlasError::NotInitialized));
    assert_eq!(atlas.generation(), 0);
}

#[test]
fn a_view_of_another_atlas_does_not_resolve_before_initialization() {
    let other = atlas_of(800, 150, 8, 5);
    let view = other.sub_view(3).unwrap();
    let atlas = Atlas::new();
    assert_eq!(atlas.resolve(view), Err(AtlasError::NotInitialized));
}

#[test]
fn resolving_the_same_id_twice_gives_the_same_rectangle() {
    let atlas = atlas_of(800, 150, 8, 5);
    let first = atlas.sub_view(12).unwrap();
    let second = atlas.sub_view(12).unwrap();
    assert_eq!(first, second);
    let one = atlas.resolve(first).unwrap();
    let two = atlas.resolve(second).unwrap();
    assert_eq!(one, two);
    assert_eq!(one, Region { x: 400, y: 30, w: 100, h: 30 });
    assert_eq!(atlas.resolve(first), Ok(one));
}

#[test]
fn an_equal_sheet_gives_equal_rectangles_after_reinitialization() {
    let sheet = sheet_of(800, 150, 8, 5);
    let mut atlas = Atlas::new();
    init_tilemap(&mut atlas, sheet);
    let before = atlas.resolve(atlas.sub_view(21).unwrap()).unwrap();
    init_tilemap(&mut atlas, sheet);
    let after = atlas.resolve(atlas.sub_view(21).unwrap()).unwrap();
    assert_eq!(before, after);
}

#[test]
fn reinitialization_makes_old_views_stale() {
    let sheet = sheet_of(800, 150, 8, 5);
    let mut atlas = Atlas::new();
    init_tilemap(&mut atlas, sheet);
    assert_eq!(atlas.generation(), 1);
    let old = atlas.sub_view(5).unwrap();
    assert_eq!(atlas.resolve(old), Ok(Region { x: 500, y: 0, w: 100, h: 30 }));
    init_tilemap(&mut atlas, sheet);
    assert_eq!(atlas.generation(), 2);
    assert_eq!(atlas.resolve(old), Err(AtlasError::StaleSubView));
    let fresh = atlas.sub_view(5).unwrap();
    assert_eq!(atlas.resolve(fresh), Ok(Region { x: 500, y: 0, w: 100, h: 30 }));
}

#[test]
fn reinitialization_replaces_the_grid() {
    let mut atlas = atlas_of(800, 150, 8, 5);
    let small = sheet_of(64, 64, 2, 2);
    init_tilemap(&mut atlas, small);
    assert_eq!(tile_width(&atlas), Ok(32));
    assert_eq!(tile_height(&atlas), Ok(32));
    assert_eq!(draw_tile(&atlas, 3, 0, 0, None).unwrap().tile, Region { x: 32, y: 32, w: 32, h: 32 });
    assert_eq!(draw_tile(&atlas, 4, 0, 0, None), Err(AtlasError::UnknownTileId));
}

#[test]
fn a_tile_is_drawn_whole_and_unscaled() {
    let atlas = atlas_of(800, 150, 8, 5);
    let blit = draw_tile(&atlas, 9, 40, -25, None).unwrap();
    assert_eq!(
        blit,
        Blit {
            tile: Region { x: 100, y: 30, w: 100, h: 30 },
            sx: 0,
            sy: 0,
            sw: 100,
            sh: 30,
            dx: 40,
            dy: -25,
            dw: 100,
            dh: 30,
            flags: DrawFlags { flip_horizontal: false, flip_vertical: false },
        }
    );
}

#[test]
fn flags_are_handed_through() {
    let atlas = atlas_of(800, 150, 8, 5);
    let flags = DrawFlags { flip_horizontal: true, flip_vertical: false };
    assert_eq!(draw_tile(&atlas, 0, 0, 0, Some(flags)).unwrap().flags, flags);
    let both = DrawFlags { flip_horizontal: true, flip_vertical: true };
    assert_eq!(draw_tile(&atlas, 0, 0, 0, Some(both)).unwrap().flags, both);
    assert_eq!(draw_tile(&atlas, 0, 0, 0, None).unwrap().flags, DrawFlags::zero());
    assert_eq!(DrawFlags::zero(), DrawFlags { flip_horizontal: false, flip_vertical: false });
}

#[test]
fn uneven_division_rounds_down() {
    let atlas = atlas_of(807, 154, 8, 5);
    assert_eq!(tile_width(&atlas), Ok(100));
    assert_eq!(tile_height(&atlas), Ok(30));
    assert_eq!(
        draw_tile(&atlas, 39, 0, 0, None).unwrap().tile,
        Region { x: 700, y: 120, w: 100, h: 30 }
    );
}

#[test]
fn one_pixel_tiles() {
    let atlas = atlas_of(8, 5, 8, 5);
    assert_eq!(tile_width(&atlas), Ok(1));
    assert_eq!(tile_height(&atlas), Ok(1));
    assert_eq!(draw_tile(&atlas, 39, 0, 0, None).unwrap().tile, Region { x: 7, y: 4, w: 1, h: 1 });
}

#[test]
fn a_single_cell_covers_the_sheet() {
    let atlas = atlas_of(i32::MAX, i32::MAX, 1, 1);
    assert_eq!(tile_width(&atlas), Ok(i32::MAX));
    assert_eq!(
        draw_tile(&atlas, 0, 0, 0, None).unwrap().tile,
        Region { x: 0, y: 0, w: i32::MAX, h: i32::MAX }
    );
    assert_eq!(draw_tile(&atlas, 1, 0, 0, None), Err(AtlasError::UnknownTileId));
}

#[test]
fn an_unreadable_file_fails_the_load() {
    assert_eq!(load_tilemap(Decoded::Unreadable), Err(AtlasError::Load(LoadFailure::Unreadable)));
}

#[test]
fn an_inconvertible_image_fails_the_load() {
    assert_eq!(
        load_tilemap(Decoded::NotConvertible),
        Err(AtlasError::Load(LoadFailure::NotConvertible))
    );
}

#[test]
fn a_decoded_image_loads_at_its_own_size() {
    for (width, height) in [(800, 150), (807, 154), (8, 5), (7, 150), (800, 4), (1, 1), (0, 0)] {
        let image = load_tilemap(Decoded::Image { width, height }).unwrap();
        assert_eq!(image.width(), width);
        assert_eq!(image.height(), height);
    }
}

#[test]
fn loading_leaves_the_atlas_alone() {
    let atlas = Atlas::new();
    let image = load_tilemap(Decoded::Image { width: 800, height: 150 });
    assert!(image.is_ok());
    assert_eq!(tile_width(&atlas), Err(AtlasError::NotInitialized));
    assert_eq!(atlas.generation(), 0);
}

#[test]
fn an_image_smaller_than_the_grid_loads_but_cannot_be_cut() {
    for (width, height) in [(7, 150), (800, 4), (0, 0), (-800, 150)] {
        let image = load_tilemap(Decoded::Image { width, height }).unwrap();
        assert_eq!(TileSheet::cut(image, Grid::standard()), None);
    }
    assert!(TileSheet::cut(image_of(8, 5), Grid::standard()).is_some());
}

#[test]
fn a_sheet_that_cannot_be_cut_leaves_the_atlas_as_it_was() {
    let mut atlas = atlas_of(800, 150, 8, 5);
    let view = atlas.sub_view(3).unwrap();
    if let Some(sheet) = TileSheet::cut(image_of(7, 4), Grid::standard()) {
        init_tilemap(&mut atlas, sheet);
    }
    assert_eq!(atlas.generation(), 1);
    assert_eq!(tile_width(&atlas), Ok(100));
    assert_eq!(atlas.resolve(view), Ok(Region { x: 300, y: 0, w: 100, h: 30 }));
}

#[test]
fn a_grid_without_cells_cannot_be_cut() {
    let image = image_of(800, 150);
    assert_eq!(TileSheet::cut(image, Grid { columns: 0, rows: 5 }), None);
    assert_eq!(TileSheet::cut(image, Grid { columns: 8, rows: 0 }), None);
    assert_eq!(TileSheet::cut(image, Grid { columns: -8, rows: -5 }), None);
}

#[test]
fn a_grid_with_more_cells_than_ids_cannot_be_cut() {
    let image = image_of(i32::MAX, i32::MAX);
    let grid = Grid { columns: 65536, rows: 32768 };
    assert_eq!(TileSheet::cut(image, grid), None);
    assert!(!grid.can_cut(i32::MAX, i32::MAX));
    assert!(TileSheet::cut(image, Grid { columns: 65536, rows: 32767 }).is_some());
}

#[test]
fn can_cut_agrees_with_cut() {
    let grid = Grid::standard();
    assert!(grid.can_cut(800, 150));
    assert!(grid.can_cut(8, 5));
    assert!(!grid.can_cut(7, 5));
    assert!(!grid.can_cut(8, 4));
    assert!(!Grid { columns: 0, rows: 1 }.can_cut(10, 10));
    for (width, height) in [(800, 150), (8, 5), (7, 5), (8, 4)] {
        let cut = TileSheet::cut(image_of(width, height), grid);
        assert_eq!(cut.is_some(), grid.can_cut(width, height));
    }
}

#[test]
fn the_standard_grid_is_8_by_5() {
    assert_eq!(DEFAULT_COLUMNS, 8);
    assert_eq!(DEFAULT_ROWS, 5);
    assert_eq!(Grid::standard(), Grid { columns: 8, rows: 5 });
}

#[test]
fn every_error_has_its_message() {
    assert_eq!(
        AtlasError::Load(LoadFailure::Unreadable).message(),
        "failed to load tilemap source"
    );
    assert_eq!(
        AtlasError::Load(LoadFailure::NotConvertible).message(),
        "failed to convert tilemap to memory bitmap"
    );
    assert_eq!(
        AtlasError::NotInitialized.message(),
        "attempted to get tilemap before they were initialized"
    );
    assert_eq!(AtlasError::UnknownTileId.message(), "no tile with this id");
    assert_eq!(AtlasError::StaleSubView.message(), "tile view outlived its tilemap");
}
