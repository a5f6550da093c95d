use babelmap::symbols::SymbolSet;
use babelmap::tiles::{feature_glyph, tile_origin, tile_room_screen_rects, FeatureKind, PlanRoom, ScreenRect};

fn area(x: u16, y: u16, width: u16, height: u16) -> ScreenRect {
    ScreenRect { x, y, width, height }
}

#[test]
fn tile_origin_clamps_the_pan_to_the_plan() {
    let a = area(0, 0, 10, 5);
    assert_eq!(tile_origin(30, 20, a, (4, 3), (0, 0)), (4, 3));
    assert_eq!(tile_origin(30, 20, a, (4, 3), (6, 0)), (0, 3), "a pan right never shows tiles left of the plan");
    assert_eq!(tile_origin(30, 20, a, (100, 100), (0, 0)), (20, 15), "the far edge stays reachable, never beyond");
    assert_eq!(tile_origin(8, 4, a, (3, 3), (0, 0)), (0, 0), "a plan smaller than the pane never scrolls");
}

#[test]
fn room_rects_follow_the_origin_and_clip_to_the_pane() {
    let rooms = vec![
        PlanRoom { id: 1, floor_x: 2, floor_y: 1, floor_w: 4, floor_h: 2 },
        PlanRoom { id: 2, floor_x: 40, floor_y: 1, floor_w: 3, floor_h: 3 },
        PlanRoom { id: 3, floor_x: 8, floor_y: 3, floor_w: 6, floor_h: 6 },
    ];
    let a = area(5, 2, 12, 6);
    let rects = tile_room_screen_rects(60, 20, &rooms, a, (0, 0), (0, 0));
    assert_eq!(rects, vec![(1, area(7, 3, 4, 2)), (3, area(13, 5, 4, 3))]);
    let panned = tile_room_screen_rects(60, 20, &rooms, a, (2, 1), (0, 0));
    assert_eq!(panned[0], (1, area(5, 2, 4, 2)));
}

#[test]
fn feature_glyphs_come_from_the_tile_set() {
    let g = SymbolSet::default().tiles;
    assert_eq!(feature_glyph(FeatureKind::StairsUp, &g), g.stairs_up);
    assert_eq!(feature_glyph(FeatureKind::PortalOut, &g), g.portal_out);
}
