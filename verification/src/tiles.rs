//! Tile-map geometry: which tile shows at the map pane's top-left corner, where
//! each room's floor lands on screen, and the glyphs of feature tiles.

use vstd::prelude::*;
use crate::symbols::TileGlyphs;

verus! {

// ── Glyphs ───────────────────────────────────────────────────────────────────

/// A feature tile: stairs or a portal.
#[derive(Debug, Clone, Copy, PartialEq, Eq, Structural)]
pub enum FeatureKind {
    StairsUp,
    StairsDown,
    PortalIn,
    PortalOut,
}

/// The glyph of a feature tile.
pub fn feature_glyph(kind: FeatureKind, g: &TileGlyphs) -> (r: char)
    ensures
        r == match kind {
            FeatureKind::StairsUp => g.stairs_up,
            FeatureKind::StairsDown => g.stairs_down,
            FeatureKind::PortalIn => g.portal_in,
            FeatureKind::PortalOut => g.portal_out,
        },
{
    match kind {
        FeatureKind::StairsUp => g.stairs_up,
        FeatureKind::StairsDown => g.stairs_down,
        FeatureKind::PortalIn => g.portal_in,
        FeatureKind::PortalOut => g.portal_out,
    }
}

// ── Panning ──────────────────────────────────────────────────────────────────

/// A rectangle of terminal cells.
#[derive(Debug, Clone, Copy, PartialEq, Eq, Structural)]
pub struct ScreenRect {
    pub x: u16,
    pub y: u16,
    pub width: u16,
    pub height: u16,
}

/// The column just right of a rectangle (saturating at the last column).
pub open spec fn right_of(r: ScreenRect) -> int {
    if r.x + r.width > u16::MAX {
        u16::MAX as int
    } else {
        r.x + r.width
    }
}

/// The row just below a rectangle (saturating at the last row).
pub open spec fn bottom_of(r: ScreenRect) -> int {
    if r.y + r.height > u16::MAX {
        u16::MAX as int
    } else {
        r.y + r.height
    }
}

/// `v` held within `lo..=hi`.
pub open spec fn clamp_to(v: int, lo: int, hi: int) -> int {
    if v < lo {
        lo
    } else if v > hi {
        hi
    } else {
        v
    }
}

/// The largest offset that still shows the plan's far edge: the plan's extent
/// beyond the pane, or nothing when the plan fits.
pub open spec fn max_offset(plan: int, pane: int) -> int {
    if plan - pane > 0 {
        plan - pane
    } else {
        0
    }
}

/// The tile shown at the pane's top-left corner: the scroll position minus the
/// character pan, clamped so that the plan can always be panned fully into view
/// and never entirely off-screen.
pub open spec fn spec_tile_origin(plan_w: int, plan_h: int, area: ScreenRect, scroll: (i32, i32), pan: (i32, i32)) -> (
    int,
    int,
) {
    (
        clamp_to(scroll.0 - pan.0, 0, max_offset(plan_w, area.width as int)),
        clamp_to(scroll.1 - pan.1, 0, max_offset(plan_h, area.height as int)),
    )
}

/// The tile at the pane's top-left corner.
pub fn tile_origin(plan_w: usize, plan_h: usize, area: ScreenRect, scroll: (i32, i32), pan: (i32, i32)) -> (r: (
    i32,
    i32,
))
    requires
        plan_w <= i32::MAX,
        plan_h <= i32::MAX,
        i32::MIN <= scroll.0 - pan.0 <= i32::MAX,
        i32::MIN <= scroll.1 - pan.1 <= i32::MAX,
    ensures
        (r.0 as int, r.1 as int) == spec_tile_origin(plan_w as int, plan_h as int, area, scroll, pan),
{
    let w = plan_w as i32 - area.width as i32;
    let max_x: i32 = if w > 0 { w } else { 0 };
    let h = plan_h as i32 - area.height as i32;
    let max_y: i32 = if h > 0 { h } else { 0 };
    let vx = scroll.0 - pan.0;
    let vy = scroll.1 - pan.1;
    let x = if vx < 0 { 0 } else if vx > max_x { max_x } else { vx };
    let y = if vy < 0 { 0 } else if vy > max_y { max_y } else { vy };
    (x, y)
}

// ── Room rectangles ──────────────────────────────────────────────────────────

/// A room of a tile plan: its id and the tiles of its floor.
#[derive(Debug, Clone, Copy, PartialEq, Eq, Structural)]
pub struct PlanRoom {
    pub id: u32,
    pub floor_x: usize,
    pub floor_y: usize,
    pub floor_w: usize,
    pub floor_h: usize,
}

/// A room's floor fits the coordinate range the screen arithmetic works in.
pub open spec fn room_in_range(r: PlanRoom) -> bool {
    r.floor_x + r.floor_w <= i32::MAX && r.floor_y + r.floor_h <= i32::MAX
}

/// Where a room's floor lands on screen for the corner tile `(ox, oy)`, clipped
/// to the pane; `None` when none of it is visible.
pub open spec fn spec_room_rect(r: PlanRoom, area: ScreenRect, ox: int, oy: int) -> Option<ScreenRect> {
    let sx = area.x + r.floor_x - ox;
    let sy = area.y + r.floor_y - oy;
    let x0 = if sx > area.x { sx } else { area.x as int };
    let y0 = if sy > area.y { sy } else { area.y as int };
    let x1 = if sx + r.floor_w < right_of(area) { sx + r.floor_w } else { right_of(area) };
    let y1 = if sy + r.floor_h < bottom_of(area) { sy + r.floor_h } else { bottom_of(area) };
    if x1 <= x0 || y1 <= y0 {
        None
    } else {
        Some(ScreenRect { x: x0 as u16, y: y0 as u16, width: (x1 - x0) as u16, height: (y1 - y0) as u16 })
    }
}

/// The visible rooms of `rooms`, in order, with their on-screen rectangles.
pub open spec fn spec_room_rects(rooms: Seq<PlanRoom>, area: ScreenRect, ox: int, oy: int) -> Seq<(u32, ScreenRect)>
    decreases rooms.len(),
{
    if rooms.len() == 0 {
        seq![]
    } else {
        let front = spec_room_rects(rooms.drop_last(), area, ox, oy);
        match spec_room_rect(rooms.last(), area, ox, oy) {
            Some(rect) => front.push((rooms.last().id, rect)),
            None => front,
        }
    }
}

/// The cell `(cx, cy)` lies in the rectangle `r`.
pub open spec fn cell_in(r: ScreenRect, cx: int, cy: int) -> bool {
    r.x <= cx < r.x + r.width && r.y <= cy < r.y + r.height
}

/// The cell `(cx, cy)` lies in the pane `area`.
pub open spec fn cell_in_pane(area: ScreenRect, cx: int, cy: int) -> bool {
    area.x <= cx < right_of(area) && area.y <= cy < bottom_of(area)
}

/// The cell `(cx, cy)` shows a floor tile of room `r` when the pane `area`
/// has the tile `(ox, oy)` at its top-left corner.
pub open spec fn cell_on_floor(r: PlanRoom, area: ScreenRect, ox: int, oy: int, cx: int, cy: int) -> bool {
    let sx = area.x + r.floor_x - ox;
    let sy = area.y + r.floor_y - oy;
    sx <= cx < sx + r.floor_w && sy <= cy < sy + r.floor_h
}

/// A room's on-screen rectangle holds exactly the pane's cells that show its
/// floor: a room partly scrolled out of the pane is cut at the pane's edges,
/// and a room none of whose floor is in the pane has no rectangle.
pub proof fn lemma_room_rect_is_visible_floor(r: PlanRoom, area: ScreenRect, ox: int, oy: int)
    ensures
        match spec_room_rect(r, area, ox, oy) {
            Some(rect) => forall|cx: int, cy: int|
                #[trigger] cell_in(rect, cx, cy) <==> (cell_in_pane(area, cx, cy) && cell_on_floor(
                    r,
                    area,
                    ox,
                    oy,
                    cx,
                    cy,
                )),
            None => forall|cx: int, cy: int|
                !(#[trigger] cell_in_pane(area, cx, cy) && cell_on_floor(r, area, ox, oy, cx, cy)),
        },
{
    let sx = area.x + r.floor_x - ox;
    let sy = area.y + r.floor_y - oy;
    let x0 = if sx > area.x { sx } else { area.x as int };
    let y0 = if sy > area.y { sy } else { area.y as int };
    let x1 = if sx + r.floor_w < right_of(area) { sx + r.floor_w } else { right_of(area) };
    let y1 = if sy + r.floor_h < bottom_of(area) { sy + r.floor_h } else { bottom_of(area) };
    if !(x1 <= x0 || y1 <= y0) {
        let rect = ScreenRect { x: x0 as u16, y: y0 as u16, width: (x1 - x0) as u16, height: (y1 - y0) as u16 };
        assert(right_of(area) <= u16::MAX && bottom_of(area) <= u16::MAX);
        assert(rect.x == x0 && rect.y == y0 && rect.width == x1 - x0 && rect.height == y1 - y0);
        assert(spec_room_rect(r, area, ox, oy) == Some(rect));
    }
}

/// The tile at the pane's corner keeps the plan in view: it is never left of
/// or above the plan, a plan that fits the pane starts at its corner, a wider
/// (taller) plan never scrolls past its far edge, and the requested position,
/// the scroll minus the pan, is taken as it is whenever it obeys these bounds.
/// Scrolling further never moves the corner back.
pub proof fn lemma_tile_origin_keeps_plan_in_view(
    plan_w: int,
    plan_h: int,
    area: ScreenRect,
    scroll: (i32, i32),
    pan: (i32, i32),
    scroll2: (i32, i32),
)
    requires
        plan_w >= 0,
        plan_h >= 0,
    ensures
        ({
            let o = spec_tile_origin(plan_w, plan_h, area, scroll, pan);
            let o2 = spec_tile_origin(plan_w, plan_h, area, scroll2, pan);
            let vx = scroll.0 - pan.0;
            let vy = scroll.1 - pan.1;
            &&& 0 <= o.0 && 0 <= o.1
            &&& plan_w <= area.width ==> o.0 == 0
            &&& plan_h <= area.height ==> o.1 == 0
            &&& plan_w > area.width ==> o.0 + area.width <= plan_w
            &&& plan_h > area.height ==> o.1 + area.height <= plan_h
            &&& (0 <= vx && vx + area.width <= plan_w) ==> o.0 == vx
            &&& (0 <= vy && vy + area.height <= plan_h) ==> o.1 == vy
            &&& scroll.0 <= scroll2.0 ==> o.0 <= o2.0
            &&& scroll.1 <= scroll2.1 ==> o.1 <= o2.1
        }),
{
}

/// The room rectangles of a plan are those of its visible rooms: each entry
/// is the clipped floor of one of the rooms, under that room's id, each room
/// with a visible floor has its entry, and there are no more entries than
/// rooms.
pub proof fn lemma_room_rects_are_visible_rooms(rooms: Seq<PlanRoom>, area: ScreenRect, ox: int, oy: int)
    ensures
        ({
            let out = spec_room_rects(rooms, area, ox, oy);
            &&& out.len() <= rooms.len()
            &&& forall|k: int| 0 <= k < out.len() ==> exists|i: int|
                0 <= i < rooms.len() && rooms[i].id == (#[trigger] out[k]).0 && spec_room_rect(rooms[i], area, ox, oy)
                    == Some(out[k].1)
            &&& forall|i: int| 0 <= i < rooms.len() && (#[trigger] spec_room_rect(rooms[i], area, ox, oy)) is Some
                ==> out.contains((rooms[i].id, spec_room_rect(rooms[i], area, ox, oy)->0))
        }),
    decreases rooms.len(),
{
    if rooms.len() > 0 {
        let front = rooms.drop_last();
        lemma_room_rects_are_visible_rooms(front, area, ox, oy);
        let f = spec_room_rects(front, area, ox, oy);
        let out = spec_room_rects(rooms, area, ox, oy);
        assert forall|k: int| 0 <= k < out.len() implies exists|i: int|
            0 <= i < rooms.len() && rooms[i].id == (#[trigger] out[k]).0 && spec_room_rect(rooms[i], area, ox, oy)
                == Some(out[k].1) by {
            if k < f.len() {
                assert(out[k] == f[k]);
                let i = choose|i: int|
                    0 <= i < front.len() && front[i].id == f[k].0 && spec_room_rect(front[i], area, ox, oy) == Some(f[k].1);
                assert(rooms[i] == front[i]);
            } else {
                assert(rooms[rooms.len() - 1] == rooms.last());
            }
        }
        assert forall|i: int| 0 <= i < rooms.len() && (#[trigger] spec_room_rect(rooms[i], area, ox, oy)) is Some
            implies out.contains((rooms[i].id, spec_room_rect(rooms[i], area, ox, oy)->0)) by {
            if i < front.len() {
                assert(rooms[i] == front[i]);
                let k = choose|k: int| 0 <= k < f.len() && f[k] == (front[i].id, spec_room_rect(front[i], area, ox, oy)->0);
                assert(out[k] == f[k]);
            } else {
                assert(rooms[i] == rooms.last());
                assert(out[out.len() - 1] == (rooms.last().id, spec_room_rect(rooms.last(), area, ox, oy)->0));
            }
        }
    }
}

fn room_rect(r: &PlanRoom, area: ScreenRect, ox: i32, oy: i32) -> (out: Option<ScreenRect>)
    requires
        room_in_range(*r),
        0 <= ox <= i32::MAX,
        0 <= oy <= i32::MAX,
    ensures
        out == spec_room_rect(*r, area, ox as int, oy as int),
{
    let sx: i64 = area.x as i64 + r.floor_x as i64 - ox as i64;
    let sy: i64 = area.y as i64 + r.floor_y as i64 - oy as i64;
    let right: i64 = area.x as i64 + area.width as i64;
    let right: i64 = if right > 65535 { 65535 } else { right };
    let bottom: i64 = area.y as i64 + area.height as i64;
    let bottom: i64 = if bottom > 65535 { 65535 } else { bottom };
    let x0: i64 = if sx > area.x as i64 { sx } else { area.x as i64 };
    let y0: i64 = if sy > area.y as i64 { sy } else { area.y as i64 };
    let x1: i64 = if sx + (r.floor_w as i64) < right { sx + r.floor_w as i64 } else { right };
    let y1: i64 = if sy + (r.floor_h as i64) < bottom { sy + r.floor_h as i64 } else { bottom };
    if x1 <= x0 || y1 <= y0 {
        None
    } else {
        Some(ScreenRect { x: x0 as u16, y: y0 as u16, width: (x1 - x0) as u16, height: (y1 - y0) as u16 })
    }
}

/// The on-screen rectangles of the visible rooms of a tile plan, for the pane
/// `area` and the corner tile that the scroll and pan select.
pub fn tile_room_screen_rects(
    plan_w: usize,
    plan_h: usize,
    rooms: &Vec<PlanRoom>,
    area: ScreenRect,
    scroll: (i32, i32),
    pan: (i32, i32),
) -> (r: Vec<(u32, ScreenRect)>)
    requires
        plan_w <= i32::MAX,
        plan_h <= i32::MAX,
        i32::MIN <= scroll.0 - pan.0 <= i32::MAX,
        i32::MIN <= scroll.1 - pan.1 <= i32::MAX,
        forall|i: int| 0 <= i < rooms@.len() ==> room_in_range(#[trigger] rooms@[i]),
    ensures
        ({
            let o = spec_tile_origin(plan_w as int, plan_h as int, area, scroll, pan);
            r@ == spec_room_rects(rooms@, area, o.0, o.1)
        }),
{
    let (ox, oy) = tile_origin(plan_w, plan_h, area, scroll, pan);
    let mut out: Vec<(u32, ScreenRect)> = Vec::new();
    let mut i: usize = 0;
    while i < rooms.len()
        invariant
            i <= rooms@.len(),
            0 <= ox <= i32::MAX,
            0 <= oy <= i32::MAX,
            forall|j: int| 0 <= j < rooms@.len() ==> room_in_range(#[trigger] rooms@[j]),
            out@ == spec_room_rects(rooms@.take(i as int), area, ox as int, oy as int),
        decreases rooms@.len() - i,
    {
        let ghost front = rooms@.take(i as int);
        assert(rooms@.take(i + 1).drop_last() =~= front);
        assert(rooms@.take(i + 1).last() == rooms@[i as int]);
        match room_rect(&rooms[i], area, ox, oy) {
            Some(rect) => out.push((rooms[i].id, rect)),
            None => {},
        }
        i += 1;
    }
    assert(rooms@.take(rooms@.len() as int) =~= rooms@);
    out
}

} // verus!
