use vstd::prelude::*;
use rltk::RandomNumberGenerator;
use crate::components::ai::MovementRoutingOptions;
use crate::components::basics::Position;
use crate::geometry::Point;
use crate::grid::lemma_idx_on_grid;
use crate::map::{GameMap, is_open_floor};

verus! {

//----------------------------------------------------------------------------
// Movement: requests to change position are buffered during a turn and
// served together, so that the order in which monsters decide does not
// matter; teleporting picks a random free tile.
//----------------------------------------------------------------------------

/// Whether an entity with the given routing options may enter the tile with
/// storage index `idx`: never a blocked tile, nor a burning, chilled or
/// watery one that its routing avoids.
pub open spec fn ok_to_move_spec(map: &GameMap, routing: Option<MovementRoutingOptions>, idx: int) -> bool {
    match routing {
        None => !map.blocked[idx],
        Some(r) => !map.blocked[idx] && !(r.avoid_fire && map.fire[idx]) && !(r.avoid_chill && map.chill[idx])
            && !(r.avoid_water && map.water[idx]),
    }
}

pub fn ok_to_move_to_position(map: &GameMap, routing: Option<MovementRoutingOptions>, idx: usize) -> (b: bool)
    requires
        map.wf(),
        idx < map.tiles.len(),
    ensures
        b == ok_to_move_spec(map, routing, idx as int),
{
    match routing {
        None => !map.blocked[idx],
        Some(r) => !map.blocked[idx] && !(r.avoid_fire && map.fire[idx]) && !(r.avoid_chill && map.chill[idx])
            && !(r.avoid_water && map.water[idx]),
    }
}

/// A request to move an entity to a position.
#[derive(Copy, Clone)]
pub struct MoveRequest {
    pub to: Point,
    /// Move even onto a tile that is not free (teleporting).
    pub force: bool,
    pub is_player: bool,
    /// The entity blocks its tile.
    pub is_blocking: bool,
    pub routing: Option<MovementRoutingOptions>,
}

/// What keeps an entity out of a tile: a blocked tile is never entered, and
/// neither is a burning, chilled or watery tile that the entity's routing
/// avoids; a tile that is not blocked and holds nothing avoided may be
/// entered. Without routing options only blocking matters.
pub proof fn lemma_what_keeps_movers_out(map: &GameMap, routing: Option<MovementRoutingOptions>, idx: int)
    ensures
        map.blocked[idx] ==> !ok_to_move_spec(map, routing, idx),
        routing matches Some(r) && r.avoid_fire && map.fire[idx] ==> !ok_to_move_spec(map, routing, idx),
        routing matches Some(r) && r.avoid_chill && map.chill[idx] ==> !ok_to_move_spec(map, routing, idx),
        routing matches Some(r) && r.avoid_water && map.water[idx] ==> !ok_to_move_spec(map, routing, idx),
        routing matches Some(r) && !map.blocked[idx] && !(r.avoid_fire && map.fire[idx]) && !(r.avoid_chill
            && map.chill[idx]) && !(r.avoid_water && map.water[idx]) ==> ok_to_move_spec(map, routing, idx),
        routing is None ==> (ok_to_move_spec(map, routing, idx) <==> !map.blocked[idx]),
{
}

/// Serves a move request for an entity at `pos`. A monster never moves onto
/// the player, and only forced moves ignore what blocks or is avoided.
/// Returns whether the entity moved; then its position is the target (and so
/// is the player's, for the player), and a blocking entity carries the
/// blocked flag from its old tile to its new one.
pub fn serve_move_request(map: &mut GameMap, pos: &mut Position, req: MoveRequest, player_pos: &mut Point) -> (moved: bool)
    requires
        old(map).wf(),
        old(map).on_map(old(pos).x as int, old(pos).y as int),
        old(map).on_map(req.to.x as int, req.to.y as int),
    ensures
        final(map).wf(),
        ({
            let old_idx = old(map).idx(old(pos).x as int, old(pos).y as int);
            let new_idx = old(map).idx(req.to.x as int, req.to.y as int);
            let onto_player = !req.is_player && req.to == *old(player_pos);
            let ok = req.force || ok_to_move_spec(old(map), req.routing, new_idx);
            &&& moved == (!onto_player && ok)
            &&& moved ==> *final(pos) == (Position { x: req.to.x, y: req.to.y })
            &&& !moved ==> *final(pos) == *old(pos)
            &&& *final(player_pos) == if moved && req.is_player { req.to } else { *old(player_pos) }
            &&& final(map).blocked@ == if moved && req.is_blocking {
                old(map).blocked@.update(old_idx, false).update(new_idx, true)
            } else {
                old(map).blocked@
            }
            &&& !req.force && old(map).blocked[new_idx] ==> !moved
            &&& !req.force && (req.routing matches Some(r) && ((r.avoid_fire && old(map).fire[new_idx]) || (r.avoid_chill
                && old(map).chill[new_idx]) || (r.avoid_water && old(map).water[new_idx]))) ==> !moved
            &&& onto_player ==> !moved
        }),
        final(map).width == old(map).width,
        final(map).height == old(map).height,
        final(map).depth == old(map).depth,
        final(map).tiles@ == old(map).tiles@,
        final(map).revealed_tiles@ == old(map).revealed_tiles@,
        final(map).visible_tiles@ == old(map).visible_tiles@,
        final(map).fire@ == old(map).fire@,
        final(map).chill@ == old(map).chill@,
        final(map).water@ == old(map).water@,
        final(map).tile_content@ == old(map).tile_content@,
{
    proof {
        lemma_idx_on_grid(map.width as int, map.height as int, pos.x as int, pos.y as int);
        lemma_idx_on_grid(map.width as int, map.height as int, req.to.x as int, req.to.y as int);
    }
    let old_idx = map.xy_idx(pos.x, pos.y);
    let new_idx = map.xy_idx(req.to.x, req.to.y);
    let onto_player = req.to.x == player_pos.x && req.to.y == player_pos.y;
    let ok = req.force || ok_to_move_to_position(map, req.routing, new_idx);
    if (!req.is_player && onto_player) || !ok {
        return false;
    }
    pos.x = req.to.x;
    pos.y = req.to.y;
    if req.is_player {
        player_pos.x = req.to.x;
        player_pos.y = req.to.y;
    }
    if req.is_blocking {
        map.blocked.set(old_idx, false);
        map.blocked.set(new_idx, true);
    }
    true
}

/// Number of tiles drawn when looking for a teleport destination.
pub const TELEPORT_TRIES: i32 = 10;

/// The destination of a teleport: a random open floor tile that is not
/// blocked, after at most `TELEPORT_TRIES` draws (`None` when none of them
/// is one).
pub fn teleport_destination(map: &GameMap, rng: &mut RandomNumberGenerator) -> (r: Option<Point>)
    requires
        map.wf(),
    ensures
        r matches Some(p) ==> map.on_map(p.x as int, p.y as int) && is_open_floor(map.tiles[map.idx(p.x as int, p.y as int)])
            && !map.blocked[map.idx(p.x as int, p.y as int)],
        map.all_free() ==> r is Some,
        map.random_unblocked_outcome(
            TELEPORT_TRIES as int,
            match r {
                Some(p) => Some((p.x, p.y)),
                None => None,
            },
        ),
{
    match map.random_unblocked_point(TELEPORT_TRIES, rng) {
        Some(pt) => Some(Point { x: pt.0, y: pt.1 }),
        None => None,
    }
}

} // verus!
