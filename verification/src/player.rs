use vstd::prelude::*;
use specs::Entity;
use crate::components::basics::{Position, contains_point};
use crate::components::hunger::HungerState;
use crate::components::melee::MeeleAttackFormation;
use crate::gamelog::GameLog;
use crate::geometry::Point;
use crate::grid::lemma_idx_on_grid;
use crate::map::{GameMap, TileType};

verus! {

//----------------------------------------------------------------------------
// The player's actions: moving (and attacking what stands in the way),
// dashing, passing the turn, picking up items and descending.
//----------------------------------------------------------------------------

/// Hit points regained by waiting a turn.
pub const WAIT_HEAL_AMOUNT: i32 = 1;

/// What the player's actions read of an entity standing on a tile.
#[derive(Copy, Clone)]
pub struct TileOccupant {
    pub entity: Entity,
    pub has_combat_stats: bool,
    pub is_invisible: bool,
    pub is_monster: bool,
}

/// The entities standing on each tile, by storage index, as the player's
/// actions see them.
pub open spec fn occupants_fit(map: &GameMap, occupants: Seq<Vec<TileOccupant>>) -> bool {
    occupants.len() == map.width * map.height
}

/// The melee targets among the occupants of a tile: those with combat stats
/// and, unless invisible ones count, visible.
pub open spec fn melee_targets_spec(occ: Seq<TileOccupant>, include_invisible: bool) -> Seq<Entity> {
    occ.filter(|o: TileOccupant| o.has_combat_stats && (include_invisible || !o.is_invisible)).map_values(
        |o: TileOccupant| o.entity,
    )
}

/// The melee targets on the tile with storage index `idx`.
pub fn get_meele_targets_in_tile(occupants: &Vec<Vec<TileOccupant>>, idx: usize, include_invisible: bool) -> (targets: Vec<
    Entity,
>)
    requires
        idx < occupants.len(),
    ensures
        targets@ == melee_targets_spec(occupants[idx as int]@, include_invisible),
{
    let occ = &occupants[idx];
    let mut targets: Vec<Entity> = Vec::new();
    let mut i: usize = 0;
    while i < occ.len()
        invariant
            i <= occ.len(),
            targets@ == melee_targets_spec(occ@.take(i as int), include_invisible),
        decreases occ.len() - i,
    {
        let o = occ[i];
        proof {
            reveal_with_fuel(Seq::filter, 1);
            assert(occ@.take(i as int + 1).drop_last() =~= occ@.take(i as int));
        }
        if o.has_combat_stats && (include_invisible || !o.is_invisible) {
            targets.push(o.entity);
        }
        i = i + 1;
    }
    assert(occ@.take(occ.len() as int) =~= occ@);
    targets
}

/// The tiles on the edge of the map are blocked.
pub open spec fn border_blocked(map: &GameMap) -> bool {
    forall|x: int, y: int|
        map.on_map(x, y) && (x == 0 || y == 0 || x == map.width - 1 || y == map.height - 1) ==> #[trigger] map.blocked[map.idx(x, y)]
}

/// What the player's attempt to move does.
pub enum PlayerMove {
    /// Attack the targets in the tile moved towards; the player stays.
    Attack { targets: Vec<Entity> },
    /// Step one tile and attack the targets one tile beyond (a dash weapon).
    DashAttack { targets: Vec<Entity>, step_to: Point },
    /// The charged dash special: run along the line of movement and strike
    /// the first targets met, with critical hits; the special is spent.
    SpecialDash { targets: Vec<Entity>, step_to: Point, strike_at: Point },
    /// Step into the free tile.
    Move { to: Point },
    /// Walking into a wall, or the like: the turn is not used.
    Blocked,
}

/// The point `k` steps of (`dx`, `dy`) from `start`.
pub open spec fn ray_point(start: Point, dx: int, dy: int, k: int) -> Point {
    Point { x: (start.x + k * dx) as i32, y: (start.y + k * dy) as i32 }
}

/// The first point along the line from `start` in steps of (`dx`, `dy`) that
/// ends the charged dash: one the player does not see, or one that is
/// blocked or holds a target. `None` when the line leaves the map first.
pub open spec fn dash_stop(
    map: &GameMap,
    occupants: Seq<Vec<TileOccupant>>,
    visible: Seq<Point>,
    start: Point,
    dx: int,
    dy: int,
    k: nat,
) -> bool {
    let p = ray_point(start, dx, dy, k as int);
    !visible.contains(p) || map.blocked[map.idx(p.x as int, p.y as int)]
        || melee_targets_spec(occupants[map.idx(p.x as int, p.y as int)]@, false).len() > 0
}

/// The `k`-th point along the dash line is one the charged dash strikes:
/// the player sees it and it holds targets.
pub open spec fn dash_strike(
    map: &GameMap,
    occupants: Seq<Vec<TileOccupant>>,
    visible: Seq<Point>,
    start: Point,
    dx: int,
    dy: int,
    k: nat,
) -> bool {
    let p = ray_point(start, dx, dy, k as int);
    visible.contains(p) && melee_targets_spec(occupants[map.idx(p.x as int, p.y as int)]@, false).len() > 0
}

/// The `k`-th point along the dash line is the first point that ends the
/// charged dash, and the dash strikes there.
pub open spec fn first_dash_strike(
    map: &GameMap,
    occupants: Seq<Vec<TileOccupant>>,
    visible: Seq<Point>,
    start: Point,
    dx: int,
    dy: int,
    k: nat,
) -> bool {
    &&& 1 <= k
    &&& dash_strike(map, occupants, visible, start, dx, dy, k)
    &&& forall|j: int| 1 <= j < k ==> !#[trigger] dash_stop(map, occupants, visible, start, dx, dy, j as nat)
}

/// When the `k`-th point is the first that ends the charged dash, it is the
/// only candidate for the dash's strike.
proof fn lemma_first_strike_is_first_stop(
    map: &GameMap,
    occupants: Seq<Vec<TileOccupant>>,
    visible: Seq<Point>,
    start: Point,
    dx: int,
    dy: int,
    k: nat,
)
    requires
        1 <= k,
        dash_stop(map, occupants, visible, start, dx, dy, k),
        forall|j: int| 1 <= j < k ==> !#[trigger] dash_stop(map, occupants, visible, start, dx, dy, j as nat),
    ensures
        forall|k2: nat|
            #[trigger] first_dash_strike(map, occupants, visible, start, dx, dy, k2) ==> k2 == k && dash_strike(
                map,
                occupants,
                visible,
                start,
                dx,
                dy,
                k,
            ),
{
    assert forall|k2: nat| #[trigger] first_dash_strike(map, occupants, visible, start, dx, dy, k2) implies k2 == k
        && dash_strike(map, occupants, visible, start, dx, dy, k) by {
        assert(forall|j: int|
            1 <= j < k2 ==> !#[trigger] dash_stop(map, occupants, visible, start, dx, dy, j as nat));
        assert(dash_strike(map, occupants, visible, start, dx, dy, k2));
        if k2 < k {
            let j: int = k2 as int;
            assert(dash_stop(map, occupants, visible, start, dx, dy, j as nat));
        } else if k2 > k {
            let j: int = k as int;
            assert(1 <= j < k2);
            assert(!dash_stop(map, occupants, visible, start, dx, dy, j as nat));
        }
    }
}

/// The dash weapon steps one tile and strikes the targets beyond it.
pub open spec fn dash_attack_applies(
    map: &GameMap,
    occupants: Seq<Vec<TileOccupant>>,
    pos: Point,
    dx: int,
    dy: int,
    formation: MeeleAttackFormation,
) -> bool {
    &&& formation is Dash
    &&& !map.blocked[map.idx(pos.x + dx, pos.y + dy)]
    &&& melee_targets_spec(occupants[map.idx(pos.x + 2 * dx, pos.y + 2 * dy)]@, false).len() > 0
}

/// Attempts to move the player at `pos` by (`dx`, `dy`), one of the eight
/// directions. `formation` is that of the weapon the player wields,
/// `dash_special_charged` whether a dash special it wields is charged, and
/// `visible` the tiles the player sees.
pub fn try_move_player(
    map: &GameMap,
    occupants: &Vec<Vec<TileOccupant>>,
    pos: Point,
    dx: i32,
    dy: i32,
    formation: MeeleAttackFormation,
    dash_special_charged: bool,
    visible: &Vec<Point>,
) -> (m: PlayerMove)
    requires
        map.wf(),
        occupants_fit(map, occupants@),
        border_blocked(map),
        -1 <= dx <= 1,
        -1 <= dy <= 1,
        dx != 0 || dy != 0,
        1 <= pos.x < map.width - 1,
        1 <= pos.y < map.height - 1,
    ensures
        ({
            let dest = Point { x: (pos.x + dx) as i32, y: (pos.y + dy) as i32 };
            let didx = map.idx(dest.x as int, dest.y as int);
            let dest_targets = melee_targets_spec(occupants[didx]@, true);
            &&& formation is Basic && dest_targets.len() > 0 ==> (m matches PlayerMove::Attack { targets } && targets@
                == dest_targets)
            &&& formation is Dash && dest_targets.len() > 0 ==> (m matches PlayerMove::Attack { targets } && targets@
                == dest_targets)
            &&& formation is Dash && dest_targets.len() == 0 && !map.blocked[didx] && ({
                let far = Point { x: (pos.x + 2 * dx) as i32, y: (pos.y + 2 * dy) as i32 };
                melee_targets_spec(occupants[map.idx(far.x as int, far.y as int)]@, false).len() > 0
            }) ==> (m matches PlayerMove::DashAttack { targets, step_to } && step_to == dest && targets@
                == melee_targets_spec(
                occupants[map.idx(pos.x + 2 * dx, pos.y + 2 * dy)]@,
                false,
            ))
            &&& m matches PlayerMove::Move { to } ==> to == dest && !map.blocked[didx]
            &&& m is Blocked ==> map.blocked[didx]
            &&& m matches PlayerMove::SpecialDash { targets, step_to, strike_at } ==> {
                &&& dash_special_charged
                &&& targets@ == melee_targets_spec(occupants[map.idx(strike_at.x as int, strike_at.y as int)]@, false)
                &&& targets.len() > 0
                &&& visible@.contains(strike_at)
                &&& step_to == (Point { x: (strike_at.x - dx) as i32, y: (strike_at.y - dy) as i32 })
                &&& exists|k: int|
                    1 <= k && strike_at == #[trigger] ray_point(pos, dx as int, dy as int, k)
                        && forall|j: int|
                        1 <= j < k ==> !#[trigger] dash_stop(map, occupants@, visible@, pos, dx as int, dy as int, j as nat)
            }
            &&& (m is Move || m is Blocked) ==> dest_targets.len() == 0 || formation is Basic && dest_targets.len() == 0
            &&& m matches PlayerMove::Attack { targets } ==> targets@ == dest_targets && dest_targets.len() > 0
            &&& m is DashAttack ==> formation is Dash && dest_targets.len() == 0 && !map.blocked[didx]
            &&& formation is Basic && dest_targets.len() == 0 && !dash_special_charged ==> (if map.blocked[didx] {
                m is Blocked
            } else {
                m == (PlayerMove::Move { to: dest })
            })
            &&& forall|k: nat|
                dash_special_charged && dest_targets.len() == 0 && !dash_attack_applies(
                    map,
                    occupants@,
                    pos,
                    dx as int,
                    dy as int,
                    formation,
                ) && #[trigger] first_dash_strike(map, occupants@, visible@, pos, dx as int, dy as int, k) ==> {
                    let p = ray_point(pos, dx as int, dy as int, k as int);
                    &&& m matches PlayerMove::SpecialDash { targets, step_to, strike_at }
                    &&& strike_at == p
                    &&& targets@ == melee_targets_spec(occupants[map.idx(p.x as int, p.y as int)]@, false)
                }
            &&& dest_targets.len() == 0 && !dash_attack_applies(map, occupants@, pos, dx as int, dy as int, formation)
                && !(dash_special_charged && exists|k: nat|
                #[trigger] first_dash_strike(map, occupants@, visible@, pos, dx as int, dy as int, k)) ==> (
            if map.blocked[didx] {
                m is Blocked
            } else {
                m == (PlayerMove::Move { to: dest })
            })
        }),
{
    proof {
        lemma_idx_on_grid(map.width as int, map.height as int, (pos.x + dx) as int, (pos.y + dy) as int);
    }
    let dest = Point { x: pos.x + dx, y: pos.y + dy };
    let destination_idx = map.xy_idx(dest.x, dest.y);
    let destination_is_blocked = map.blocked[destination_idx];
    let dest_targets = get_meele_targets_in_tile(occupants, destination_idx, true);
    match formation {
        MeeleAttackFormation::Basic => {
            if dest_targets.len() > 0 {
                return PlayerMove::Attack { targets: dest_targets };
            }
        },
        MeeleAttackFormation::Dash => {
            if dest_targets.len() > 0 {
                return PlayerMove::Attack { targets: dest_targets };
            } else if !destination_is_blocked {
                // The destination is unblocked, so it is not on the edge of
                // the map, and the tile beyond it is on the map.
                proof {
                    if !map.in_bounds(dest.x as int, dest.y as int) || dest.x == map.width - 1 || dest.y == map.height - 1 {
                        assert(map.blocked[map.idx(dest.x as int, dest.y as int)]);
                    }
                    lemma_idx_on_grid(map.width as int, map.height as int, (pos.x + 2 * dx) as int, (pos.y + 2 * dy) as int);
                }
                let dash_idx = map.xy_idx(pos.x + 2 * dx, pos.y + 2 * dy);
                let dash_targets = get_meele_targets_in_tile(occupants, dash_idx, false);
                if dash_targets.len() > 0 {
                    return PlayerMove::DashAttack { targets: dash_targets, step_to: dest };
                }
            }
        },
    }
    if dash_special_charged {
        let mut search = dest;
        let ghost mut k: int = 1;
        assert(search.x == pos.x + k * dx && search.y == pos.y + k * dy) by (nonlinear_arith)
            requires
                k == 1,
                search.x == pos.x + dx,
                search.y == pos.y + dy,
        ;
        while 0 <= search.x && search.x < map.width && 0 <= search.y && search.y < map.height
            invariant_except_break
                dash_special_charged,
                dest == (Point { x: (pos.x + dx) as i32, y: (pos.y + dy) as i32 }),
                destination_idx == map.idx(dest.x as int, dest.y as int),
                melee_targets_spec(occupants[destination_idx as int]@, true).len() == 0,
                formation is Dash && !map.blocked[destination_idx as int] ==> melee_targets_spec(
                    occupants[map.idx(pos.x + 2 * dx, pos.y + 2 * dy)]@,
                    false,
                ).len() == 0,
                map.wf(),
                occupants_fit(map, occupants@),
                border_blocked(map),
                1 <= k,
                search == ray_point(pos, dx as int, dy as int, k),
                search.x == pos.x + k * dx,
                search.y == pos.y + k * dy,
                forall|j: int| 1 <= j < k ==> !#[trigger] dash_stop(map, occupants@, visible@, pos, dx as int, dy as int, j as nat),
                -1 <= dx <= 1,
                -1 <= dy <= 1,
                dx != 0 || dy != 0,
                1 <= pos.x < map.width - 1,
                1 <= pos.y < map.height - 1,
                map.on_map(search.x as int, search.y as int) ==> map.in_bounds(search.x as int, search.y as int)
                    || map.blocked[map.idx(search.x as int, search.y as int)],
                map.on_map(search.x as int, search.y as int),
            ensures
                forall|k2: nat| !#[trigger] first_dash_strike(map, occupants@, visible@, pos, dx as int, dy as int, k2),
            decreases (if dx > 0 { map.width - search.x } else if dx < 0 { search.x + 1 } else { 0 }) + (if dy
                > 0 { map.height - search.y } else if dy < 0 { search.y + 1 } else { 0 }),
        {
            proof {
                lemma_idx_on_grid(map.width as int, map.height as int, search.x as int, search.y as int);
            }
            let search_idx = map.xy_idx(search.x, search.y);
            let tile_not_visible = !contains_point(visible, search);
            let is_blocked = map.blocked[search_idx];
            let dash_targets = get_meele_targets_in_tile(occupants, search_idx, false);
            if tile_not_visible {
                proof {
                    assert(dash_stop(map, occupants@, visible@, pos, dx as int, dy as int, k as nat));
                    lemma_first_strike_is_first_stop(map, occupants@, visible@, pos, dx as int, dy as int, k as nat);
                }
                break;
            } else if dash_targets.len() == 0 && is_blocked {
                proof {
                    assert(dash_stop(map, occupants@, visible@, pos, dx as int, dy as int, k as nat));
                    lemma_first_strike_is_first_stop(map, occupants@, visible@, pos, dx as int, dy as int, k as nat);
                }
                break;
            } else if dash_targets.len() > 0 {
                proof {
                    assert(visible@.contains(search));
                    assert(search == ray_point(pos, dx as int, dy as int, k));
                    assert(dash_stop(map, occupants@, visible@, pos, dx as int, dy as int, k as nat));
                    lemma_first_strike_is_first_stop(map, occupants@, visible@, pos, dx as int, dy as int, k as nat);
                    assert(first_dash_strike(map, occupants@, visible@, pos, dx as int, dy as int, k as nat));
                }
                return PlayerMove::SpecialDash {
                    targets: dash_targets,
                    step_to: Point { x: search.x - dx, y: search.y - dy },
                    strike_at: search,
                };
            }
            // Unblocked and without targets: not on the edge, so the next
            // point is on the map.
            proof {
                assert(!dash_stop(map, occupants@, visible@, pos, dx as int, dy as int, k as nat));
                if !map.in_bounds(search.x as int, search.y as int) || search.x == map.width - 1 || search.y
                    == map.height - 1 {
                    assert(map.blocked[map.idx(search.x as int, search.y as int)]);
                }
                assert((k + 1) * dx == k * dx + dx) by (nonlinear_arith);
                assert((k + 1) * dy == k * dy + dy) by (nonlinear_arith);
                k = k + 1;
            }
            search = Point { x: search.x + dx, y: search.y + dy };
        }
    }
    if !destination_is_blocked {
        PlayerMove::Move { to: dest }
    } else {
        PlayerMove::Blocked
    }
}

/// What passing the turn does.
pub enum SkipTurn {
    /// The charged spin special: strike every adjacent target with a
    /// critical hit; the special is spent.
    SpinAttack { targets: Vec<Entity> },
    /// Rest: regain `WAIT_HEAL_AMOUNT` hit points.
    Heal,
    /// Nothing happens.
    Wait,
}

/// No monster that the player can see stands on a tile the player sees.
pub open spec fn no_visible_monster(map: &GameMap, occupants: Seq<Vec<TileOccupant>>, visible: Seq<Point>) -> bool {
    forall|i: int, j: int|
        0 <= i < visible.len() && 0 <= j < occupants[map.idx(visible[i].x as int, visible[i].y as int)].len() ==> {
            let o = #[trigger] occupants[map.idx(visible[i].x as int, visible[i].y as int)]@[j];
            !o.is_monster || o.is_invisible
        }
}

/// A player may rest unless hungry or starving.
pub open spec fn fed_enough(hunger: Option<HungerState>) -> bool {
    match hunger {
        Some(h) => h == HungerState::WellFed || h == HungerState::Normal,
        None => true,
    }
}

/// Passes the player's turn. With a charged spin special and targets
/// `adjacent_targets` around, the player spins; otherwise it heals when no
/// monster is in view and it is not hungry.
pub fn skip_turn(
    map: &GameMap,
    occupants: &Vec<Vec<TileOccupant>>,
    visible: &Vec<Point>,
    spin_special_charged: bool,
    adjacent_targets: Vec<Entity>,
    hunger: Option<HungerState>,
) -> (s: SkipTurn)
    requires
        map.wf(),
        occupants_fit(map, occupants@),
        forall|i: int| 0 <= i < visible.len() ==> map.on_map(#[trigger] visible[i].x as int, visible[i].y as int),
    ensures
        spin_special_charged && adjacent_targets.len() > 0 ==> (s matches SkipTurn::SpinAttack { targets } && targets@
            == adjacent_targets@),
        !(spin_special_charged && adjacent_targets.len() > 0) ==> (s is Heal <==> (no_visible_monster(
            map,
            occupants@,
            visible@,
        ) && fed_enough(hunger))),
        !(spin_special_charged && adjacent_targets.len() > 0) ==> (s is Heal || s is Wait),
{
    if spin_special_charged && adjacent_targets.len() > 0 {
        return SkipTurn::SpinAttack { targets: adjacent_targets };
    }
    let mut can_heal = true;
    let mut i: usize = 0;
    while i < visible.len()
        invariant
            map.wf(),
            occupants_fit(map, occupants@),
            forall|q: int| 0 <= q < visible.len() ==> map.on_map(#[trigger] visible[q].x as int, visible[q].y as int),
            i <= visible.len(),
            can_heal == forall|a: int, b: int|
                0 <= a < i && 0 <= b < occupants[map.idx(visible[a].x as int, visible[a].y as int)].len() ==> {
                    let o = #[trigger] occupants[map.idx(visible[a].x as int, visible[a].y as int)]@[b];
                    !o.is_monster || o.is_invisible
                },
        decreases visible.len() - i,
    {
        let tile = visible[i];
        proof {
            assert(map.on_map(visible[i as int].x as int, visible[i as int].y as int));
            lemma_idx_on_grid(map.width as int, map.height as int, tile.x as int, tile.y as int);
        }
        let idx = map.xy_idx(tile.x, tile.y);
        let occ = &occupants[idx];
        let mut j: usize = 0;
        let ghost before = can_heal;
        while j < occ.len()
            invariant
                j <= occ.len(),
                can_heal == (before && forall|b: int|
                    0 <= b < j ==> !occ@[b].is_monster || occ@[b].is_invisible),
            decreases occ.len() - j,
        {
            let o = occ[j];
            can_heal = can_heal && (!o.is_monster || o.is_invisible);
            j = j + 1;
        }
        proof {
            assert forall|a: int, b: int|
                0 <= a < i + 1 && 0 <= b < occupants[map.idx(visible[a].x as int, visible[a].y as int)].len() && can_heal implies {
                    let o = #[trigger] occupants[map.idx(visible[a].x as int, visible[a].y as int)]@[b];
                    !o.is_monster || o.is_invisible
                } by {
                if a == i {
                    assert(occ@[b] == occupants[map.idx(visible[a].x as int, visible[a].y as int)]@[b]);
                }
            }
            if !can_heal {
                if !before {
                    let (a, b) = choose|a: int, b: int|
                        0 <= a < i && 0 <= b < occupants[map.idx(visible[a].x as int, visible[a].y as int)].len() && !({
                            let o = #[trigger] occupants[map.idx(visible[a].x as int, visible[a].y as int)]@[b];
                            !o.is_monster || o.is_invisible
                        });
                    assert(occupants[map.idx(visible[a].x as int, visible[a].y as int)]@[b] == occupants[map.idx(
                        visible[a].x as int,
                        visible[a].y as int,
                    )]@[b]);
                } else {
                    let b = choose|b: int| 0 <= b < j && !(!occ@[b].is_monster || occ@[b].is_invisible);
                    assert(occupants[map.idx(visible[i as int].x as int, visible[i as int].y as int)]@[b] == occ@[b]);
                }
            }
        }
        i = i + 1;
    }
    let fed = match hunger {
        Some(h) => match h {
            HungerState::WellFed => true,
            HungerState::Normal => true,
            _ => false,
        },
        None => true,
    };
    if can_heal && fed {
        SkipTurn::Heal
    } else {
        SkipTurn::Wait
    }
}

/// Whether the player at `pos` can descend: only from the down stairs;
/// otherwise the log says there is no way down.
pub fn try_next_level(map: &GameMap, pos: Point, log: &mut GameLog) -> (b: bool)
    requires
        map.wf(),
        map.on_map(pos.x as int, pos.y as int),
    ensures
        b == (map.tiles[map.idx(pos.x as int, pos.y as int)] == TileType::DownStairs),
        b ==> final(log).entries@ == old(log).entries@,
        !b ==> final(log).entries.len() == old(log).entries.len() + 1,
        !b ==> final(log).entries@.drop_last() == old(log).entries@,
        !b ==> final(log).entries@.last()@ == "There is no way down from here."@,
{
    proof {
        lemma_idx_on_grid(map.width as int, map.height as int, pos.x as int, pos.y as int);
    }
    let idx = map.xy_idx(pos.x, pos.y);
    if map.tiles[idx] == TileType::DownStairs {
        true
    } else {
        log.push("There is no way down from here.".to_owned());
        false
    }
}

/// The first item (among those that can be picked up, with their positions)
/// lying on the player's tile; when there is none the log says so.
pub fn pickup_item(items: &Vec<(Entity, Position)>, pos: Point, log: &mut GameLog) -> (r: Option<Entity>)
    ensures
        r matches Some(e) ==> exists|i: int|
            0 <= i < items.len() && items[i].0 == e && items[i].1.x == pos.x && items[i].1.y == pos.y && forall|j: int|
                0 <= j < i ==> !(items[j].1.x == pos.x && items[j].1.y == pos.y),
        r is None ==> forall|j: int| 0 <= j < items.len() ==> !(items[j].1.x == pos.x && items[j].1.y == pos.y),
        r is Some ==> final(log).entries@ == old(log).entries@,
        r is None ==> final(log).entries@.drop_last() == old(log).entries@ && final(log).entries.len() == old(
            log,
        ).entries.len() + 1 && final(log).entries@.last()@ == "There is nothing here to pickup."@,
{
    let mut i: usize = 0;
    while i < items.len()
        invariant
            i <= items.len(),
            forall|j: int| 0 <= j < i ==> !(items[j].1.x == pos.x && items[j].1.y == pos.y),
        decreases items.len() - i,
    {
        let (e, p) = items[i];
        if p.x == pos.x && p.y == pos.y {
            return Some(e);
        }
        i = i + 1;
    }
    log.push("There is nothing here to pickup.".to_owned());
    None
}

/// A player command, as bound to a key.
#[derive(PartialEq, Eq, Structural, Copy, Clone, Debug)]
pub enum PlayerCommand {
    Move { dx: i32, dy: i32 },
    SkipTurn,
    Pickup,
    Descend,
    ShowUseInventory,
    ShowThrowInventory,
    ShowEquipInventory,
    ShowSpellbook,
    ShowHelp,
    SaveGame,
}

/// What the game does with the player's input this frame.
#[derive(PartialEq, Eq, Structural, Copy, Clone, Debug)]
pub enum InputAction {
    /// No input (or no meaningful one): keep waiting.
    AwaitInput,
    /// A frozen player passes the turn with any key.
    PassTurn,
    /// Carry out the command.
    Execute { command: PlayerCommand },
}

/// Decides what to do with the player's input: a frozen player can only
/// pass its turns (with any key, so that they do not fly by); otherwise the
/// command bound to the key is carried out.
pub fn player_input_action(frozen: bool, command: Option<PlayerCommand>, key_pressed: bool) -> (a: InputAction)
    ensures
        frozen ==> a == if key_pressed { InputAction::PassTurn } else { InputAction::AwaitInput },
        !frozen ==> a == match command {
            Some(c) => InputAction::Execute { command: c },
            None => InputAction::AwaitInput,
        },
{
    if frozen {
        if key_pressed {
            InputAction::PassTurn
        } else {
            InputAction::AwaitInput
        }
    } else {
        match command {
            Some(c) => InputAction::Execute { command: c },
            None => InputAction::AwaitInput,
        }
    }
}

} // verus!
