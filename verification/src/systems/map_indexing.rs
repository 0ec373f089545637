use vstd::prelude::*;
use specs::Entity;
use crate::components::spawn_despawn::EntitySpawnKind;
use crate::map::{GameMap, TileType};

verus! {

//----------------------------------------------------------------------------
// Map indexing.
//
// Each turn the per-tile state of the map is rebuilt from the entities on it:
// which tiles are blocked for movement, which burn, which are chilled, and
// which entities stand on each tile.
//----------------------------------------------------------------------------

/// An entity that has a position on the map, with what the index reads of it.
#[derive(Copy, Clone)]
pub struct PlacedEntity {
    pub entity: Entity,
    pub x: i32,
    pub y: i32,
    /// It blocks the tile it stands on.
    pub blocks_tile: bool,
    /// Its kind, for entities spawned by kind (fire, chill, ...).
    pub kind: Option<EntitySpawnKind>,
}

pub open spec fn is_fire(p: PlacedEntity) -> bool {
    p.kind matches Some(k) && k is Fire
}

pub open spec fn is_chill(p: PlacedEntity) -> bool {
    p.kind matches Some(k) && k is Chill
}

/// The placed entities standing on storage index `i`, in order.
pub open spec fn standing_on(map: &GameMap, placed: Seq<PlacedEntity>, i: int) -> Seq<PlacedEntity> {
    placed.filter(|p: PlacedEntity| map.idx(p.x as int, p.y as int) == i)
}

/// Every placed entity stands on the map.
pub open spec fn all_on_map(map: &GameMap, placed: Seq<PlacedEntity>) -> bool {
    forall|k: int| 0 <= k < placed.len() ==> map.on_map(#[trigger] placed[k].x as int, placed[k].y as int)
}

/// Rebuilds the blocked, fire and chill flags and the tile contents of the
/// map from the entities placed on it. A tile is blocked when it is a wall or
/// an entity standing on it blocks it; it burns (is chilled) when a fire
/// (chill) stands on it; its contents are the entities standing on it, in
/// the order given.
pub fn index_map(map: &mut GameMap, placed: &Vec<PlacedEntity>)
    requires
        old(map).wf(),
        all_on_map(old(map), placed@),
    ensures
        final(map).wf(),
        final(map).width == old(map).width,
        final(map).height == old(map).height,
        final(map).depth == old(map).depth,
        final(map).tiles@ == old(map).tiles@,
        final(map).revealed_tiles@ == old(map).revealed_tiles@,
        final(map).visible_tiles@ == old(map).visible_tiles@,
        final(map).water@ == old(map).water@,
        forall|i: int|
            0 <= i < final(map).tiles.len() ==> {
                &&& final(map).blocked[i] == (final(map).tiles[i] == TileType::Wall || exists|k: int|
                    0 <= k < placed.len() && placed[k].blocks_tile && #[trigger] old(map).idx(
                        placed[k].x as int,
                        placed[k].y as int,
                    ) == i)
                &&& final(map).fire[i] == exists|k: int|
                    0 <= k < placed.len() && is_fire(placed[k]) && #[trigger] old(map).idx(
                        placed[k].x as int,
                        placed[k].y as int,
                    ) == i
                &&& final(map).chill[i] == exists|k: int|
                    0 <= k < placed.len() && is_chill(placed[k]) && #[trigger] old(map).idx(
                        placed[k].x as int,
                        placed[k].y as int,
                    ) == i
                &&& final(map).tile_content[i]@ == standing_on(old(map), placed@, i).map_values(
                    |p: PlacedEntity| p.entity,
                )
            },
{
    map.populate_blocked();
    map.clear_tile_content();
    let n = map.tiles.len();
    let mut j: usize = 0;
    while j < n
        invariant
            map.wf(),
            n == map.tiles.len(),
            j <= n,
            map.width == old(map).width,
            map.height == old(map).height,
            map.depth == old(map).depth,
            map.tiles@ == old(map).tiles@,
            map.revealed_tiles@ == old(map).revealed_tiles@,
            map.visible_tiles@ == old(map).visible_tiles@,
            map.water@ == old(map).water@,
            forall|i: int| 0 <= i < n ==> map.blocked[i] == (map.tiles[i] == TileType::Wall),
            forall|i: int| 0 <= i < n ==> map.tile_content[i].len() == 0,
            forall|i: int| 0 <= i < j ==> !map.fire[i] && !map.chill[i],
        decreases n - j,
    {
        map.fire.set(j, false);
        map.chill.set(j, false);
        j = j + 1;
    }
    let ghost m0 = *map;
    let mut k: usize = 0;
    while k < placed.len()
        invariant
            map.wf(),
            all_on_map(old(map), placed@),
            n == map.tiles.len(),
            k <= placed.len(),
            map.width == old(map).width,
            map.height == old(map).height,
            map.depth == old(map).depth,
            map.tiles@ == old(map).tiles@,
            map.revealed_tiles@ == old(map).revealed_tiles@,
            map.visible_tiles@ == old(map).visible_tiles@,
            map.water@ == old(map).water@,
            forall|i: int|
                0 <= i < n ==> {
                    &&& map.blocked[i] == (map.tiles[i] == TileType::Wall || exists|q: int|
                        0 <= q < k && placed[q].blocks_tile && #[trigger] old(map).idx(
                            placed[q].x as int,
                            placed[q].y as int,
                        ) == i)
                    &&& map.fire[i] == exists|q: int|
                        0 <= q < k && is_fire(placed[q]) && #[trigger] old(map).idx(
                            placed[q].x as int,
                            placed[q].y as int,
                        ) == i
                    &&& map.chill[i] == exists|q: int|
                        0 <= q < k && is_chill(placed[q]) && #[trigger] old(map).idx(
                            placed[q].x as int,
                            placed[q].y as int,
                        ) == i
                    &&& map.tile_content[i]@ == standing_on(old(map), placed@.take(k as int), i).map_values(
                        |p: PlacedEntity| p.entity,
                    )
                },
        decreases placed.len() - k,
    {
        let p = placed[k];
        proof {
            assert(map.on_map(p.x as int, p.y as int));
            crate::grid::lemma_idx_on_grid(map.width as int, map.height as int, p.x as int, p.y as int);
        }
        let idx = map.xy_idx(p.x, p.y);
        let ghost before = *map;
        if p.blocks_tile {
            map.blocked.set(idx, true);
        }
        let fire = match p.kind {
            Some(EntitySpawnKind::Fire { .. }) => true,
            _ => false,
        };
        let chill = match p.kind {
            Some(EntitySpawnKind::Chill { .. }) => true,
            _ => false,
        };
        if fire {
            map.fire.set(idx, true);
        }
        if chill {
            map.chill.set(idx, true);
        }
        map.tile_content[idx].push(p.entity);
        proof {
            assert(placed@.take(k as int + 1).drop_last() =~= placed@.take(k as int));
            assert forall|i: int| 0 <= i < n implies {
                &&& map.blocked[i] == (map.tiles[i] == TileType::Wall || exists|q: int|
                    0 <= q < k + 1 && placed[q].blocks_tile && #[trigger] old(map).idx(
                        placed[q].x as int,
                        placed[q].y as int,
                    ) == i)
                &&& map.fire[i] == exists|q: int|
                    0 <= q < k + 1 && is_fire(placed[q]) && #[trigger] old(map).idx(
                        placed[q].x as int,
                        placed[q].y as int,
                    ) == i
                &&& map.chill[i] == exists|q: int|
                    0 <= q < k + 1 && is_chill(placed[q]) && #[trigger] old(map).idx(
                        placed[q].x as int,
                        placed[q].y as int,
                    ) == i
                &&& map.tile_content[i]@ == standing_on(old(map), placed@.take(k as int + 1), i).map_values(
                    |p: PlacedEntity| p.entity,
                )
            } by {
                reveal_with_fuel(Seq::filter, 1);
                if i == idx {
                    assert(old(map).idx(placed[k as int].x as int, placed[k as int].y as int) == i);
                }
            }
        }
        k = k + 1;
    }
    assert(placed@.take(placed.len() as int) =~= placed@);
}

} // verus!
