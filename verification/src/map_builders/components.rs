use vstd::prelude::*;
use crate::map::{GameMap, TileType};

verus! {

//----------------------------------------------------------------------------
// Working with the connected components of a map, used during generation to
// count, measure, and fill the randomly generated connected components.
//----------------------------------------------------------------------------

#[derive(Clone, Debug)]
pub struct ConnectedComponent {
    // A map index in the connected component.
    baseidx: usize,
    // ALL map indices in the connected component.
    component: Vec<usize>,
    // The size of the connected component, i.e., count of tiles.
    size: usize,
}

impl View for ConnectedComponent {
    type V = (usize, Seq<usize>, usize);

    closed spec fn view(&self) -> (usize, Seq<usize>, usize) {
        (self.baseidx, self.component@, self.size)
    }
}

impl ConnectedComponent {
    /// The index the component was grown from.
    pub fn base_index(&self) -> (b: usize)
        ensures
            b == self@.0,
    {
        self.baseidx
    }

    /// The indices of the component: its base first, then the others in
    /// increasing order.
    pub fn indices(&self) -> (c: &Vec<usize>)
        ensures
            c@ == self@.1,
    {
        &self.component
    }

    /// The number of tiles of the component.
    pub fn size(&self) -> (n: usize)
        ensures
            n == self@.2,
    {
        self.size
    }
}

/// The indices `lo..n` other than `skip` at which `reachable` holds, in
/// increasing order.
pub open spec fn reachable_from(reachable: Seq<bool>, skip: int, lo: int, n: int) -> Seq<usize>
    decreases n - lo,
{
    if lo >= n {
        Seq::empty()
    } else if reachable[lo] && lo != skip {
        seq![lo as usize] + reachable_from(reachable, skip, lo + 1, n)
    } else {
        reachable_from(reachable, skip, lo + 1, n)
    }
}

/// The component grown from `start`: the start index, followed by every other
/// index of the map's tiles that `reachable` marks; its size is the number of
/// tiles listed.
pub open spec fn component_spec(start: usize, reachable: Seq<bool>, n: int) -> (
    usize,
    Seq<usize>,
    usize,
) {
    let c = seq![start] + reachable_from(reachable, start as int, 0, n);
    (start, c, c.len() as usize)
}

proof fn lemma_reachable_from_bounds(reachable: Seq<bool>, skip: int, lo: int, n: int)
    requires
        0 <= lo,
        n <= usize::MAX,
    ensures
        forall|j: int|
            0 <= j < reachable_from(reachable, skip, lo, n).len() ==> lo <= #[trigger] reachable_from(
                reachable,
                skip,
                lo,
                n,
            )[j] < n,
        reachable_from(reachable, skip, lo, n).len() <= if n > lo {
            n - lo
        } else {
            0
        },
    decreases n - lo,
{
    if lo < n {
        lemma_reachable_from_bounds(reachable, skip, lo + 1, n);
        let rest = reachable_from(reachable, skip, lo + 1, n);
        if reachable[lo] && lo != skip {
            let s = reachable_from(reachable, skip, lo, n);
            assert(s == seq![lo as usize] + rest);
            assert forall|j: int| 0 <= j < s.len() implies lo <= #[trigger] s[j] < n by {
                if j == 0 {
                    assert(s[0] == lo as usize);
                } else {
                    assert(s[j] == rest[j - 1]);
                }
            }
        }
    }
}

impl ConnectedComponent {
    /// Every index of the component lies below `n`.
    pub open spec fn within(&self, n: int) -> bool {
        forall|j: int| 0 <= j < self@.1.len() ==> #[trigger] self@.1[j] < n
    }

    /// Does the component list the tile `i`?
    pub open spec fn holds(&self, i: int) -> bool {
        exists|j: int| 0 <= j < self@.1.len() && #[trigger] self@.1[j] == i
    }
}

/// The first index below the map's size whose `floor` flag is set.
pub fn get_next_idx(map: &GameMap, floor: &Vec<bool>) -> (r: Option<usize>)
    requires
        0 <= map.width,
        0 <= map.height,
        map.width * map.height <= i32::MAX,
        floor.len() >= map.width * map.height,
    ensures
        r matches Some(i) ==> i < map.width * map.height && floor[i as int] && forall|j: int|
            0 <= j < i ==> !floor[j],
        r is None ==> forall|j: int| 0 <= j < map.width * map.height ==> !floor[j],
{
    let n = (map.width * map.height) as usize;
    let mut idx: usize = 0;
    while idx < n
        invariant
            n == map.width * map.height,
            n <= floor.len(),
            idx <= n,
            forall|j: int| 0 <= j < idx ==> !floor[j],
        decreases n - idx,
    {
        if floor[idx] {
            return Some(idx);
        }
        idx = idx + 1;
    }
    None
}

/// The component grown from `start_idx`, given which tiles a search from
/// `start_idx` reaches.
pub fn get_connected_component_containing_index(
    map: &GameMap,
    start_idx: usize,
    reachable: &Vec<bool>,
) -> (c: ConnectedComponent)
    requires
        reachable.len() >= map.tiles.len(),
    ensures
        c@ == component_spec(start_idx, reachable@, map.tiles.len() as int),
{
    let n = map.tiles.len();
    let mut component: Vec<usize> = Vec::new();
    component.push(start_idx);
    let mut idx: usize = 0;
    while idx < n
        invariant
            n == map.tiles.len(),
            n <= reachable.len(),
            idx <= n,
            component@ + reachable_from(reachable@, start_idx as int, idx as int, n as int)
                == seq![start_idx] + reachable_from(reachable@, start_idx as int, 0, n as int),
            component.len() <= idx + 1,
        decreases n - idx,
    {
        let ghost before = component@;
        if reachable[idx] && idx != start_idx {
            component.push(idx);
            assert(before + reachable_from(reachable@, start_idx as int, idx as int, n as int)
                =~= component@ + reachable_from(reachable@, start_idx as int, idx + 1, n as int));
        }
        idx = idx + 1;
    }
    assert(reachable_from(reachable@, start_idx as int, n as int, n as int) =~= Seq::<usize>::empty());
    assert(component@ =~= component@ + Seq::<usize>::empty());
    let size = component.len();
    ConnectedComponent { baseidx: start_idx, component, size }
}

/// Splits the floor of the map into components: repeatedly takes the first
/// floor tile not yet covered, asks `reach` which tiles a search from it
/// reaches, and grows a component from the answer.
pub fn enumerate_connected_components<F: Fn(usize) -> Vec<bool>>(map: &GameMap, reach: F) -> (cs:
    Vec<ConnectedComponent>)
    requires
        map.wf(),
        forall|i: usize| #[trigger] call_requires(reach, (i,)),
        forall|i: usize, r: Vec<bool>|
            #[trigger] call_ensures(reach, (i,), r) ==> r.len() == map.tiles.len(),
    ensures
        forall|k: int|
            0 <= k < cs.len() ==> {
                &&& map.tiles[cs[k]@.0 as int] == TileType::Floor
                &&& exists|r: Vec<bool>|
                    call_ensures(reach, (cs[k]@.0,), r) && #[trigger] cs[k]@ == component_spec(
                        cs[k]@.0,
                        r@,
                        map.tiles.len() as int,
                    )
            },
        forall|k1: int, k2: int| 0 <= k1 < k2 < cs.len() ==> cs[k1]@.0 < cs[k2]@.0,
        forall|i: int|
            0 <= i < map.tiles.len() && map.tiles[i] == TileType::Floor ==> exists|k: int|
                0 <= k < cs.len() && #[trigger] cs[k].holds(i),
{
    let n = map.tiles.len();
    let mut floor: Vec<bool> = Vec::new();
    let mut i: usize = 0;
    while i < n
        invariant
            n == map.tiles.len(),
            i <= n,
            floor.len() == i,
            forall|j: int| 0 <= j < i ==> floor[j] == (map.tiles[j] == TileType::Floor),
        decreases n - i,
    {
        floor.push(map.tiles[i] == TileType::Floor);
        i = i + 1;
    }
    let mut components: Vec<ConnectedComponent> = Vec::new();
    loop
        invariant
            map.wf(),
            n == map.tiles.len(),
            floor.len() == n,
            forall|i: usize| #[trigger] call_requires(reach, (i,)),
            forall|i: usize, r: Vec<bool>|
                #[trigger] call_ensures(reach, (i,), r) ==> r.len() == map.tiles.len(),
            // Uncovered floor is still flagged; flagged tiles are floor.
            forall|j: int|
                0 <= j < n ==> (floor[j] ==> map.tiles[j] == TileType::Floor),
            forall|j: int|
                0 <= j < n && map.tiles[j] == TileType::Floor && !floor[j] ==> exists|k: int|
                    0 <= k < components.len() && #[trigger] components[k].holds(j),
            forall|k: int|
                0 <= k < components.len() ==> {
                    &&& map.tiles[components[k]@.0 as int] == TileType::Floor
                    &&& exists|r: Vec<bool>|
                        call_ensures(reach, (components[k]@.0,), r) && #[trigger] components[k]@
                            == component_spec(components[k]@.0, r@, map.tiles.len() as int)
                    &&& components[k].within(n as int)
                    &&& forall|j: int| 0 <= j <= components[k]@.0 ==> !floor[j]
                },
            forall|k1: int, k2: int|
                0 <= k1 < k2 < components.len() ==> components[k1]@.0 < components[k2]@.0,
        ensures
            forall|j: int| 0 <= j < n ==> !floor[j],
        decreases floor@.filter(|b: bool| b).len(),
    {
        let nextidx = get_next_idx(map, &floor);
        match nextidx {
            None => {
                break ;
            },
            Some(idx) => {
                let reachable = reach(idx);
                let component = get_connected_component_containing_index(map, idx, &reachable);
                proof {
                    lemma_reachable_from_bounds(reachable@, idx as int, 0, n as int);
                    assert(component.component[0] == idx);
                }
                let ghost old_floor = floor@;
                let clen = component.component.len();
                let mut t: usize = 0;
                while t < clen
                    invariant
                        clen == component.component.len(),
                        clen >= 1,
                        n == map.tiles.len(),
                        old_floor.len() == n,
                        forall|j: int| 0 <= j < n ==> (old_floor[j] ==> map.tiles[j] == TileType::Floor),
                        t <= clen,
                        floor.len() == n,
                        component.within(n as int),
                        component.component[0] == idx,
                        t > 0 ==> !floor[idx as int],
                        forall|j: int| 0 <= j < n ==> (floor[j] ==> old_floor[j]),
                        forall|j: int|
                            0 <= j < n && old_floor[j] && !floor[j] ==> component.holds(j),
                    decreases clen - t,
                {
                    let cidx = component.component[t];
                    assert(component@.1[t as int] == cidx);
                    floor.set(cidx, false);
                    assert(component.component[t as int] == cidx);
                    t = t + 1;
                }
                proof {
                    lemma_filter_true_shrinks(old_floor, floor@, idx as int);
                    assert forall|j: int| 0 <= j < n && floor[j] implies map.tiles[j] == TileType::Floor by {
                        assert(old_floor[j]);
                    }
                }
                let ghost old_comps = components@;
                components.push(component);
                proof {
                    let last = components.len() - 1;
                    assert(components[last]@ == component_spec(idx, reachable@, n as int));
                    assert forall|k: int| 0 <= k < old_comps.len() implies components[k] == old_comps[k] by {}
                    assert forall|j: int|
                        0 <= j < n && map.tiles[j] == TileType::Floor && !floor[j] implies exists|k: int|
                            0 <= k < components.len() && #[trigger] components[k].holds(j) by {
                        if old_floor[j] {
                            assert(components[last].holds(j));
                        } else {
                            let k = choose|k: int| 0 <= k < old_comps.len() && #[trigger] old_comps[k].holds(j);
                            assert(components[k].holds(j));
                        }
                    }
                    assert forall|k: int| 0 <= k < components.len() implies {
                        &&& map.tiles[components[k]@.0 as int] == TileType::Floor
                        &&& exists|r: Vec<bool>|
                            call_ensures(reach, (components[k]@.0,), r) && #[trigger] components[k]@
                                == component_spec(components[k]@.0, r@, map.tiles.len() as int)
                        &&& components[k].within(n as int)
                        &&& forall|j: int| 0 <= j <= components[k]@.0 ==> !floor[j]
                    } by {
                        if k == last {
                            assert(call_ensures(reach, (idx,), reachable));
                            assert(components[k]@.0 == idx);
                            assert(old_floor[idx as int]);
                            assert(map.tiles[idx as int] == TileType::Floor);
                            assert(call_ensures(reach, (components[k]@.0,), reachable) && components[k]@
                                == component_spec(components[k]@.0, reachable@, map.tiles.len() as int));
                            let rf = reachable_from(reachable@, idx as int, 0, n as int);
                            assert(components[k]@.1 == seq![idx] + rf);
                            assert forall|j: int| 0 <= j < components[k]@.1.len() implies #[trigger] components[k]@.1[j] < n by {
                                if j > 0 {
                                    assert(components[k]@.1[j] == rf[j - 1]);
                                }
                            }
                            assert(components[k].within(n as int));
                            assert forall|j: int| 0 <= j <= components[k]@.0 implies !floor[j] by {
                                if j < idx {
                                    assert(!old_floor[j]);
                                }
                            }
                        } else {
                            assert(components[k] == old_comps[k]);
                            assert(forall|j: int| 0 <= j <= old_comps[k]@.0 ==> !old_floor[j]);
                            assert forall|j: int| 0 <= j <= components[k]@.0 implies !floor[j] by {
                                assert(!old_floor[j]);
                            }
                        }
                    }
                }
            },
        }
    }
    assert forall|i: int|
        0 <= i < map.tiles.len() && map.tiles[i] == TileType::Floor implies exists|k: int|
            0 <= k < components.len() && #[trigger] components[k].holds(i) by {
        assert(!floor[i]);
    }
    components
}

/// Clearing a set flag, and possibly others, strictly lowers the count of set
/// flags.
proof fn lemma_filter_true_shrinks(a: Seq<bool>, b: Seq<bool>, k: int)
    requires
        a.len() == b.len(),
        0 <= k < a.len(),
        a[k],
        !b[k],
        forall|j: int| 0 <= j < a.len() ==> (b[j] ==> a[j]),
    ensures
        b.filter(|x: bool| x).len() < a.filter(|x: bool| x).len(),
    decreases a.len(),
{
    reveal_with_fuel(Seq::filter, 1);
    assert(a.drop_last().len() == b.drop_last().len());
    if k == a.len() - 1 {
        lemma_filter_true_mono(a.drop_last(), b.drop_last());
        assert(a =~= a.drop_last().push(a.last()));
        assert(b =~= b.drop_last().push(b.last()));
    } else {
        lemma_filter_true_shrinks(a.drop_last(), b.drop_last(), k);
        assert(a =~= a.drop_last().push(a.last()));
        assert(b =~= b.drop_last().push(b.last()));
    }
}

proof fn lemma_filter_true_mono(a: Seq<bool>, b: Seq<bool>)
    requires
        a.len() == b.len(),
        forall|j: int| 0 <= j < a.len() ==> (b[j] ==> a[j]),
    ensures
        b.filter(|x: bool| x).len() <= a.filter(|x: bool| x).len(),
    decreases a.len(),
{
    reveal_with_fuel(Seq::filter, 1);
    if a.len() > 0 {
        lemma_filter_true_mono(a.drop_last(), b.drop_last());
        assert(a =~= a.drop_last().push(a.last()));
        assert(b =~= b.drop_last().push(b.last()));
    }
}

/// The position of the component `max_by` picks as the largest: the last one
/// of greatest size.
pub open spec fn is_largest_index(cs: Seq<ConnectedComponent>, l: int) -> bool {
    &&& 0 <= l < cs.len()
    &&& forall|k: int| 0 <= k < cs.len() ==> cs[k]@.2 <= cs[l]@.2
    &&& forall|k: int| l < k < cs.len() ==> cs[k]@.2 < cs[l]@.2
}

/// Picks the largest component the way `Iterator::max_by` on sizes does: the
/// last of the components of greatest size.
pub fn largest_component_index(components: &Vec<ConnectedComponent>) -> (l: usize)
    requires
        components.len() > 0,
    ensures
        is_largest_index(components@, l as int),
{
    let mut best: usize = 0;
    let mut k: usize = 1;
    while k < components.len()
        invariant
            1 <= k <= components.len(),
            best < k,
            forall|j: int| 0 <= j < k ==> components[j]@.2 <= components[best as int]@.2,
            forall|j: int| best < j < k ==> components[j]@.2 < components[best as int]@.2,
        decreases components.len() - k,
    {
        if components[k].size >= components[best].size {
            best = k;
        }
        k = k + 1;
    }
    best
}

/// Do two components list the same base, tiles and size?
pub fn same_component(a: &ConnectedComponent, b: &ConnectedComponent) -> (r: bool)
    ensures
        r == (a@ == b@),
{
    if a.baseidx != b.baseidx || a.size != b.size || a.component.len() != b.component.len() {
        return false;
    }
    let mut j: usize = 0;
    while j < a.component.len()
        invariant
            a.component.len() == b.component.len(),
            j <= a.component.len(),
            forall|i: int| 0 <= i < j ==> a.component[i] == b.component[i],
        decreases a.component.len() - j,
    {
        if a.component[j] != b.component[j] {
            return false;
        }
        j = j + 1;
    }
    assert(a.component@ =~= b.component@);
    true
}

/// The components other than the largest one (compared by value, so copies
/// of the largest are spared too).
pub open spec fn filled(cs: Seq<ConnectedComponent>, l: int, k: int) -> bool {
    cs[k]@ != cs[l]@
}

/// Walls off every component but the largest, leaving a single open region.
pub fn fill_all_but_largest_component(map: &mut GameMap, components: Vec<ConnectedComponent>)
    requires
        components.len() > 0,
        forall|k: int, j: int|
            0 <= k < components.len() && 0 <= j < components[k]@.1.len() ==> #[trigger] components[k]@.1[j]
                < old(map).tiles.len(),
    ensures
        final(map).same_but_tiles(old(map)),
        exists|l: int|
            is_largest_index(components@, l) && (forall|k: int, j: int|
                0 <= k < components.len() && filled(components@, l, k) && 0 <= j
                    < components[k]@.1.len() ==> final(map).tiles[#[trigger] components[k]@.1[j]
                    as int] == TileType::Wall) && (forall|i: int|
                0 <= i < old(map).tiles.len() && (forall|k: int, j: int|
                    0 <= k < components.len() && filled(components@, l, k) && 0 <= j
                        < components[k]@.1.len() ==> #[trigger] components[k]@.1[j]
                        != i) ==> final(map).tiles[i] == old(map).tiles[i]),
{
    let l = largest_component_index(&components);
    let nc = components.len();
    let mut k: usize = 0;
    while k < nc
        invariant
            nc == components.len(),
            l < nc,
            is_largest_index(components@, l as int),
            k <= nc,
            forall|kk: int, j: int|
                0 <= kk < components.len() && 0 <= j < components[kk]@.1.len() ==> #[trigger] components[kk]@.1[j]
                    < old(map).tiles.len(),
            map.same_but_tiles(old(map)),
            forall|kk: int, j: int|
                0 <= kk < k && filled(components@, l as int, kk) && 0 <= j
                    < components[kk]@.1.len() ==> map.tiles[#[trigger] components[kk]@.1[j]
                    as int] == TileType::Wall,
            forall|i: int|
                0 <= i < old(map).tiles.len() && (forall|kk: int, j: int|
                    0 <= kk < k && filled(components@, l as int, kk) && 0 <= j
                        < components[kk]@.1.len() ==> #[trigger] components[kk]@.1[j]
                        != i) ==> map.tiles[i] == old(map).tiles[i],
        decreases nc - k,
    {
        let other = !same_component(&components[k], &components[l]);
        if other {
            let c = &components[k];
            let m = c.component.len();
            let mut j: usize = 0;
            while j < m
                invariant
                    nc == components.len(),
                    l < nc,
                    k < nc,
                    m == components[k as int]@.1.len(),
                    filled(components@, l as int, k as int),
                    j <= m,
                    forall|kk: int, jj: int|
                        0 <= kk < components.len() && 0 <= jj < components[kk]@.1.len() ==> #[trigger] components[kk]@.1[jj]
                            < old(map).tiles.len(),
                    map.same_but_tiles(old(map)),
                    forall|kk: int, jj: int|
                        (0 <= kk < k && filled(components@, l as int, kk) && 0 <= jj
                            < components[kk]@.1.len()) || (kk == k && 0 <= jj < j)
                            ==> map.tiles[#[trigger] components[kk]@.1[jj] as int]
                            == TileType::Wall,
                    forall|i: int|
                        0 <= i < old(map).tiles.len() && (forall|kk: int, jj: int|
                            (0 <= kk < k && filled(components@, l as int, kk) && 0 <= jj
                                < components[kk]@.1.len()) || (kk == k && 0 <= jj < j)
                                ==> #[trigger] components[kk]@.1[jj] != i)
                            ==> map.tiles[i] == old(map).tiles[i],
                decreases m - j,
            {
                let cidx = components[k].component[j];
                assert(components[k as int]@.1[j as int] == cidx);
                map.tiles.set(cidx, TileType::Wall);
                j = j + 1;
            }
        }
        k = k + 1;
    }
}

} // verus!
