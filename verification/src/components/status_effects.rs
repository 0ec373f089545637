use vstd::prelude::*;
use crate::gamelog::GameLog;

verus! {

//------------------------------------------------------------------
// Status effects.
//
// A status effect lasts for a number of turns and is ticked once a turn.
// An entity holds at most one status of each kind: its slot for that kind is
// `None` when the status is absent. The generic functions below create and
// tick the status in one such slot:
//
//   - new_status and tick_status are the basic forms;
//   - new_status_with_immunity and tick_status_with_immunity also take whether
//     the entity is immune to the status;
//   - new_combat_stats_status only applies a status to an entity that can
//     fight (one with combat stats).
//------------------------------------------------------------------

/// A status that lasts for some turns and may be drawn over its entity.
pub trait StatusEffect: Sized {
    spec fn turns_spec(&self) -> i32;

    spec fn render_spec(&self) -> bool;

    fn new(turns: i32, render_glyph: bool) -> (s: Self)
        ensures
            s.turns_spec() == turns,
            s.render_spec() == render_glyph,
    ;

    fn remaining_turns(&self) -> (t: i32)
        ensures
            t == self.turns_spec(),
    ;

    fn set_remaining_turns(&mut self, turns: i32)
        ensures
            final(self).turns_spec() == turns,
            final(self).render_spec() == old(self).render_spec(),
    ;

    fn do_render(&self) -> (r: bool)
        ensures
            r == self.render_spec(),
    ;
}

/// What a slot holds after a status for `turns` turns is applied to it: a
/// status already there is only ever lengthened, never shortened.
pub open spec fn applied_turns(current: Option<int>, turns: int) -> int {
    match current {
        Some(t) => if t >= turns { t } else { turns },
        None => turns,
    }
}

/// The remaining turns of a status after one tick, or `None` when the tick
/// removes it (no turns were left).
pub open spec fn tick_turns(turns: int) -> Option<int> {
    if turns <= 0 {
        None
    } else {
        Some(turns - 1)
    }
}

/// The remaining turns after `k` ticks (with no immunity), `None` once removed.
pub open spec fn turns_after_ticks(turns: int, k: nat) -> Option<int>
    decreases k,
{
    if k == 0 {
        Some(turns)
    } else {
        match tick_turns(turns) {
            Some(t) => turns_after_ticks(t, (k - 1) as nat),
            None => None,
        }
    }
}

/// The remaining turns of the status in a slot, `None` when it is empty.
pub open spec fn slot_turns<S: StatusEffect>(slot: Option<S>) -> Option<int> {
    match slot {
        Some(s) => Some(s.turns_spec() as int),
        None => None,
    }
}

/// Sets or lengthens the status in `slot` to last `turns` turns. Returns
/// whether a new status was created.
pub fn new_status<S: StatusEffect>(slot: &mut Option<S>, turns: i32, render_glyph: bool) -> (created: bool)
    ensures
        created == old(slot).is_none(),
        final(slot).is_some(),
        final(slot).unwrap().turns_spec() == applied_turns(slot_turns(*old(slot)), turns as int),
        old(slot).is_some() ==> final(slot).unwrap().render_spec() == old(slot).unwrap().render_spec(),
        old(slot).is_none() ==> final(slot).unwrap().render_spec() == render_glyph,
{
    match slot.take() {
        Some(mut status) => {
            let current = status.remaining_turns();
            let longest = if current >= turns { current } else { turns };
            status.set_remaining_turns(longest);
            *slot = Some(status);
            false
        },
        None => {
            *slot = Some(S::new(turns, render_glyph));
            true
        },
    }
}

/// As `new_status`, except that an entity that is immune, and does not have
/// the status yet, does not get it.
pub fn new_status_with_immunity<S: StatusEffect>(
    slot: &mut Option<S>,
    is_immune: bool,
    turns: i32,
    render_glyph: bool,
) -> (created: bool)
    ensures
        created == (old(slot).is_none() && !is_immune),
        old(slot).is_none() && is_immune ==> final(slot).is_none(),
        old(slot).is_some() || !is_immune ==> final(slot).is_some()
            && final(slot).unwrap().turns_spec() == applied_turns(slot_turns(*old(slot)), turns as int),
        old(slot).is_some() ==> final(slot).unwrap().render_spec() == old(slot).unwrap().render_spec(),
        old(slot).is_none() && !is_immune ==> final(slot).unwrap().render_spec() == render_glyph,
{
    if slot.is_none() && is_immune {
        false
    } else {
        new_status(slot, turns, render_glyph)
    }
}

/// As `new_status`, except that only an entity with combat stats can get a
/// new status.
pub fn new_combat_stats_status<S: StatusEffect>(
    slot: &mut Option<S>,
    has_combat_stats: bool,
    turns: i32,
    render_glyph: bool,
) -> (created: bool)
    ensures
        created == (old(slot).is_none() && has_combat_stats),
        old(slot).is_none() && !has_combat_stats ==> final(slot).is_none(),
        old(slot).is_some() || has_combat_stats ==> final(slot).is_some()
            && final(slot).unwrap().turns_spec() == applied_turns(slot_turns(*old(slot)), turns as int),
        old(slot).is_some() ==> final(slot).unwrap().render_spec() == old(slot).unwrap().render_spec(),
        old(slot).is_none() && has_combat_stats ==> final(slot).unwrap().render_spec() == render_glyph,
{
    new_status_with_immunity(slot, !has_combat_stats, turns, render_glyph)
}

/// Ticks the status in `slot`: one turn passes, and a status with no turns
/// left is removed, with `msg` (if any) written to the log.
pub fn tick_status<S: StatusEffect>(slot: &mut Option<S>, log: &mut GameLog, msg: Option<String>)
    ensures
        slot_turns(*final(slot)) == match slot_turns(*old(slot)) {
            Some(t) => tick_turns(t),
            None => None,
        },
        final(slot).is_some() ==> final(slot).unwrap().render_spec() == old(slot).unwrap().render_spec(),
        old(slot).is_some() && final(slot).is_none() && msg.is_some() ==> final(log).entries@
            == old(log).entries@.push(msg.unwrap()),
        !(old(slot).is_some() && final(slot).is_none() && msg.is_some()) ==> final(log).entries@
            == old(log).entries@,
{
    tick_status_with_immunity(slot, false, log, msg)
}

/// As `tick_status`, except that an entity that has become immune to the
/// status loses it at once.
pub fn tick_status_with_immunity<S: StatusEffect>(
    slot: &mut Option<S>,
    is_immune: bool,
    log: &mut GameLog,
    msg: Option<String>,
)
    ensures
        slot_turns(*final(slot)) == match slot_turns(*old(slot)) {
            Some(t) => if is_immune { None } else { tick_turns(t) },
            None => None,
        },
        final(slot).is_some() ==> final(slot).unwrap().render_spec() == old(slot).unwrap().render_spec(),
        old(slot).is_some() && final(slot).is_none() && msg.is_some() ==> final(log).entries@
            == old(log).entries@.push(msg.unwrap()),
        !(old(slot).is_some() && final(slot).is_none() && msg.is_some()) ==> final(log).entries@
            == old(log).entries@,
{
    match slot.take() {
        Some(mut status) => {
            let turns = status.remaining_turns();
            if turns <= 0 || is_immune {
                match msg {
                    Some(m) => log.push(m),
                    None => {},
                }
            } else {
                status.set_remaining_turns(turns - 1);
                *slot = Some(status);
            }
        },
        None => {},
    }
}

/// Removes the status in `slot`, if any.
pub fn remove_status<S: StatusEffect>(slot: &mut Option<S>)
    ensures
        final(slot).is_none(),
{
    *slot = None;
}

/// A status applied for `turns >= 0` turns, and never refreshed or resisted,
/// is still there after each of the next `turns` ticks (with one turn fewer
/// left each time), and the tick after those removes it.
pub proof fn lemma_status_duration(turns: int, k: nat)
    requires
        turns >= 0,
    ensures
        k <= turns ==> turns_after_ticks(turns, k) == Some(turns - k),
        k == turns + 1 ==> turns_after_ticks(turns, k) is None,
    decreases k,
{
    if k > 0 {
        if turns > 0 {
            lemma_status_duration(turns - 1, (k - 1) as nat);
        }
    }
}

/// Damage a burning entity takes each turn.
pub const BURNING_TICK_DAMAGE: i32 = 3;

/// The entity is frozen: it cannot act until the status expires or is removed.
#[derive(Copy, Clone)]
pub struct StatusIsFrozen {
    pub remaining_turns: i32,
    pub render_glyph: bool,
}

/// The entity is burning, and takes a little damage each turn.
#[derive(Copy, Clone)]
pub struct StatusIsBurning {
    pub remaining_turns: i32,
    pub render_glyph: bool,
}

/// The entity's melee attacks do double damage.
#[derive(Copy, Clone)]
pub struct StatusIsMeleeAttackBuffed {
    pub remaining_turns: i32,
    pub render_glyph: bool,
}

/// The physical damage the entity takes is halved.
#[derive(Copy, Clone)]
pub struct StatusIsPhysicalDefenseBuffed {
    pub remaining_turns: i32,
    pub render_glyph: bool,
}

/// The entity takes no damage from fire.
#[derive(Copy, Clone)]
pub struct StatusIsImmuneToFire {
    pub remaining_turns: i32,
    pub render_glyph: bool,
}

/// The entity takes no damage from chill.
#[derive(Copy, Clone)]
pub struct StatusIsImmuneToChill {
    pub remaining_turns: i32,
    pub render_glyph: bool,
}

impl StatusEffect for StatusIsFrozen {
    open spec fn turns_spec(&self) -> i32 {
        self.remaining_turns
    }

    open spec fn render_spec(&self) -> bool {
        self.render_glyph
    }

    fn new(turns: i32, render_glyph: bool) -> (s: Self) {
        StatusIsFrozen { remaining_turns: turns, render_glyph }
    }

    fn remaining_turns(&self) -> (t: i32) {
        self.remaining_turns
    }

    fn set_remaining_turns(&mut self, turns: i32) {
        self.remaining_turns = turns;
    }

    fn do_render(&self) -> (r: bool) {
        self.render_glyph
    }
}

impl StatusEffect for StatusIsBurning {
    open spec fn turns_spec(&self) -> i32 {
        self.remaining_turns
    }

    open spec fn render_spec(&self) -> bool {
        self.render_glyph
    }

    fn new(turns: i32, render_glyph: bool) -> (s: Self) {
        StatusIsBurning { remaining_turns: turns, render_glyph }
    }

    fn remaining_turns(&self) -> (t: i32) {
        self.remaining_turns
    }

    fn set_remaining_turns(&mut self, turns: i32) {
        self.remaining_turns = turns;
    }

    fn do_render(&self) -> (r: bool) {
        self.render_glyph
    }
}

impl StatusEffect for StatusIsMeleeAttackBuffed {
    open spec fn turns_spec(&self) -> i32 {
        self.remaining_turns
    }

    open spec fn render_spec(&self) -> bool {
        self.render_glyph
    }

    fn new(turns: i32, render_glyph: bool) -> (s: Self) {
        StatusIsMeleeAttackBuffed { remaining_turns: turns, render_glyph }
    }

    fn remaining_turns(&self) -> (t: i32) {
        self.remaining_turns
    }

    fn set_remaining_turns(&mut self, turns: i32) {
        self.remaining_turns = turns;
    }

    fn do_render(&self) -> (r: bool) {
        self.render_glyph
    }
}

impl StatusEffect for StatusIsPhysicalDefenseBuffed {
    open spec fn turns_spec(&self) -> i32 {
        self.remaining_turns
    }

    open spec fn render_spec(&self) -> bool {
        self.render_glyph
    }

    fn new(turns: i32, render_glyph: bool) -> (s: Self) {
        StatusIsPhysicalDefenseBuffed { remaining_turns: turns, render_glyph }
    }

    fn remaining_turns(&self) -> (t: i32) {
        self.remaining_turns
    }

    fn set_remaining_turns(&mut self, turns: i32) {
        self.remaining_turns = turns;
    }

    fn do_render(&self) -> (r: bool) {
        self.render_glyph
    }
}

impl StatusEffect for StatusIsImmuneToFire {
    open spec fn turns_spec(&self) -> i32 {
        self.remaining_turns
    }

    open spec fn render_spec(&self) -> bool {
        self.render_glyph
    }

    fn new(turns: i32, render_glyph: bool) -> (s: Self) {
        StatusIsImmuneToFire { remaining_turns: turns, render_glyph }
    }

    fn remaining_turns(&self) -> (t: i32) {
        self.remaining_turns
    }

    fn set_remaining_turns(&mut self, turns: i32) {
        self.remaining_turns = turns;
    }

    fn do_render(&self) -> (r: bool) {
        self.render_glyph
    }
}

impl StatusEffect for StatusIsImmuneToChill {
    open spec fn turns_spec(&self) -> i32 {
        self.remaining_turns
    }

    open spec fn render_spec(&self) -> bool {
        self.render_glyph
    }

    fn new(turns: i32, render_glyph: bool) -> (s: Self) {
        StatusIsImmuneToChill { remaining_turns: turns, render_glyph }
    }

    fn remaining_turns(&self) -> (t: i32) {
        self.remaining_turns
    }

    fn set_remaining_turns(&mut self, turns: i32) {
        self.remaining_turns = turns;
    }

    fn do_render(&self) -> (r: bool) {
        self.render_glyph
    }
}

} // verus!
