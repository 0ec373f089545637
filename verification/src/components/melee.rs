use vstd::prelude::*;
use specs::Entity;

verus! {

/// Component holding the combat statistics of an entity.
#[derive(PartialEq, Eq, Structural, Copy, Clone, Debug)]
pub struct CombatStats {
    // Health.
    pub max_hp: i32,
    pub hp: i32,
    // Raw melee stats.
    pub defense: i32,
    pub power: i32,
}

pub open spec fn max_int(a: int, b: int) -> int {
    if a >= b { a } else { b }
}

pub open spec fn min_int(a: int, b: int) -> int {
    if a <= b { a } else { b }
}

impl CombatStats {
    /// Loses `damage` hit points, never dropping below zero.
    pub fn take_damage(&mut self, damage: i32)
        requires
            i32::MIN <= old(self).hp - damage <= i32::MAX,
        ensures
            *final(self) == (CombatStats { hp: max_int(0, old(self).hp - damage) as i32, ..*old(self) }),
    {
        self.hp = if self.hp - damage > 0 { self.hp - damage } else { 0 }
    }

    /// Restores hit points to the maximum.
    pub fn full_heal(&mut self)
        ensures
            *final(self) == (CombatStats { hp: old(self).max_hp, ..*old(self) }),
    {
        self.hp = self.max_hp
    }

    /// Gains `amount` hit points, never rising above the maximum.
    pub fn heal_amount(&mut self, amount: i32)
        requires
            i32::MIN <= old(self).hp + amount <= i32::MAX,
        ensures
            *final(self) == (CombatStats {
                hp: min_int(old(self).max_hp as int, old(self).hp + amount) as i32,
                ..*old(self)
            }),
    {
        self.hp = if self.max_hp < self.hp + amount { self.max_hp } else { self.hp + amount }
    }

    /// Raises the maximum hit points by `amount`.
    pub fn increase_max_hp(&mut self, amount: i32)
        requires
            i32::MIN <= old(self).max_hp + amount <= i32::MAX,
        ensures
            *final(self) == (CombatStats { max_hp: (old(self).max_hp + amount) as i32, ..*old(self) }),
    {
        self.max_hp += amount;
    }
}

#[derive(Copy, Clone)]
pub struct MeeleAttackRequest {
    pub source: Entity,
    pub target: Entity,
    pub critical: bool,
}

/// A buffer for storing entity attack requests; requests are served last in,
/// first out.
pub struct MeeleAttackRequestBuffer {
    requests: Vec<MeeleAttackRequest>,
}

impl View for MeeleAttackRequestBuffer {
    type V = Seq<MeeleAttackRequest>;

    closed spec fn view(&self) -> Seq<MeeleAttackRequest> {
        self.requests@
    }
}

impl MeeleAttackRequestBuffer {
    pub fn new() -> (b: MeeleAttackRequestBuffer)
        ensures
            b@ == Seq::<MeeleAttackRequest>::empty(),
    {
        MeeleAttackRequestBuffer { requests: Vec::new() }
    }

    pub fn request(&mut self, request: MeeleAttackRequest)
        ensures
            final(self)@ == old(self)@.push(request),
    {
        self.requests.push(request)
    }

    /// Requests an attack by `source` on each of `targets`, in order.
    pub fn request_many(&mut self, source: Entity, targets: &Vec<Entity>, critical: bool)
        ensures
            final(self)@ == old(self)@ + targets@.map_values(
                |t: Entity| MeeleAttackRequest { source, target: t, critical },
            ),
    {
        let mut i: usize = 0;
        while i < targets.len()
            invariant
                i <= targets.len(),
                self@ == old(self)@ + targets@.take(i as int).map_values(
                    |t: Entity| MeeleAttackRequest { source, target: t, critical },
                ),
            decreases targets.len() - i,
        {
            let target = targets[i];
            self.request(MeeleAttackRequest { source, target, critical });
            i = i + 1;
            assert(targets@.take(i as int).map_values(
                |t: Entity| MeeleAttackRequest { source, target: t, critical },
            ) =~= targets@.take(i - 1).map_values(
                |t: Entity| MeeleAttackRequest { source, target: t, critical },
            ).push(MeeleAttackRequest { source, target, critical }));
        }
        assert(targets@.take(targets.len() as int) =~= targets@);
    }

    pub fn is_empty(&mut self) -> (b: bool)
        ensures
            final(self)@ == old(self)@,
            b == (old(self)@.len() == 0),
    {
        self.requests.len() == 0
    }

    /// Takes the most recent request.
    pub fn pop(&mut self) -> (r: Option<MeeleAttackRequest>)
        ensures
            old(self)@.len() == 0 ==> r is None && final(self)@ == old(self)@,
            old(self)@.len() > 0 ==> r == Some(old(self)@.last()) && final(self)@ == old(
                self,
            )@.drop_last(),
    {
        self.requests.pop()
    }
}

#[derive(PartialEq, Eq, Structural, Copy, Clone, Debug)]
pub enum MeeleAttackFormation {
    Basic,
    Dash,
}

// Component for effects that grant a melee attack bonus.
#[derive(PartialEq, Eq, Structural, Copy, Clone, Debug)]
pub struct MeeleAttackWepon {
    pub bonus: i32,
    pub formation: MeeleAttackFormation,
}

#[derive(PartialEq, Eq, Structural, Copy, Clone, Debug)]
pub enum WeaponSpecialKind {
    Dash,
    SpinAttack,
    ThrowWithoutExpending,
}

/// A weapon's special move, available again once `time` has counted up to
/// `regen_time`.
#[derive(PartialEq, Eq, Structural, Copy, Clone, Debug)]
pub struct WeaponSpecial {
    pub regen_time: i32,
    pub time: i32,
    pub kind: WeaponSpecialKind,
}

impl WeaponSpecial {
    /// Advances the recharge by one turn; returns whether this tick completed
    /// the recharge. A charged special stays as it is.
    pub fn tick(&mut self) -> (recharged: bool)
        requires
            old(self).time < i32::MAX || old(self).time == old(self).regen_time,
        ensures
            old(self).time == old(self).regen_time ==> !recharged && *final(self) == *old(self),
            old(self).time != old(self).regen_time ==> {
                &&& *final(self) == (WeaponSpecial {
                    time: min_int(old(self).time + 1, old(self).regen_time as int) as i32,
                    ..*old(self)
                })
                &&& recharged == (final(self).time == final(self).regen_time)
            },
    {
        if self.time == self.regen_time {
            return false;
        }
        self.time = if self.time + 1 < self.regen_time { self.time + 1 } else { self.regen_time };
        return self.time == self.regen_time;
    }

    pub fn is_charged(&self) -> (b: bool)
        ensures
            b == (self.time == self.regen_time),
    {
        return self.time == self.regen_time;
    }

    /// Uses up the special: the recharge starts over.
    pub fn expend(&mut self)
        ensures
            *final(self) == (WeaponSpecial { time: 0, ..*old(self) }),
    {
        self.time = 0;
    }
}

} // verus!
