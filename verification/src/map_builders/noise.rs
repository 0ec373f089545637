use vstd::prelude::*;
use rltk::RandomNumberGenerator;
use crate::rng::roll_dice;

verus! {

//----------------------------------------------------------------------------
// Random choices of terrain geometry for a new floor.
//----------------------------------------------------------------------------

#[derive(PartialEq, Eq, Structural, Copy, Clone, Debug)]
pub enum WaterGeometry {
    NoWater,
    LargeLakes,
    SmallLakes,
}

/// The water geometry a d3 roll selects.
pub open spec fn water_geometry_for(roll: int) -> WaterGeometry {
    if roll == 1 {
        WaterGeometry::NoWater
    } else if roll == 2 {
        WaterGeometry::LargeLakes
    } else {
        WaterGeometry::SmallLakes
    }
}

impl WaterGeometry {
    /// Rolls a d3: no water, large lakes, or small lakes.
    pub fn random(rng: &mut RandomNumberGenerator) -> (g: WaterGeometry)
        ensures
            exists|roll: int| 1 <= roll <= 3 && g == #[trigger] water_geometry_for(roll),
    {
        let roll = roll_dice(rng, 1, 3);
        let g = WaterGeometry::for_roll(roll);
        assert(g == water_geometry_for(roll as int));
        g
    }

    /// The water geometry the d3 roll `roll` selects.
    pub fn for_roll(roll: i32) -> (g: WaterGeometry)
        ensures
            g == water_geometry_for(roll as int),
    {
        if roll == 1 {
            WaterGeometry::NoWater
        } else if roll == 2 {
            WaterGeometry::LargeLakes
        } else {
            WaterGeometry::SmallLakes
        }
    }
}

#[derive(PartialEq, Eq, Structural, Copy, Clone, Debug)]
pub enum GrassGeometry {
    NoGrass,
    OnlyShort,
    SporadicTall,
    GroveTall,
}

/// The grass geometry a d3 roll selects (never `NoGrass`).
pub open spec fn grass_geometry_for(roll: int) -> GrassGeometry {
    if roll == 1 {
        GrassGeometry::OnlyShort
    } else if roll == 2 {
        GrassGeometry::SporadicTall
    } else {
        GrassGeometry::GroveTall
    }
}

impl GrassGeometry {
    /// Rolls a d3: only short grass, sporadic tall grass, or groves of tall
    /// grass.
    pub fn random(rng: &mut RandomNumberGenerator) -> (g: GrassGeometry)
        ensures
            exists|roll: int| 1 <= roll <= 3 && g == #[trigger] grass_geometry_for(roll),
    {
        let roll = roll_dice(rng, 1, 3);
        let g = GrassGeometry::for_roll(roll);
        assert(g == grass_geometry_for(roll as int));
        g
    }

    /// The grass geometry the d3 roll `roll` selects.
    pub fn for_roll(roll: i32) -> (g: GrassGeometry)
        ensures
            g == grass_geometry_for(roll as int),
    {
        if roll == 1 {
            GrassGeometry::OnlyShort
        } else if roll == 2 {
            GrassGeometry::SporadicTall
        } else {
            GrassGeometry::GroveTall
        }
    }
}

#[derive(PartialEq, Eq, Structural, Copy, Clone, Debug)]
pub enum StatueGeometry {
    NoStatues,
    SomeStatues,
}

/// The statue geometry a d2 roll selects.
pub open spec fn statue_geometry_for(roll: int) -> StatueGeometry {
    if roll == 1 {
        StatueGeometry::NoStatues
    } else {
        StatueGeometry::SomeStatues
    }
}

impl StatueGeometry {
    /// Rolls a d2: no statues, or some.
    pub fn random(rng: &mut RandomNumberGenerator) -> (g: StatueGeometry)
        ensures
            exists|roll: int| 1 <= roll <= 2 && g == #[trigger] statue_geometry_for(roll),
    {
        let roll = roll_dice(rng, 1, 2);
        let g = StatueGeometry::for_roll(roll);
        assert(g == statue_geometry_for(roll as int));
        g
    }

    /// The statue geometry the d2 roll `roll` selects.
    pub fn for_roll(roll: i32) -> (g: StatueGeometry)
        ensures
            g == statue_geometry_for(roll as int),
    {
        if roll == 1 {
            StatueGeometry::NoStatues
        } else {
            StatueGeometry::SomeStatues
        }
    }
}

#[derive(PartialEq, Eq, Structural, Copy, Clone, Debug)]
pub struct StatueSpawnData {
    pub x: i32,
    pub y: i32,
}

} // verus!
