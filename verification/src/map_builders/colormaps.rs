use vstd::prelude::*;

verus! {

/// The colormap an entity's foreground color is looked up in.
#[derive(PartialEq, Eq, Structural, Copy, Clone, Debug)]
pub enum FgColorMap {
    NoColorMap,
    ShortGrass,
    LongGrass,
    ShallowWater,
    DeepWater,
    Fire,
    Chill,
    Steam,
    Blood,
}

/// The colormap an entity's background color is looked up in.
#[derive(PartialEq, Eq, Structural, Copy, Clone, Debug)]
pub enum BgColorMap {
    NoColorMap,
    ShallowWater,
    DeepWater,
    Fire,
    Chill,
    Blood,
}

} // verus!
