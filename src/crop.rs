use vstd::prelude::*;

verus! {

/// The stage a crop has reached, from sowing to harvest.
#[derive(Clone, Copy, Debug, PartialEq, Eq, Structural)]
pub enum GrowthStage {
    Planting,
    Germination,
    Vegetative,
    Flowering,
    Fruiting,
    Ripening,
    Harvesting,
}

} // verus!
