use vstd::prelude::*;

verus! {

/// Amounts of the five consumables, in whole units. A value of this type
/// serves both as the machine's live inventory and as a recipe's
/// requirement vector.
#[derive(Clone, Copy, Debug, PartialEq, Eq, Structural)]
pub struct IngredientsContainer {
    pub water: u64,
    pub coffee: u64,
    pub milk: u64,
    pub sugar: u64,
    pub cacao: u64,
}

/// Accumulated spent-coffee-grounds mass since the last service.
#[derive(Clone, Copy, Debug, PartialEq, Eq, Structural)]
pub struct GarbageContainer {
    pub coffee_grounds: u64,
}

/// True iff `have` covers `need` in every one of the five fields.
pub open spec fn covers(have: IngredientsContainer, need: IngredientsContainer) -> bool {
    &&& have.water >= need.water
    &&& have.coffee >= need.coffee
    &&& have.milk >= need.milk
    &&& have.sugar >= need.sugar
    &&& have.cacao >= need.cacao
}

/// The inventory left after consuming `need` out of `have`; meaningful
/// when `covers(have, need)` holds.
pub open spec fn consumed(have: IngredientsContainer, need: IngredientsContainer) -> IngredientsContainer {
    IngredientsContainer {
        water: (have.water - need.water) as u64,
        coffee: (have.coffee - need.coffee) as u64,
        milk: (have.milk - need.milk) as u64,
        sugar: (have.sugar - need.sugar) as u64,
        cacao: (have.cacao - need.cacao) as u64,
    }
}

/// A full inventory: the capacity of each consumable.
pub open spec fn full_inventory() -> IngredientsContainer {
    IngredientsContainer { water: 100, coffee: 100, milk: 100, sugar: 100, cacao: 100 }
}

} // verus!
