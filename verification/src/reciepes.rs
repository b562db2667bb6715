use vstd::prelude::*;

use crate::containers::IngredientsContainer;

verus! {

/// A named drink: a display name and the amounts it consumes.
#[derive(Clone, Debug)]
pub struct Reciepes {
    pub name: String,
    pub ingredients: IngredientsContainer,
}

/// The requirement vectors of the five built-in drinks, in menu order.
pub open spec fn catalog_reqs() -> Seq<IngredientsContainer> {
    seq![
        IngredientsContainer { water: 30, coffee: 30, milk: 0, sugar: 0, cacao: 0 },
        IngredientsContainer { water: 30, coffee: 30, milk: 0, sugar: 0, cacao: 0 },
        IngredientsContainer { water: 30, coffee: 30, milk: 30, sugar: 0, cacao: 0 },
        IngredientsContainer { water: 30, coffee: 30, milk: 50, sugar: 0, cacao: 0 },
        IngredientsContainer { water: 30, coffee: 30, milk: 30, sugar: 30, cacao: 30 },
    ]
}

/// The display names of the five built-in drinks, in menu order.
pub open spec fn catalog_names() -> Seq<Seq<char>> {
    seq!["Espresso"@, "Americano"@, "Cappuccino"@, "Latte"@, "Mocha"@]
}

/// True iff `rs` is exactly the built-in catalog: five entries whose names
/// and requirements stand in the fixed menu order.
pub open spec fn is_catalog(rs: Seq<Reciepes>) -> bool {
    &&& rs.len() == 5
    &&& forall|i: int| 0 <= i < 5 ==> (#[trigger] rs[i].name)@ == catalog_names()[i]
    &&& forall|i: int| 0 <= i < 5 ==> (#[trigger] rs[i].ingredients) == catalog_reqs()[i]
}

impl Reciepes {
    /// Create a recipe from a name and a requirement vector.
    pub fn new(name: String, ingredients: IngredientsContainer) -> (r: Reciepes)
        ensures
            r.name == name,
            r.ingredients == ingredients,
    {
        Reciepes { name, ingredients }
    }

    /// The built-in catalog: the five fixed drinks in menu order.
    pub fn get_reciepes() -> (r: Vec<Reciepes>)
        ensures
            is_catalog(r@),
    {
        let mut reciepes: Vec<Reciepes> = Vec::new();
        reciepes.push(Reciepes::new(
            "Espresso".to_owned(),
            IngredientsContainer { water: 30, coffee: 30, milk: 0, sugar: 0, cacao: 0 },
        ));
        reciepes.push(Reciepes::new(
            "Americano".to_owned(),
            IngredientsContainer { water: 30, coffee: 30, milk: 0, sugar: 0, cacao: 0 },
        ));
        reciepes.push(Reciepes::new(
            "Cappuccino".to_owned(),
            IngredientsContainer { water: 30, coffee: 30, milk: 30, sugar: 0, cacao: 0 },
        ));
        reciepes.push(Reciepes::new(
            "Latte".to_owned(),
            IngredientsContainer { water: 30, coffee: 30, milk: 50, sugar: 0, cacao: 0 },
        ));
        reciepes.push(Reciepes::new(
            "Mocha".to_owned(),
            IngredientsContainer { water: 30, coffee: 30, milk: 30, sugar: 30, cacao: 30 },
        ));
        reciepes
    }
}

} // verus!
