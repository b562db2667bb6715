use vstd::prelude::*;

use crate::containers::GarbageContainer;
use crate::containers::IngredientsContainer;
use crate::containers::consumed;
use crate::containers::covers;
use crate::containers::full_inventory;
use crate::reciepes::Reciepes;
use crate::reciepes::catalog_reqs;
use crate::reciepes::is_catalog;

verus! {

/// The kiosk: live inventory, a waste ledger, and the fixed recipe catalog.
#[derive(Debug)]
pub struct CoffeeMachine {
    pub ingredients_container: IngredientsContainer,
    pub garbage_container: GarbageContainer,
    pub reciepes: Vec<Reciepes>,
}

/// What an order reports back: the drink was made, stock did not suffice,
/// or the selection addressed no catalog entry.
#[derive(Debug, PartialEq, Eq)]
pub enum OrderResult {
    Fulfilled { name: String },
    InsufficientIngredients,
    InvalidRecipe,
}

/// True iff `choice` is a one-based index into the catalog of `m`.
pub open spec fn valid_choice(m: CoffeeMachine, choice: usize) -> bool {
    1 <= choice <= m.reciepes@.len()
}

/// The requirement vector of the recipe that `choice` selects.
pub open spec fn chosen_req(m: CoffeeMachine, choice: usize) -> IngredientsContainer {
    m.reciepes@[choice - 1].ingredients
}

/// True iff `choice` selects a catalog entry whose requirements the
/// current inventory covers.
pub open spec fn order_fulfills(m: CoffeeMachine, choice: usize) -> bool {
    valid_choice(m, choice) && covers(m.ingredients_container, chosen_req(m, choice))
}

/// The result that ordering `choice` in state `m` reports.
pub open spec fn order_outcome(m: CoffeeMachine, choice: usize) -> OrderResult {
    if !valid_choice(m, choice) {
        OrderResult::InvalidRecipe
    } else if !covers(m.ingredients_container, chosen_req(m, choice)) {
        OrderResult::InsufficientIngredients
    } else {
        OrderResult::Fulfilled { name: m.reciepes@[choice - 1].name }
    }
}

/// The state after ordering `choice` in state `m`: on a fulfilled order the
/// requirements leave the inventory and the coffee share joins the garbage;
/// on a refusal, of either kind, the state is untouched.
pub open spec fn order_step(m: CoffeeMachine, choice: usize) -> CoffeeMachine {
    if order_fulfills(m, choice) {
        CoffeeMachine {
            ingredients_container: consumed(m.ingredients_container, chosen_req(m, choice)),
            garbage_container: GarbageContainer {
                coffee_grounds: (m.garbage_container.coffee_grounds
                    + chosen_req(m, choice).coffee) as u64,
            },
            reciepes: m.reciepes,
        }
    } else {
        m
    }
}

/// The state after a service: full inventory, empty garbage, same catalog.
pub open spec fn serviced(m: CoffeeMachine) -> CoffeeMachine {
    CoffeeMachine {
        ingredients_container: full_inventory(),
        garbage_container: GarbageContainer { coffee_grounds: 0 },
        reciepes: m.reciepes,
    }
}

impl CoffeeMachine {
    /// Create a machine with a full inventory, an empty garbage container,
    /// and the built-in catalog.
    pub fn new() -> (m: CoffeeMachine)
        ensures
            m.ingredients_container == full_inventory(),
            m.garbage_container.coffee_grounds == 0,
            is_catalog(m.reciepes@),
    {
        CoffeeMachine {
            ingredients_container: IngredientsContainer {
                water: 100,
                coffee: 100,
                milk: 100,
                sugar: 100,
                cacao: 100,
            },
            garbage_container: GarbageContainer { coffee_grounds: 0 },
            reciepes: Reciepes::get_reciepes(),
        }
    }

    /// True iff the current inventory covers `ingredients` in every field.
    /// Pure; mutates nothing.
    pub fn check_ingredients(&self, ingredients: &IngredientsContainer) -> (r: bool)
        ensures
            r == covers(self.ingredients_container, *ingredients),
    {
        self.ingredients_container.water >= ingredients.water
            && self.ingredients_container.coffee >= ingredients.coffee
            && self.ingredients_container.milk >= ingredients.milk
            && self.ingredients_container.sugar >= ingredients.sugar
            && self.ingredients_container.cacao >= ingredients.cacao
    }

    /// Subtract `ingredients` from the inventory and, when the coffee share
    /// is positive, add that share to the garbage container. Callers check
    /// availability first, so no field goes below zero.
    pub fn use_ingredients(&mut self, ingredients: &IngredientsContainer)
        requires
            covers(old(self).ingredients_container, *ingredients),
            old(self).garbage_container.coffee_grounds + ingredients.coffee <= u64::MAX,
        ensures
            final(self).ingredients_container == consumed(
                old(self).ingredients_container,
                *ingredients,
            ),
            final(self).garbage_container.coffee_grounds == old(
                self,
            ).garbage_container.coffee_grounds + ingredients.coffee,
            final(self).reciepes == old(self).reciepes,
    {
        self.ingredients_container.water = self.ingredients_container.water - ingredients.water;
        self.ingredients_container.coffee = self.ingredients_container.coffee - ingredients.coffee;
        self.ingredients_container.milk = self.ingredients_container.milk - ingredients.milk;
        self.ingredients_container.sugar = self.ingredients_container.sugar - ingredients.sugar;
        self.ingredients_container.cacao = self.ingredients_container.cacao - ingredients.cacao;

        if ingredients.coffee > 0 {
            self.garbage_container.coffee_grounds = self.garbage_container.coffee_grounds
                + ingredients.coffee;
        }
    }

    /// Refill every consumable to capacity and empty the garbage container,
    /// in one indivisible step. No precondition; always succeeds.
    pub fn take_service(&mut self)
        ensures
            *final(self) == serviced(*old(self)),
    {
        self.ingredients_container.water = 100;
        self.ingredients_container.coffee = 100;
        self.ingredients_container.milk = 100;
        self.ingredients_container.sugar = 100;
        self.ingredients_container.cacao = 100;
        self.garbage_container.coffee_grounds = 0;
    }

    /// Order the drink that the one-based `choice` selects. The order either
    /// fully completes or is fully refused: availability is checked before
    /// any field changes, and a refusal of either kind mutates nothing.
    pub fn order(&mut self, choice: usize) -> (r: OrderResult)
        requires
            order_fulfills(*old(self), choice) ==> old(self).garbage_container.coffee_grounds
                + chosen_req(*old(self), choice).coffee <= u64::MAX,
        ensures
            r == order_outcome(*old(self), choice),
            *final(self) == order_step(*old(self), choice),
    {
        if choice < 1 || choice > self.reciepes.len() {
            return OrderResult::InvalidRecipe;
        }
        let required = self.reciepes[choice - 1].ingredients;
        if !self.check_ingredients(&required) {
            return OrderResult::InsufficientIngredients;
        }
        self.use_ingredients(&required);
        let name = self.reciepes[choice - 1].name.clone();
        OrderResult::Fulfilled { name }
    }

    /// A read-only snapshot of the live inventory.
    pub fn inspect_inventory(&self) -> (r: IngredientsContainer)
        ensures
            r == self.ingredients_container,
    {
        self.ingredients_container
    }

    /// A read-only snapshot of the garbage container.
    pub fn inspect_waste(&self) -> (r: GarbageContainer)
        ensures
            r == self.garbage_container,
    {
        self.garbage_container
    }
}

/// Atomic refusal: when the selection is valid but the stock falls short of
/// the requirement in some field, an order reports the insufficiency and
/// leaves inventory and garbage exactly as they were.
pub proof fn lemma_atomic_refusal(m: CoffeeMachine, choice: usize)
    requires
        valid_choice(m, choice),
        !covers(m.ingredients_container, chosen_req(m, choice)),
    ensures
        order_outcome(m, choice) == OrderResult::InsufficientIngredients,
        order_step(m, choice) == m,
{
}

/// Invalid selection: an index that addresses no catalog entry is reported
/// as such and mutates nothing.
pub proof fn lemma_invalid_selection(m: CoffeeMachine, choice: usize)
    requires
        !valid_choice(m, choice),
    ensures
        order_outcome(m, choice) == OrderResult::InvalidRecipe,
        order_step(m, choice) == m,
{
}

/// Waste asymmetry: a fulfilled order of a recipe that needs no coffee
/// consumes its other ingredients but leaves the garbage container
/// unchanged.
pub proof fn lemma_waste_asymmetry(m: CoffeeMachine, choice: usize)
    requires
        order_fulfills(m, choice),
        chosen_req(m, choice).coffee == 0,
    ensures
        order_step(m, choice).garbage_container == m.garbage_container,
{
}

/// Idempotent service: servicing a machine twice ends in the same state as
/// servicing it once.
pub proof fn lemma_service_idempotent(m: CoffeeMachine)
    ensures
        serviced(serviced(m)) == serviced(m),
{
}

/// A service lands in the same state whatever inventory and garbage held
/// beforehand: only the catalog carries over.
pub proof fn lemma_service_uniform(m1: CoffeeMachine, m2: CoffeeMachine)
    requires
        m1.reciepes == m2.reciepes,
    ensures
        serviced(m1) == serviced(m2),
{
}

/// Repeated depletion, refusal half: an order refused for lack of stock
/// leaves the machine unchanged, so the same selection keeps being refused
/// until something else, such as a service, changes the state.
pub proof fn lemma_refusal_persists(m: CoffeeMachine, choice: usize)
    requires
        valid_choice(m, choice),
        order_outcome(m, choice) == OrderResult::InsufficientIngredients,
    ensures
        order_step(m, choice) == m,
        order_outcome(order_step(m, choice), choice) == OrderResult::InsufficientIngredients,
{
}

/// Repeated depletion, recovery half: after a service, every selection from
/// the built-in catalog is available again.
pub proof fn lemma_service_restores(m: CoffeeMachine, choice: usize)
    requires
        is_catalog(m.reciepes@),
        valid_choice(m, choice),
    ensures
        order_fulfills(serviced(m), choice),
{
    assert(chosen_req(serviced(m), choice) == catalog_reqs()[choice - 1]);
}

/// The garbage container never shrinks between services: an order either
/// leaves it unchanged or adds the coffee share of the fulfilled recipe.
pub proof fn lemma_waste_monotone(m: CoffeeMachine, choice: usize)
    requires
        order_fulfills(m, choice) ==> m.garbage_container.coffee_grounds + chosen_req(
            m,
            choice,
        ).coffee <= u64::MAX,
    ensures
        order_step(m, choice).garbage_container.coffee_grounds
            >= m.garbage_container.coffee_grounds,
{
}

} // verus!
