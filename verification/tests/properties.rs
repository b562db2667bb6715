use rusty_coffeemachine::CoffeeMachine;
use rusty_coffeemachine::IngredientsContainer;
use rusty_coffeemachine::OrderResult;

#[test]
fn test_initial_catalog_order() {
    let machine = CoffeeMachine::new();
    assert_eq!(machine.reciepes.len(), 5);
    assert_eq!(machine.reciepes[0].name, "Espresso");
    assert_eq!(machine.reciepes[1].name, "Americano");
    assert_eq!(machine.reciepes[2].name, "Cappuccino");
    assert_eq!(machine.reciepes[3].name, "Latte");
    assert_eq!(machine.reciepes[4].name, "Mocha");
    assert_eq!(
        machine.reciepes[3].ingredients,
        IngredientsContainer {
            water: 30,
            coffee: 30,
            milk: 50,
            sugar: 0,
            cacao: 0,
        }
    );
    assert_eq!(
        machine.reciepes[4].ingredients,
        IngredientsContainer {
            water: 30,
            coffee: 30,
            milk: 30,
            sugar: 30,
            cacao: 30,
        }
    );
}

#[test]
fn test_exact_consumption() {
    let mut machine = CoffeeMachine::new();
    let result = machine.order(1);
    assert_eq!(
        result,
        OrderResult::Fulfilled {
            name: "Espresso".to_string()
        }
    );
    assert_eq!(
        machine.inspect_inventory(),
        IngredientsContainer {
            water: 70,
            coffee: 70,
            milk: 100,
            sugar: 100,
            cacao: 100,
        }
    );
    assert_eq!(machine.inspect_waste().coffee_grounds, 30);
}

#[test]
fn test_mocha_consumes_every_field() {
    let mut machine = CoffeeMachine::new();
    let result = machine.order(5);
    assert_eq!(
        result,
        OrderResult::Fulfilled {
            name: "Mocha".to_string()
        }
    );
    assert_eq!(
        machine.inspect_inventory(),
        IngredientsContainer {
            water: 70,
            coffee: 70,
            milk: 70,
            sugar: 70,
            cacao: 70,
        }
    );
    assert_eq!(machine.inspect_waste().coffee_grounds, 30);
}

#[test]
fn test_atomic_refusal() {
    let mut machine = CoffeeMachine::new();
    machine.ingredients_container.water = 10;
    let before_inventory = machine.inspect_inventory();
    let before_waste = machine.inspect_waste();
    let result = machine.order(1);
    assert_eq!(result, OrderResult::InsufficientIngredients);
    assert_eq!(machine.inspect_inventory(), before_inventory);
    assert_eq!(machine.inspect_waste(), before_waste);
}

#[test]
fn test_waste_asymmetry() {
    let mut machine = CoffeeMachine::new();
    let coffeeless = IngredientsContainer {
        water: 30,
        coffee: 0,
        milk: 0,
        sugar: 0,
        cacao: 0,
    };
    machine.use_ingredients(&coffeeless);
    assert_eq!(machine.inspect_waste().coffee_grounds, 0);
    assert_eq!(machine.ingredients_container.water, 70);
    assert_eq!(machine.ingredients_container.coffee, 100);
}

#[test]
fn test_idempotent_service() {
    let mut machine = CoffeeMachine::new();
    let result = machine.order(4);
    assert!(matches!(result, OrderResult::Fulfilled { .. }));
    machine.take_service();
    let once_inventory = machine.inspect_inventory();
    let once_waste = machine.inspect_waste();
    machine.take_service();
    assert_eq!(machine.inspect_inventory(), once_inventory);
    assert_eq!(machine.inspect_waste(), once_waste);
    assert_eq!(
        machine.inspect_inventory(),
        IngredientsContainer {
            water: 100,
            coffee: 100,
            milk: 100,
            sugar: 100,
            cacao: 100,
        }
    );
    assert_eq!(machine.inspect_waste().coffee_grounds, 0);
}

#[test]
fn test_invalid_selection() {
    let mut machine = CoffeeMachine::new();
    let before_inventory = machine.inspect_inventory();
    let result_zero = machine.order(0);
    assert_eq!(result_zero, OrderResult::InvalidRecipe);
    let result_past_end = machine.order(6);
    assert_eq!(result_past_end, OrderResult::InvalidRecipe);
    assert_eq!(machine.inspect_inventory(), before_inventory);
    assert_eq!(machine.inspect_waste().coffee_grounds, 0);
}

#[test]
fn test_repeated_depletion() {
    let mut machine = CoffeeMachine::new();
    for _ in 0..3 {
        let result = machine.order(1);
        assert!(matches!(result, OrderResult::Fulfilled { .. }));
    }
    assert_eq!(machine.ingredients_container.water, 10);
    assert_eq!(machine.ingredients_container.coffee, 10);
    assert_eq!(machine.inspect_waste().coffee_grounds, 90);
    assert_eq!(machine.order(1), OrderResult::InsufficientIngredients);
    assert_eq!(machine.order(1), OrderResult::InsufficientIngredients);
    assert_eq!(machine.ingredients_container.water, 10);
    machine.take_service();
    let result = machine.order(1);
    assert_eq!(
        result,
        OrderResult::Fulfilled {
            name: "Espresso".to_string()
        }
    );
    assert_eq!(machine.ingredients_container.water, 70);
}
