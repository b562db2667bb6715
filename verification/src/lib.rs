pub mod coffeemachine;
pub mod containers;
pub mod reciepes;

pub use coffeemachine::CoffeeMachine;
pub use coffeemachine::OrderResult;
pub use containers::GarbageContainer;
pub use containers::IngredientsContainer;
pub use reciepes::Reciepes;
