//! Cost-composition decorators: wrap a priced item and add a fixed
//! surcharge. Prices are held in minor currency units (pence), so the
//! purely additive composition is exact.

use vstd::prelude::*;

verus! {

/// A priced item. `cost_total` is the mathematical price; `cost_in_budget`
/// says that the price fits the machine word `get_cost` returns it in.
pub trait Pizza {
    /// The price of this item, in pence.
    spec fn cost_total(&self) -> int;

    /// Whether the price of this item fits in a `u64`.
    spec fn cost_in_budget(&self) -> bool;

    /// The price of this item, in pence.
    fn get_cost(&self) -> (c: u64)
        requires
            self.cost_in_budget(),
        ensures
            c == self.cost_total(),
    ;
}

/// An undecorated item with a fixed base price.
pub struct BasePizza {
    pub cost: u64,
}

impl Pizza for BasePizza {
    open spec fn cost_total(&self) -> int {
        self.cost as int
    }

    open spec fn cost_in_budget(&self) -> bool {
        true
    }

    fn get_cost(&self) -> (c: u64) {
        self.cost
    }
}

/// Wraps a priced item and adds a fixed topping surcharge to its price.
pub struct ToppingDecorator<'a, P: Pizza> {
    pub base_pizza: &'a P,
    pub topping_cost: u64,
}

impl<'a, P: Pizza> Pizza for ToppingDecorator<'a, P> {
    open spec fn cost_total(&self) -> int {
        self.base_pizza.cost_total() + self.topping_cost
    }

    open spec fn cost_in_budget(&self) -> bool {
        self.base_pizza.cost_in_budget() && self.base_pizza.cost_total() + self.topping_cost
            <= u64::MAX
    }

    fn get_cost(&self) -> (c: u64) {
        self.base_pizza.get_cost() + self.topping_cost
    }
}

/// Wraps a priced item and adds a fixed extra-cheese surcharge to its price.
pub struct ExtraCheeseDecorator<'a, P: Pizza> {
    pub base_pizza: &'a P,
    pub extra_cheese_cost: u64,
}

impl<'a, P: Pizza> Pizza for ExtraCheeseDecorator<'a, P> {
    open spec fn cost_total(&self) -> int {
        self.base_pizza.cost_total() + self.extra_cheese_cost
    }

    open spec fn cost_in_budget(&self) -> bool {
        self.base_pizza.cost_in_budget() && self.base_pizza.cost_total() + self.extra_cheese_cost
            <= u64::MAX
    }

    fn get_cost(&self) -> (c: u64) {
        self.base_pizza.get_cost() + self.extra_cheese_cost
    }
}

} // verus!
