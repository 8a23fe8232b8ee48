use patterns::decorator::{BasePizza, ExtraCheeseDecorator, Pizza, ToppingDecorator};

#[test]
fn test_pizza() {
    // Prices are in pence: a £5.00 base plus a £2.00 topping is £7.00.
    let pizza = BasePizza { cost: 500 };
    let topped_pizza = ToppingDecorator {
        base_pizza: &pizza,
        topping_cost: 200,
    };
    let total = topped_pizza.get_cost();
    assert_eq!(total, 700);
    assert_eq!(total as f64 / 100.0, 7.0);

    // A £5.00 base plus £1.50 of extra cheese is £6.50.
    let pizza = BasePizza { cost: 500 };
    let extra_cheesy_pizza = ExtraCheeseDecorator {
        base_pizza: &pizza,
        extra_cheese_cost: 150,
    };
    let total = extra_cheesy_pizza.get_cost();
    assert_eq!(total, 650);
    assert_eq!(total as f64 / 100.0, 6.5);
}

#[test]
fn test_decorators_stack() {
    let pizza = BasePizza { cost: 500 };
    let topped = ToppingDecorator {
        base_pizza: &pizza,
        topping_cost: 200,
    };
    let cheesy_topped = ExtraCheeseDecorator {
        base_pizza: &topped,
        extra_cheese_cost: 150,
    };
    assert_eq!(cheesy_topped.get_cost(), 850);
}

#[test]
fn test_base_pizza_cost_is_its_own() {
    let pizza = BasePizza { cost: 500 };
    assert_eq!(pizza.get_cost(), 500);
}
