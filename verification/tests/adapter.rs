use patterns::adapter::{Cat, Dog, DogToCatAdapter};

#[test]
fn test_adapter() {
    let adog = Dog {
        name: "Poppy".to_string(),
    };
    let adapted_dog = DogToCatAdapter { dog: adog };
    let cats = vec![adapted_dog];
    cats[0].roar();
}

#[test]
fn test_adapter_forwards_to_wrapped_dog() {
    let adog = Dog {
        name: "Poppy".to_string(),
    };
    let adapted_dog = DogToCatAdapter { dog: adog };
    assert_eq!(adapted_dog.roar(), &"Poppy".to_string());
}
