use patterns::builder::PersonBuilder;

#[test]
fn test_builer_success() {
    let homer_result = PersonBuilder::new()
        .name("Homer".to_string())
        .likes("Pie".to_string())
        .age(30)
        .build();

    let _ = match homer_result {
        Ok(p) => p,
        Err(err) => panic!("Invalid person {}", err),
    };
}

#[test]
#[should_panic]
fn test_builer_err() {
    let homer_result = PersonBuilder::new()
        .name("Homer".to_string())
        .likes("Pie".to_string())
        .age(50)
        .build();
    match homer_result {
        Ok(p) => p,
        Err(err) => panic!("Invalid person {}", err),
    };
}

#[test]
fn test_build_keeps_fields() {
    let homer = PersonBuilder::new()
        .name("Homer".to_string())
        .likes("Pie".to_string())
        .age(30)
        .build()
        .unwrap();
    assert_eq!(homer.name, "Homer".to_string());
    assert_eq!(homer.age, 30);
    assert_eq!(homer.likes, "Pie".to_string());
}

#[test]
fn test_build_rejects_old_homer_with_reason() {
    let err = PersonBuilder::new()
        .name("Homer".to_string())
        .age(50)
        .build()
        .unwrap_err();
    assert_eq!(err, "Homer can't be that old".to_string());
}

#[test]
fn test_build_boundary_age_is_accepted() {
    // The rule rejects Homer only beyond forty.
    let homer = PersonBuilder::new()
        .name("Homer".to_string())
        .age(40)
        .build()
        .unwrap();
    assert_eq!(homer.age, 40);
    // Another name is fine at any age.
    let marge = PersonBuilder::new()
        .name("Marge".to_string())
        .age(50)
        .build()
        .unwrap();
    assert_eq!(marge.name, "Marge".to_string());
}

#[test]
fn test_new_builder_is_empty() {
    let nobody = PersonBuilder::new().build().unwrap();
    assert_eq!(nobody.name, String::new());
    assert_eq!(nobody.age, 0);
    assert_eq!(nobody.likes, String::new());
}
