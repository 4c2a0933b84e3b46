use django_codegen::{upper_camel_case, GenerationError};

#[test]
fn test_upper_camel_case() {
    let tests = vec![
        ("name", "Name"),
        ("Person", "Person"),
        ("task_manager", "TaskManager"),
        ("mapDomain", "MapDomain"),
        ("__user", "User"),
        ("user__", "User"),
    ];
    for (params, want) in tests {
        assert_eq!(want, upper_camel_case(params).unwrap());
    }
}

#[test]
fn normalize_compound_names() {
    assert_eq!(upper_camel_case("user_group"), Ok(String::from("UserGroup")));
    assert_eq!(upper_camel_case("__user"), Ok(String::from("User")));
    assert_eq!(upper_camel_case("a__b_c1"), Ok(String::from("ABC1")));
}

#[test]
fn normalize_rejects_leading_digit() {
    assert_eq!(
        upper_camel_case("0a"),
        Err(GenerationError::InvalidName(String::from("0a")))
    );
}

#[test]
fn normalize_rejects_other_characters() {
    for bad in ["", "user-name", "na me", "user!", "caf\u{e9}"] {
        assert_eq!(
            upper_camel_case(bad),
            Err(GenerationError::InvalidName(String::from(bad)))
        );
    }
}

#[test]
fn normalize_is_idempotent_on_class_names() {
    for name in ["User", "UserGroup", "A1"] {
        let once = upper_camel_case(name).unwrap();
        assert_eq!(once, name);
        assert_eq!(upper_camel_case(&once).unwrap(), once);
    }
    let once = upper_camel_case("task_manager").unwrap();
    assert_eq!(upper_camel_case(&once).unwrap(), once);
}

#[test]
fn normalize_of_underscores_only_is_empty() {
    assert_eq!(upper_camel_case("___"), Ok(String::new()));
}
