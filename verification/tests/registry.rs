use guild_steward::config::{RoleButton, RoleChoice, RoleConfig};
use guild_steward::registry::{RegistryError, RoleRegistry};
use indexmap::IndexMap;

fn button(emoji: &str, label: &str, role_id: u64) -> RoleButton {
    RoleButton { emoji: String::from(emoji), label: String::from(label), role_id }
}

fn two_groups() -> RoleConfig {
    RoleConfig {
        choices: vec![
            RoleChoice {
                message: String::from("Choose type 1"),
                options: IndexMap::from([
                    (String::from("t1_one"), button("emoji_1", "label_1", 1)),
                    (String::from("t1_two"), button("emoji_2", "label_2", 2)),
                ]),
            },
            RoleChoice {
                message: String::from("Choose type 2"),
                options: IndexMap::from([(String::from("t2_one"), button("emoki_1", "label_3", 3))]),
            },
        ],
    }
}

#[test]
fn registry_resolves_every_configured_id() {
    let registry = match RoleRegistry::build(&two_groups().choices) {
        Ok(r) => r,
        Err(e) => panic!("unexpected {:?}", e),
    };
    assert_eq!(registry.resolve("t1_one"), Some(1));
    assert_eq!(registry.resolve("t1_two"), Some(2));
    assert_eq!(registry.resolve("t2_one"), Some(3));
}

#[test]
fn registry_has_nothing_for_other_ids() {
    let registry = match RoleRegistry::build(&two_groups().choices) {
        Ok(r) => r,
        Err(e) => panic!("unexpected {:?}", e),
    };
    assert_eq!(registry.resolve("t3_one"), None);
    assert_eq!(registry.resolve(""), None);
    assert_eq!(registry.resolve("T1_ONE"), None);
}

#[test]
fn registry_rejects_id_shared_by_two_groups() {
    let mut config = two_groups();
    config.choices[1].options.insert(String::from("t1_two"), button("e", "l", 9));
    match RoleRegistry::build(&config.choices) {
        Ok(_) => panic!("a shared id must not build"),
        Err(e) => {
            assert_eq!(e, RegistryError::DuplicateButton { button_id: String::from("t1_two") })
        },
    }
}

#[test]
fn registry_names_the_first_repeated_id() {
    let config = RoleConfig {
        choices: vec![
            RoleChoice {
                message: String::from("one"),
                options: IndexMap::from([
                    (String::from("a"), button("x", "A", 10)),
                    (String::from("b"), button("y", "B", 20)),
                ]),
            },
            RoleChoice {
                message: String::from("two"),
                options: IndexMap::from([
                    (String::from("c"), button("x", "C", 30)),
                    (String::from("b"), button("y", "B", 21)),
                    (String::from("a"), button("y", "A", 11)),
                ]),
            },
        ],
    };
    match RoleRegistry::build(&config.choices) {
        Ok(_) => panic!("a shared id must not build"),
        Err(e) => assert_eq!(e, RegistryError::DuplicateButton { button_id: String::from("b") }),
    }
}

#[test]
fn registry_of_no_groups_is_empty() {
    let registry = match RoleRegistry::build(&Vec::new()) {
        Ok(r) => r,
        Err(e) => panic!("unexpected {:?}", e),
    };
    assert_eq!(registry.resolve("a"), None);
}

#[test]
fn configurations_compare_by_what_they_hold() {
    assert_eq!(two_groups(), two_groups());
    let mut other = two_groups();
    other.choices[0].options.insert(String::from("t1_one"), button("emoji_1", "label_1", 4));
    assert_ne!(two_groups(), other);
    assert_eq!(two_groups().choices[0].options.get_index(1).map(|(id, _)| id.as_str()), Some("t1_two"));
}
