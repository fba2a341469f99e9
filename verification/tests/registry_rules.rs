use rls_oso::catalog::{Catalog, TypeEntry};
use rls_oso::registry::{ClassDescriptor, Registry};
use rls_oso::rules::{join_sources, sort_rules, RuleRecord};

fn descriptor(id: u32, name: &str, attrs: &[&str]) -> ClassDescriptor {
    ClassDescriptor {
        type_id: id,
        class_name: name.to_string(),
        attribute_names: attrs.iter().map(|a| a.to_string()).collect(),
    }
}

#[test]
fn registering_the_same_type_twice_leaves_one_descriptor() {
    let mut reg = Registry::new();
    let first = reg.get_or_register(descriptor(42, "documents", &["id", "author"]));
    let second = reg.get_or_register(descriptor(42, "documents", &["id", "author"]));
    assert!(first);
    assert!(!second);
    assert_eq!(reg.entries.len(), 1);
    assert_eq!(reg.entries[0].type_id, 42);
    assert_eq!(reg.entries[0].class_name, "documents");
}

#[test]
fn registry_find_reports_presence() {
    let mut reg = Registry::new();
    assert!(reg.find(7).is_none());
    reg.get_or_register(descriptor(7, "users", &["name"]));
    assert_eq!(reg.find(7), Some(0));
    assert!(reg.find(8).is_none());
}

#[test]
fn sort_rules_orders_ascending_and_keeps_all_records() {
    let records = vec![
        RuleRecord { source: "c".to_string(), order: 5 },
        RuleRecord { source: "a".to_string(), order: 1 },
        RuleRecord { source: "b".to_string(), order: 3 },
    ];
    let sorted = sort_rules(records);
    let view: Vec<(&str, i64)> = sorted.iter().map(|r| (r.source.as_str(), r.order)).collect();
    assert_eq!(view, vec![("a", 1), ("b", 3), ("c", 5)]);
}

#[test]
fn rule_with_lower_order_is_loaded_before_the_others() {
    let records = vec![
        RuleRecord { source: "second".to_string(), order: 10 },
        RuleRecord { source: "third".to_string(), order: 20 },
        RuleRecord { source: "first".to_string(), order: -1 },
    ];
    let sorted = sort_rules(records);
    assert_eq!(sorted[0].source, "first");
    let text = join_sources(&sorted);
    assert_eq!(text, "first\nsecond\nthird\n");
}

#[test]
fn catalog_resolves_known_types_only() {
    let catalog = Catalog {
        entries: vec![
            TypeEntry { type_id: 1, name: "documents".to_string() },
            TypeEntry { type_id: 2, name: "users".to_string() },
        ],
    };
    assert_eq!(catalog.resolve_name(1), Some("documents".to_string()));
    assert_eq!(catalog.resolve_name(2), Some("users".to_string()));
    assert_eq!(catalog.resolve_name(3), None);
}
