use rls_oso::catalog::{Catalog, TypeEntry};
use rls_oso::engine::{Engine, RawRow};
use rls_oso::errors::AuthzError;
use rls_oso::rules::RuleRecord;
use rls_oso::timestamp::TimestampTz;
use rls_oso::values::{ColumnValue, RawValue};

const DOCUMENTS: u32 = 4242;

fn documents_catalog() -> Catalog {
    Catalog { entries: vec![TypeEntry { type_id: DOCUMENTS, name: "documents".to_string() }] }
}

fn author_rule() -> Vec<RuleRecord> {
    vec![RuleRecord {
        source: r#"allow(subject, "select", doc: documents) if doc.author = subject;"#.to_string(),
        order: 0,
    }]
}

fn document_row(id: &str, author: &str, micros: i64) -> RawRow {
    RawRow {
        type_id: DOCUMENTS,
        columns: vec![
            ColumnValue { name: "id".to_string(), value: RawValue::Text(id.to_string()) },
            ColumnValue { name: "author".to_string(), value: RawValue::Text(author.to_string()) },
            ColumnValue {
                name: "created_at".to_string(),
                value: RawValue::TimestampTz(TimestampTz { micros }),
            },
        ],
    }
}

#[test]
fn author_may_select_own_document_and_nobody_else() {
    let catalog = documents_catalog();
    let mut engine = Engine::new();
    let row = document_row("1", "alice", 1700000000000000);
    let allowed = engine
        .is_allowed(&catalog, "alice", "select", &row, author_rule())
        .expect("decision should succeed");
    assert!(allowed);
    let bob_row = document_row("1", "bob", 1700000000000000);
    let denied = engine
        .is_allowed(&catalog, "alice", "select", &bob_row, author_rule())
        .expect("decision should succeed");
    assert!(!denied);
}

#[test]
fn first_decision_registers_once_and_later_ones_reuse_the_class() {
    let catalog = documents_catalog();
    let mut engine = Engine::new();
    assert_eq!(engine.registry.entries.len(), 0);
    let row = document_row("1", "alice", 7);
    engine.is_allowed(&catalog, "alice", "select", &row, author_rule()).expect("first decision");
    assert_eq!(engine.registry.entries.len(), 1);
    assert_eq!(engine.registry.entries[0].type_id, DOCUMENTS);
    assert_eq!(engine.registry.entries[0].class_name, "documents");
    engine.is_allowed(&catalog, "alice", "select", &row, author_rule()).expect("second decision");
    engine.is_allowed(&catalog, "bob", "select", &row, author_rule()).expect("third decision");
    assert_eq!(engine.registry.entries.len(), 1);
}

#[test]
fn unknown_type_is_rejected() {
    let catalog = documents_catalog();
    let mut engine = Engine::new();
    let mut row = document_row("1", "alice", 7);
    row.type_id = 999;
    let r = engine.is_allowed(&catalog, "alice", "select", &row, author_rule());
    assert_eq!(r, Err(AuthzError::UnknownType));
}

#[test]
fn malformed_rule_source_fails_the_reload() {
    let catalog = documents_catalog();
    let mut engine = Engine::new();
    let row = document_row("1", "alice", 7);
    let bad = vec![RuleRecord { source: "this is not a polar rule".to_string(), order: 0 }];
    let r = engine.is_allowed(&catalog, "alice", "select", &row, bad);
    assert_eq!(r, Err(AuthzError::RuleLoadError));
    assert!(!engine.rules_current);
}

#[test]
fn administrative_reload_succeeds_and_marks_rules_current() {
    let mut engine = Engine::new();
    assert!(!engine.rules_current);
    engine.reload(author_rule()).expect("reload should succeed");
    assert!(engine.rules_current);
}

#[test]
fn row_missing_a_declared_attribute_is_a_mismatch() {
    let catalog = documents_catalog();
    let mut engine = Engine::new();
    let row = document_row("1", "alice", 7);
    engine.is_allowed(&catalog, "alice", "select", &row, author_rule()).expect("first decision");
    let short_row = RawRow {
        type_id: DOCUMENTS,
        columns: vec![ColumnValue {
            name: "id".to_string(),
            value: RawValue::Text("1".to_string()),
        }],
    };
    let r = engine.is_allowed(&catalog, "alice", "select", &short_row, author_rule());
    assert_eq!(r, Err(AuthzError::AttributeNotFound));
}

#[test]
fn unsupported_column_still_yields_a_decision_on_the_others() {
    let catalog = documents_catalog();
    let mut engine = Engine::new();
    let row = RawRow {
        type_id: DOCUMENTS,
        columns: vec![
            ColumnValue { name: "id".to_string(), value: RawValue::Text("1".to_string()) },
            ColumnValue {
                name: "author".to_string(),
                value: RawValue::Text("alice".to_string()),
            },
            ColumnValue { name: "created_at".to_string(), value: RawValue::TimestampTzNull },
            ColumnValue { name: "payload".to_string(), value: RawValue::Unsupported(17) },
        ],
    };
    let allowed = engine
        .is_allowed(&catalog, "alice", "select", &row, author_rule())
        .expect("decision should succeed despite the unsupported column");
    assert!(allowed);
    let denied = engine
        .is_allowed(&catalog, "bob", "select", &row, author_rule())
        .expect("decision should succeed despite the unsupported column");
    assert!(!denied);
}

#[test]
fn rule_referencing_a_dropped_attribute_does_not_match() {
    let catalog = documents_catalog();
    let mut engine = Engine::new();
    let row = RawRow {
        type_id: DOCUMENTS,
        columns: vec![
            ColumnValue {
                name: "author".to_string(),
                value: RawValue::Text("alice".to_string()),
            },
            ColumnValue { name: "payload".to_string(), value: RawValue::Unsupported(17) },
        ],
    };
    let rules = vec![RuleRecord {
        source: r#"allow(_subject, "select", doc: documents) if doc.payload = "secret";"#
            .to_string(),
        order: 0,
    }];
    let r = engine.is_allowed(&catalog, "alice", "select", &row, rules);
    assert_eq!(r, Ok(false));
}

#[test]
fn decision_after_failed_reload_fails_closed() {
    let catalog = documents_catalog();
    let mut engine = Engine::new();
    let row = document_row("1", "alice", 7);
    engine.is_allowed(&catalog, "alice", "select", &row, author_rule()).expect("first decision");
    let bad = vec![RuleRecord { source: "not polar at all".to_string(), order: 0 }];
    assert_eq!(engine.reload(bad), Err(AuthzError::RuleLoadError));
    assert!(!engine.rules_current);
    let r = engine.is_allowed(&catalog, "alice", "select", &row, author_rule());
    assert_eq!(r, Err(AuthzError::PolicyEvaluationError));
}

#[test]
fn later_reload_recovers_from_a_failed_one() {
    let catalog = documents_catalog();
    let mut engine = Engine::new();
    let row = document_row("1", "alice", 7);
    engine.is_allowed(&catalog, "alice", "select", &row, author_rule()).expect("first decision");
    let bad = vec![RuleRecord { source: "not polar at all".to_string(), order: 0 }];
    assert_eq!(engine.reload(bad), Err(AuthzError::RuleLoadError));
    engine.reload(author_rule()).expect("recovery reload");
    assert!(engine.rules_current);
    let allowed = engine
        .is_allowed(&catalog, "alice", "select", &row, author_rule())
        .expect("decision after recovery");
    assert!(allowed);
}
