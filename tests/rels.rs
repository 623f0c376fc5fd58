use rudocx::rels::{generate_doc_rels, RelationshipManager};

#[test]
fn test_relationship_manager_new() {
    let manager = RelationshipManager::new();
    assert_eq!(manager.counter(), 0);
    assert_eq!(manager.get_links().len(), 0);
}

#[test]
fn test_generate_rid() {
    let mut manager = RelationshipManager::new();

    let rid1 = manager.generate_rid("https://example1.com");
    let rid2 = manager.generate_rid("https://example2.com");

    assert_eq!(rid1, "rId1");
    assert_eq!(rid2, "rId2");
    assert_eq!(manager.get_links().len(), 2);
    assert_eq!(
        manager.get_links().get("rId1"),
        Some(&"https://example1.com".to_string())
    );
    assert_eq!(
        manager.get_links().get("rId2"),
        Some(&"https://example2.com".to_string())
    );
}

#[test]
fn test_clear() {
    let mut manager = RelationshipManager::new();

    manager.generate_rid("https://example1.com");
    manager.generate_rid("https://example2.com");
    assert_eq!(manager.get_links().len(), 2);

    manager.clear();
    assert_eq!(manager.counter(), 0);
    assert_eq!(manager.get_links().len(), 0);

    let rid = manager.generate_rid("https://example3.com");
    assert_eq!(rid, "rId1");
}

#[test]
fn test_add_relationship() {
    let mut manager = RelationshipManager::new();

    manager.add_relationship("rId5".to_string(), "https://example.com".to_string());
    assert_eq!(manager.counter(), 5);
    assert_eq!(
        manager.get_links().get("rId5"),
        Some(&"https://example.com".to_string())
    );

    let next_rid = manager.generate_rid("https://example2.com");
    assert_eq!(next_rid, "rId6");
}

#[test]
fn test_add_relationship_non_standard_id() {
    let mut manager = RelationshipManager::new();

    manager.add_relationship("customId".to_string(), "https://example.com".to_string());
    assert_eq!(manager.counter(), 0);

    let next_rid = manager.generate_rid("https://example2.com");
    assert_eq!(next_rid, "rId1");
}

#[test]
fn three_ids_in_order_and_snapshot() {
    let mut manager = RelationshipManager::new();
    assert_eq!(manager.generate_rid("a"), "rId1");
    assert_eq!(manager.generate_rid("b"), "rId2");
    assert_eq!(manager.generate_rid("c"), "rId3");
    let links = manager.get_links();
    assert_eq!(links.len(), 3);
    assert_eq!(links.get("rId1"), Some(&"a".to_string()));
    assert_eq!(links.get("rId2"), Some(&"b".to_string()));
    assert_eq!(links.get("rId3"), Some(&"c".to_string()));
    assert_eq!(links.get("rId4"), None);
    let mut other = RelationshipManager::new();
    assert_eq!(other.generate_rid("d"), "rId1");
}

#[test]
fn add_replaces_target_of_existing_id() {
    let mut manager = RelationshipManager::new();
    manager.add_relationship("rId2".to_string(), "x".to_string());
    manager.add_relationship("rId2".to_string(), "y".to_string());
    assert_eq!(manager.get_links().len(), 1);
    assert_eq!(manager.get_links().get("rId2"), Some(&"y".to_string()));
    assert_eq!(manager.counter(), 2);
    manager.add_relationship("rId1".to_string(), "z".to_string());
    assert_eq!(manager.counter(), 2);
    assert_eq!(manager.generate_rid("w"), "rId3");
}

#[test]
fn test_generate_doc_rels() {
    let mut manager = RelationshipManager::new();
    manager.generate_rid("https://example1.com");
    manager.generate_rid("https://example2.com");

    let mut xml = String::new();
    let result = generate_doc_rels(&mut xml, &manager);

    assert!(!result.is_empty());
    assert!(result.contains("<?xml version=\"1.0\" encoding=\"UTF-8\" standalone=\"yes\"?>"));
    assert!(result.contains("xmlns=\"http://schemas.openxmlformats.org/package/2006/relationships\""));
    assert!(result.contains("rId1"));
    assert!(result.contains("rId2"));
    assert!(result.contains("https://example1.com"));
    assert!(result.contains("https://example2.com"));
    assert!(result.contains("TargetMode=\"External\""));
}

#[test]
fn test_generate_doc_rels_empty() {
    let manager = RelationshipManager::new();
    let mut xml = String::new();
    let result = generate_doc_rels(&mut xml, &manager);

    assert!(!result.is_empty());
    assert!(result.contains("<?xml version=\"1.0\" encoding=\"UTF-8\" standalone=\"yes\"?>"));
    assert!(result.contains("</Relationships>"));
    assert!(!result.contains("rId"));
}
