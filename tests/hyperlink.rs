use rudocx::model::{Hyperlink, Run};
use rudocx::rels::RelationshipManager;

#[test]
fn test_hyperlink_new() {
    let mut rel_manager = RelationshipManager::new();
    let hyperlink = Hyperlink::new("https://example.com", &mut rel_manager);

    assert_eq!(hyperlink.id, "rId1");
    assert_eq!(hyperlink.runs.len(), 1);
    assert_eq!(hyperlink.runs[0].text, "https://example.com");
    assert_eq!(rel_manager.get_links().len(), 1);
    assert_eq!(
        rel_manager.get_links().get("rId1"),
        Some(&"https://example.com".to_string())
    );
}

#[test]
fn test_hyperlink_new_with_text() {
    let mut rel_manager = RelationshipManager::new();
    let hyperlink = Hyperlink::new_with_text(
        "https://rust-lang.org",
        "Rust Programming Language",
        &mut rel_manager,
    );

    assert_eq!(hyperlink.id, "rId1");
    assert_eq!(hyperlink.runs.len(), 1);
    assert_eq!(hyperlink.runs[0].text, "Rust Programming Language");
    assert_eq!(
        rel_manager.get_links().get("rId1"),
        Some(&"https://rust-lang.org".to_string())
    );
}

#[test]
fn test_hyperlink_new_with_runs() {
    let mut rel_manager = RelationshipManager::new();
    let runs = vec![
        Run::from("First part ".to_string()),
        Run::from("Second part".to_string()),
    ];
    let hyperlink = Hyperlink::new_with_runs("https://example.com", runs, &mut rel_manager);

    assert_eq!(hyperlink.id, "rId1");
    assert_eq!(hyperlink.runs.len(), 2);
    assert_eq!(hyperlink.runs[0].text, "First part ");
    assert_eq!(hyperlink.runs[1].text, "Second part");
}

#[test]
fn test_multiple_hyperlinks_sequential_ids() {
    let mut rel_manager = RelationshipManager::new();

    let hyperlink1 = Hyperlink::new("https://example1.com", &mut rel_manager);
    let hyperlink2 = Hyperlink::new("https://example2.com", &mut rel_manager);
    let hyperlink3 = Hyperlink::new("https://example3.com", &mut rel_manager);

    assert_eq!(hyperlink1.id, "rId1");
    assert_eq!(hyperlink2.id, "rId2");
    assert_eq!(hyperlink3.id, "rId3");
    assert_eq!(rel_manager.get_links().len(), 3);
}

#[test]
fn test_relationship_manager_isolation() {
    let mut rel_manager1 = RelationshipManager::new();
    let mut rel_manager2 = RelationshipManager::new();

    let hyperlink1 = Hyperlink::new("https://example1.com", &mut rel_manager1);
    let hyperlink2 = Hyperlink::new("https://example2.com", &mut rel_manager2);

    assert_eq!(hyperlink1.id, "rId1");
    assert_eq!(hyperlink2.id, "rId1");

    assert_eq!(rel_manager1.get_links().len(), 1);
    assert_eq!(rel_manager2.get_links().len(), 1);
}

#[test]
fn test_default_hyperlink() {
    let hyperlink = Hyperlink::default();
    assert_eq!(hyperlink.id, "");
    assert_eq!(hyperlink.runs.len(), 0);
}
