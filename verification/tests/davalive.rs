use hoags_tools::davalive::health::{exe_name, healthy_count, tool_names, ToolHealth};
use hoags_tools::davalive::stats::DavaStats;

#[test]
fn test_status_str() {
    let ok = ToolHealth {
        name: "pdffill".into(),
        binary_exists: true,
        version: Some("0.1.0".into()),
        binary_path: "/fake/path".into(),
    };
    let missing = ToolHealth {
        name: "invoicer".into(),
        binary_exists: false,
        version: None,
        binary_path: "/fake/path".into(),
    };
    assert_eq!(ok.status_str(), "OK");
    assert_eq!(missing.status_str(), "MISSING");
}

#[test]
fn test_tool_names_count() {
    assert_eq!(tool_names().len(), 12);
}

#[test]
fn test_tool_names_are_unique() {
    let mut names: Vec<&str> = tool_names();
    names.sort();
    names.dedup();
    assert_eq!(names.len(), tool_names().len(), "Duplicate tool names found");
}

#[test]
fn test_tool_names_alphabetical_sanity() {
    for name in tool_names() {
        assert!(
            name.chars().all(|c| c.is_ascii_lowercase() || c.is_ascii_digit()),
            "Tool name '{}' should be lowercase alphanumeric",
            name
        );
    }
}

#[test]
fn test_display_contains_key_labels() {
    let stats = DavaStats {
        total_bus_events: 42,
        total_knowledge_entries: 7,
        total_memory_entries: 3,
        fields_learned: 15,
        templates_cached: 4,
        learning_events_seen: 88,
        tools_built: 5,
        tools_total: 12,
        total_rust_lines: 9000,
    };
    let out = stats.display();
    assert!(out.contains("42"));
    assert!(out.contains("Bus events"));
    assert!(out.contains("9000"));
    assert!(out.contains("5/12"));
}

#[test]
fn test_display_format_all_fields() {
    let stats = DavaStats {
        total_bus_events: 1,
        total_knowledge_entries: 2,
        total_memory_entries: 3,
        fields_learned: 4,
        templates_cached: 5,
        learning_events_seen: 6,
        tools_built: 7,
        tools_total: 12,
        total_rust_lines: 8,
    };
    let out = stats.display();
    assert!(out.contains("Fields learned"));
    assert!(out.contains("Templates cached"));
    assert!(out.contains("Learning events"));
    assert!(out.contains("Rust lines"));
    assert!(out.contains("7/12"));
}

#[test]
fn display_has_eight_lines_and_negative_counts() {
    let stats = DavaStats { total_bus_events: -3, ..Default::default() };
    let out = stats.display();
    assert_eq!(out.lines().count(), 8);
    assert!(out.starts_with("  Bus events      : -3\n"));
    assert!(out.ends_with("  Rust lines      : 0"));
}

#[test]
fn report_and_count() {
    let a = ToolHealth::report("docconv", "/r/docconv".to_string(), true);
    let b = ToolHealth::report("sigstamp", "/r/sigstamp".to_string(), false);
    assert_eq!(a.version.as_deref(), Some("0.1.0"));
    assert!(b.version.is_none());
    assert_eq!(healthy_count(&[a, b]), 1);
    assert_eq!(exe_name("docconv", true), "docconv.exe");
    assert_eq!(exe_name("docconv", false), "docconv");
}

#[test]
fn test_default_stats_all_zeroes() {
    let stats = DavaStats::default();
    assert_eq!(stats.total_bus_events, 0);
    assert_eq!(stats.fields_learned, 0);
    assert_eq!(stats.tools_built, 0);
    assert_eq!(stats.total_rust_lines, 0);
}

#[test]
fn test_stats_display_not_empty() {
    let stats = DavaStats::default();
    let out = stats.display();
    assert!(!out.is_empty(), "display() should return non-empty string");
}
