use hoags_tools::receipts::expense::{is_valid_category, normalize_category, valid_categories};
use hoags_tools::receipts::report::csv_escape;

#[test]
fn test_csv_escape_plain() {
    assert_eq!(csv_escape("Home Depot"), "Home Depot");
}

#[test]
fn test_csv_escape_comma() {
    assert_eq!(csv_escape("Hoags, Inc"), "\"Hoags, Inc\"");
}

#[test]
fn test_csv_escape_quote() {
    assert_eq!(csv_escape("say \"hi\""), "\"say \"\"hi\"\"\"");
}

#[test]
fn test_normalize_known_category() {
    assert_eq!(normalize_category("Supplies"), "supplies");
    assert_eq!(normalize_category("FUEL"), "fuel");
    assert_eq!(normalize_category("labor"), "labor");
}

#[test]
fn test_normalize_unknown_category_falls_back_to_other() {
    assert_eq!(normalize_category("random_thing"), "other");
}

#[test]
fn categories_are_listed() {
    assert_eq!(valid_categories().len(), 7);
    assert!(is_valid_category("travel"));
    assert!(!is_valid_category("Travel"));
}
