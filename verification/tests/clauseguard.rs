use hoags_tools::clauseguard::analyzer::{extract_readable_text, Analyzer, PageRisk};
use hoags_tools::clauseguard::clauses::{build_clause_db, RiskLevel};
use hoags_tools::clauseguard::report::{bus_risk_label, exit_code, risk_badge, ThresholdArg, shown_at};

#[test]
fn extract_text_from_pdf_stream() {
    let stream = b"BT (Hello, World!) Tj (FAR 52.249-8) Tj ET";
    let text = extract_readable_text(&stream.to_vec());
    assert!(text.contains("Hello, World!"), "got: {text}");
    assert!(text.contains("FAR 52.249-8"), "got: {text}");
}

#[test]
fn page_risk_score_red_threshold() {
    let score = PageRisk::compute_score(2, 0, 0);
    assert_eq!(PageRisk::score_to_level(score), RiskLevel::Red);
}

#[test]
fn page_risk_score_green_threshold() {
    let score = PageRisk::compute_score(0, 0, 0);
    assert_eq!(PageRisk::score_to_level(score), RiskLevel::Green);
}

#[test]
fn db_has_expected_size() {
    let db = build_clause_db();
    assert!(db.len() >= 60, "expected >= 60 clauses, got {}", db.len());
}

#[test]
fn default_clause_lookup() {
    let db = build_clause_db();
    let c = db.get("52.249-8").expect("52.249-8 should be in DB");
    assert_eq!(c.risk, RiskLevel::Red);
}

#[test]
fn green_clause_weight_is_lowest() {
    assert!(RiskLevel::Green.weight() < RiskLevel::Yellow.weight());
    assert!(RiskLevel::Yellow.weight() < RiskLevel::Red.weight());
}

#[test]
fn dfars_clause_present() {
    let db = build_clause_db();
    assert!(db.contains_key("252.204-7012"), "DFARS 252.204-7012 missing");
}

#[test]
fn risk_level_as_str() {
    assert_eq!(RiskLevel::Green.as_str(), "GREEN");
    assert_eq!(RiskLevel::Yellow.as_str(), "YELLOW");
    assert_eq!(RiskLevel::Red.as_str(), "RED");
}

#[test]
fn all_clauses_have_descriptions() {
    let db = build_clause_db();
    for info in db.entries() {
        assert!(!info.description.is_empty(), "Clause {} has empty description", info.number);
    }
}

#[test]
fn no_duplicate_clause_numbers() {
    let db = build_clause_db();
    assert!(db.len() > 0);
    let mut numbers: Vec<&str> = db.entries().iter().map(|c| c.number.as_str()).collect();
    numbers.sort();
    numbers.dedup();
    assert_eq!(numbers.len(), db.len());
}

#[test]
fn common_commercial_clause_is_green() {
    let db = build_clause_db();
    let c = db.get("52.212-4").expect("52.212-4 should be in DB");
    assert_eq!(c.risk, RiskLevel::Green);
}

#[test]
fn sca_clause_is_yellow() {
    let db = build_clause_db();
    let c = db.get("52.222-41").expect("52.222-41 should be in DB");
    assert_eq!(c.risk, RiskLevel::Yellow);
}

#[test]
fn disputes_clause_is_green() {
    let db = build_clause_db();
    let c = db.get("52.233-1").expect("52.233-1 should be in DB");
    assert_eq!(c.risk, RiskLevel::Green);
}

#[test]
fn risk_level_equality() {
    assert_eq!(RiskLevel::Red, RiskLevel::Red);
    assert_ne!(RiskLevel::Red, RiskLevel::Green);
}

#[test]
fn weight_ordering_complete() {
    assert_eq!(RiskLevel::Green.weight(), 1);
    assert_eq!(RiskLevel::Yellow.weight(), 3);
    assert_eq!(RiskLevel::Red.weight(), 10);
}

#[test]
fn risk_badge_contains_level() {
    let b = risk_badge(&RiskLevel::Red);
    assert!(b.contains("RED"), "badge: {b}");
}

#[test]
fn badge_is_coloured_and_reset() {
    assert_eq!(risk_badge(&RiskLevel::Green), "\x1b[32;1m[GREEN]\x1b[0m");
}

#[test]
fn clause_regex_matches_far_and_dfars() {
    let a = Analyzer::new().unwrap();
    let clauses = a.find_clauses("See 52.222-41 and also 252.204-7012 for details.");
    assert!(clauses.contains(&"52.222-41".to_string()));
    assert!(clauses.contains(&"252.204-7012".to_string()));
}

#[test]
fn clause_dedup_in_find() {
    let a = Analyzer::new().unwrap();
    let clauses = a.find_clauses("52.222-41 and again 52.222-41 here.");
    assert_eq!(clauses.len(), 1, "should deduplicate");
}

#[test]
fn red_phrase_detected() {
    let a = Analyzer::new().unwrap();
    let hits = a.find_hits("This contract includes liquidated damages provisions.", RiskLevel::Red);
    assert!(hits.contains(&"liquidated damages".to_string()), "got: {hits:?}");
}

#[test]
fn green_phrase_detected() {
    let a = Analyzer::new().unwrap();
    let hits = a.find_hits("Termination for convenience clause applies here.", RiskLevel::Green);
    assert!(hits.contains(&"termination for convenience".to_string()));
}

#[test]
fn score_subtracts_half_green_from_yellow_only() {
    // 1 red (10) + max(2 yellow * 3 - 5 green / 2, 0) = 10 + 4
    assert_eq!(PageRisk::compute_score(1, 2, 5), 14);
    // green never pulls the red part down
    assert_eq!(PageRisk::compute_score(1, 0, 9), 10);
    assert_eq!(PageRisk::score_to_level(5), RiskLevel::Yellow);
    assert_eq!(PageRisk::score_to_level(4), RiskLevel::Green);
    assert_eq!(PageRisk::score_to_level(20), RiskLevel::Red);
}

#[test]
fn analyze_scores_pages_and_contract() {
    let a = Analyzer::new().unwrap();
    let page1 = b"BT (This includes liquidated damages and fraud.) Tj (See 52.249-8.) Tj ET".to_vec();
    let page2 = b"BT (Prompt payment applies; 52.249-8 and 52.212-4 again) Tj ET".to_vec();
    let pages = vec![(1u32, Some(page1)), (2u32, Some(page2)), (3u32, None)];
    let r = a.analyze("contract.pdf", &pages);
    assert_eq!(r.total_pages, 3);
    assert_eq!(r.pages.len(), 3);
    assert_eq!(r.pages[0].red_hits, vec!["liquidated damages".to_string(), "fraud".to_string()]);
    assert_eq!(r.pages[0].risk_score, 20);
    assert_eq!(r.pages[0].risk_level, RiskLevel::Red);
    assert_eq!(r.pages[1].green_hits, vec!["prompt payment".to_string()]);
    assert_eq!(r.all_clause_refs, vec!["52.249-8".to_string(), "52.212-4".to_string()]);
    assert_eq!(r.known_clauses.len(), 2);
    assert_eq!(r.red_phrase_total, 2);
    assert_eq!(r.green_phrase_total, 1);
    // phrase score 20, clause weights 10 (red) + 1 (green)
    assert_eq!(r.overall_score, 31);
    assert_eq!(r.overall_risk, RiskLevel::Yellow);
    assert_eq!(
        r.summary,
        "3 pages | 2 clauses detected (2 known) | 2 red / 0 yellow / 1 green phrase hits | Overall: YELLOW"
    );
    assert_eq!(r.pages[2].text_preview, "");
}

#[test]
fn compare_and_check_clause() {
    let a = Analyzer::new().unwrap();
    let p1 = vec![(1u32, Some(b"BT (52.249-8 and 52.212-4) Tj ET".to_vec()))];
    let p2 = vec![(1u32, Some(b"BT (52.212-4 and 52.222-41, fraud) Tj ET".to_vec()))];
    let ra = a.analyze("a.pdf", &p1);
    let rb = a.analyze("b.pdf", &p2);
    let check = a.check_clause(&rb, "52.222-41");
    assert!(check.found);
    assert_eq!(check.pages_found, vec![1]);
    assert_eq!(check.info.unwrap().risk, RiskLevel::Yellow);
    let diff = a.compare(ra, rb);
    assert_eq!(diff.only_in_a, vec!["52.249-8".to_string()]);
    assert_eq!(diff.only_in_b, vec!["52.222-41".to_string()]);
    assert_eq!(diff.in_both, vec!["52.212-4".to_string()]);
    assert_eq!(diff.risk_delta, 14 - 11);
}

#[test]
fn report_helpers() {
    assert_eq!(ThresholdArg::Yellow.to_risk_level(), RiskLevel::Yellow);
    assert_eq!(exit_code(RiskLevel::Red), 2);
    assert_eq!(bus_risk_label(51), "red");
    assert_eq!(bus_risk_label(50), "yellow");
    assert_eq!(bus_risk_label(20), "green");
}

use hoags_tools::clauseguard::report::{flagged_pages, unrecognised_refs};

#[test]
fn report_lists_unknown_refs_and_flagged_pages() {
    let an = Analyzer::new().unwrap();
    let pages = vec![
        (1u32, Some(b"BT (FAR 52.249-8 applies; liquidated damages) Tj ET".to_vec())),
        (2u32, Some(b"BT (Nothing to see here) Tj ET".to_vec())),
        (3u32, Some(b"BT (See FAR 52.999-9) Tj ET".to_vec())),
    ];
    let a = an.analyze("x.pdf", &pages);
    let unknown = unrecognised_refs(&a);
    assert!(unknown.contains(&"52.999-9".to_string()), "{:?}", unknown);
    assert!(!unknown.contains(&"52.249-8".to_string()), "{:?}", unknown);
    let flagged = flagged_pages(&a);
    assert!(flagged.contains(&0));
    assert!(!flagged.contains(&1));
    assert!(flagged.contains(&2));
}

#[test]
fn threshold_shows_clauses_at_least_as_risky() {
    assert!(shown_at(RiskLevel::Green, None));
    assert!(shown_at(RiskLevel::Red, Some(RiskLevel::Yellow)));
    assert!(shown_at(RiskLevel::Yellow, Some(RiskLevel::Yellow)));
    assert!(!shown_at(RiskLevel::Green, Some(RiskLevel::Yellow)));
    assert!(!shown_at(RiskLevel::Yellow, Some(RiskLevel::Red)));
}
