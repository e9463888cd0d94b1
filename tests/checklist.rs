use pr_checklist::checklist::{ChecklistManipulator, PrStatus};

#[test]
fn test_add_new_pr() {
    let mut checklist =
        ChecklistManipulator::new("## Pull Requests\n- https://github.com/org/repo/pull/1");

    checklist.push_pr("https://github.com/org/repo/pull/2");

    assert_eq!(
        &checklist.to_string(),
        "## Pull Requests\n- https://github.com/org/repo/pull/1\n- https://github.com/org/repo/pull/2"
    );
}

#[test]
fn test_add_existing_pr() {
    let mut checklist = ChecklistManipulator::new(
        "## Pull Requests\n- https://github.com/org/repo/pull/1\n- https://github.com/org/repo/pull/2",
    );

    checklist.push_pr("https://github.com/org/repo/pull/2");

    assert_eq!(
        &checklist.to_string(),
        "## Pull Requests\n- https://github.com/org/repo/pull/1\n- https://github.com/org/repo/pull/2"
    );
}

#[test]
fn upsert_appends_then_changes_status_in_place() {
    let mut doc = ChecklistManipulator::new("## Pull Requests\n- https://x/pull/1");
    let h = doc.find_section("Pull Requests").unwrap();
    assert!(doc.upsert_entry(h, "https://x/pull/2", PrStatus::Open));
    assert_eq!(
        doc.to_string(),
        "## Pull Requests\n- https://x/pull/1\n- https://x/pull/2"
    );
    assert!(doc.upsert_entry(h, "https://x/pull/1", PrStatus::Merged));
    assert_eq!(
        doc.to_string(),
        "## Pull Requests\n+ https://x/pull/1\n- https://x/pull/2"
    );
}

#[test]
fn remove_from_empty_section_changes_nothing() {
    let mut doc = ChecklistManipulator::new("## Pull Requests");
    let h = doc.find_section("Pull Requests");
    assert_eq!(h, Some(0));
    assert!(!doc.remove_entry(h, "https://x/pull/9"));
    assert_eq!(doc.to_string(), "## Pull Requests");
}

#[test]
fn upsert_twice_is_idempotent() {
    let mut doc = ChecklistManipulator::new("# Tasks\n- a\n## Pull Requests\n- https://x/pull/3");
    let h = doc.find_section("Pull Requests").unwrap();
    assert!(doc.upsert_entry(h, "https://x/pull/4", PrStatus::Closed));
    let once = doc.to_string();
    assert!(!doc.upsert_entry(h, "https://x/pull/4", PrStatus::Closed));
    assert_eq!(doc.to_string(), once);
    assert_eq!(
        once,
        "# Tasks\n- a\n## Pull Requests\n- https://x/pull/3\nx https://x/pull/4"
    );
}

#[test]
fn status_transition_open_merged_merged() {
    let mut doc = ChecklistManipulator::new("## Pull Requests");
    let h = doc.find_section("Pull Requests").unwrap();
    assert!(doc.upsert_entry(h, "https://x/pull/5", PrStatus::Open));
    assert_eq!(doc.to_string(), "## Pull Requests\n- https://x/pull/5");
    assert!(doc.upsert_entry(h, "https://x/pull/5", PrStatus::Merged));
    assert_eq!(doc.to_string(), "## Pull Requests\n+ https://x/pull/5");
    assert!(!doc.upsert_entry(h, "https://x/pull/5", PrStatus::Merged));
    assert_eq!(doc.to_string(), "## Pull Requests\n+ https://x/pull/5");
}

#[test]
fn parse_serialize_round_trip_is_lossless() {
    for raw in ["", "a", "a\n", "a\n\n", "\n", "a\r\nb\r\r\n", "# t\n- x\n\n## u"] {
        let once = ChecklistManipulator::new(raw).to_string();
        assert_eq!(once, raw);
        let twice = ChecklistManipulator::new(&once).to_string();
        assert_eq!(twice, once);
    }
}

#[test]
fn content_outside_the_section_is_kept() {
    let raw = "# Intro\ntext https://x/pull/1\n## Pull Requests\n- https://x/pull/1\n## Notes\n- https://x/pull/2";
    let mut doc = ChecklistManipulator::new(raw);
    let h = doc.find_section("Pull Requests").unwrap();
    assert_eq!(h, 2);
    assert!(doc.upsert_entry(h, "https://x/pull/2", PrStatus::Open));
    assert_eq!(
        doc.to_string(),
        "# Intro\ntext https://x/pull/1\n## Pull Requests\n- https://x/pull/1\n- https://x/pull/2\n## Notes\n- https://x/pull/2"
    );
    assert!(doc.remove_entry(Some(h), "https://x/pull/1"));
    assert_eq!(
        doc.to_string(),
        "# Intro\ntext https://x/pull/1\n## Pull Requests\n- https://x/pull/2\n## Notes\n- https://x/pull/2"
    );
}

#[test]
fn missing_section_is_a_no_op() {
    let raw = "# Development Process\n- task\n# Other";
    let mut doc = ChecklistManipulator::new(raw);
    let h = doc.find_section("Pull Requests");
    assert_eq!(h, None);
    assert!(!doc.section_contains_url(h, "https://x/pull/1"));
    assert!(!doc.remove_entry(h, "https://x/pull/1"));
    assert!(!doc.push_pr("https://x/pull/1"));
    assert_eq!(doc.to_string(), raw);
}

#[test]
fn index_past_the_end_is_a_missing_section() {
    let mut doc = ChecklistManipulator::new("## Pull Requests\n- https://x/pull/1");
    assert!(!doc.section_contains_url(Some(7), "https://x/pull/1"));
    assert!(!doc.remove_entry(Some(7), "https://x/pull/1"));
}

#[test]
fn url_prefix_matches_a_longer_url() {
    let doc = ChecklistManipulator::new("## Pull Requests\n- https://x/pull/12");
    let h = doc.find_section("Pull Requests");
    assert!(doc.section_contains_url(h, "https://x/pull/1"));
    assert!(!doc.section_contains_url(h, "https://x/pull/2"));
}

#[test]
fn section_ends_at_next_heading() {
    let doc = ChecklistManipulator::new("## Pull Requests\n# Other\n- https://x/pull/1");
    let h = doc.find_section("Pull Requests");
    assert!(!doc.section_contains_url(h, "https://x/pull/1"));
}

#[test]
fn first_of_duplicate_headings_wins() {
    let mut doc = ChecklistManipulator::new("## Pull Requests\n## Pull Requests\n- https://x/pull/1");
    assert_eq!(doc.find_section("Pull Requests"), Some(0));
    assert!(doc.push_pr("https://x/pull/1"));
    assert_eq!(
        doc.to_string(),
        "## Pull Requests\n- https://x/pull/1\n## Pull Requests\n- https://x/pull/1"
    );
}

#[test]
fn heading_title_is_trimmed_and_case_sensitive() {
    let doc = ChecklistManipulator::new("x\n###   Pull Requests \t\n");
    assert_eq!(doc.find_section("Pull Requests"), Some(1));
    assert_eq!(doc.find_section("pull requests"), None);
    assert_eq!(doc.find_section("Pull"), None);
    let plain = ChecklistManipulator::new("Pull Requests");
    assert_eq!(plain.find_section("Pull Requests"), None);
}

#[test]
fn find_or_create_appends_a_heading() {
    let mut doc = ChecklistManipulator::new("# Tasks\n- a");
    assert_eq!(doc.find_or_create_section("Pull Requests"), 2);
    assert_eq!(doc.to_string(), "# Tasks\n- a\n## Pull Requests");
    assert_eq!(doc.find_or_create_section("Pull Requests"), 2);
    assert_eq!(doc.to_string(), "# Tasks\n- a\n## Pull Requests");
    let mut empty = ChecklistManipulator::new("");
    assert_eq!(empty.find_or_create_section("Pull Requests"), 0);
    assert_eq!(empty.to_string(), "## Pull Requests");
}

#[test]
fn push_pr_into_section_with_trailing_line_feed() {
    let mut doc = ChecklistManipulator::new("# Pull Requests\n");
    assert!(doc.push_pr("https://x/pull/1"));
    assert_eq!(doc.to_string(), "# Pull Requests\n\n- https://x/pull/1");
}

#[test]
fn push_pr_replaces_an_entry_with_another_marker_in_place() {
    let mut doc = ChecklistManipulator::new(
        "## Pull Requests\n+ https://x/pull/1\nx https://x/pull/2\n# Notes",
    );
    assert!(doc.push_pr("https://x/pull/1"));
    assert_eq!(
        doc.to_string(),
        "## Pull Requests\n- https://x/pull/1\nx https://x/pull/2\n# Notes"
    );
    assert!(!doc.push_pr("https://x/pull/1"));
    assert!(doc.push_pr("https://x/pull/2"));
    assert_eq!(
        doc.to_string(),
        "## Pull Requests\n- https://x/pull/1\n- https://x/pull/2\n# Notes"
    );
}

#[test]
fn upsert_pr_status_transition_in_target_section() {
    let mut doc = ChecklistManipulator::new("# Tasks\n- a\n## Pull Requests\n# Notes");
    assert!(doc.upsert_pr("https://x/pull/5", PrStatus::Open));
    assert_eq!(
        doc.to_string(),
        "# Tasks\n- a\n## Pull Requests\n- https://x/pull/5\n# Notes"
    );
    assert!(doc.upsert_pr("https://x/pull/5", PrStatus::Merged));
    assert_eq!(
        doc.to_string(),
        "# Tasks\n- a\n## Pull Requests\n+ https://x/pull/5\n# Notes"
    );
    assert!(!doc.upsert_pr("https://x/pull/5", PrStatus::Merged));
    assert_eq!(
        doc.to_string(),
        "# Tasks\n- a\n## Pull Requests\n+ https://x/pull/5\n# Notes"
    );
}

#[test]
fn upsert_pr_without_section_changes_nothing() {
    let mut doc = ChecklistManipulator::new("# Tasks\n- https://x/pull/5");
    assert!(!doc.upsert_pr("https://x/pull/5", PrStatus::Closed));
    assert_eq!(doc.to_string(), "# Tasks\n- https://x/pull/5");
}

#[test]
fn remove_takes_only_the_first_entry() {
    let mut doc =
        ChecklistManipulator::new("## Pull Requests\n- https://x/pull/1\n+ https://x/pull/1");
    let h = doc.find_section("Pull Requests");
    assert!(doc.remove_entry(h, "https://x/pull/1"));
    assert_eq!(doc.to_string(), "## Pull Requests\n+ https://x/pull/1");
    assert!(doc.section_contains_url(h, "https://x/pull/1"));
}
