use pr_checklist::config::{decode_encrypted_value, dry_run_enabled, normalize_base_path};
use pr_checklist::document::{ContentNode, Mark};
use pr_checklist::error::{response_for, Error, HttpOutcome};
use pr_checklist::jira::{basic_auth_value, checklist_update, issue_checklist_path, issue_path};
use pr_checklist::types::{WebhookEventType, WebhookSecret};

fn text(s: &str) -> ContentNode {
    ContentNode::Text { text: s.to_string(), marks: Vec::new() }
}

fn paragraph(content: Vec<ContentNode>) -> ContentNode {
    ContentNode::Paragraph { content }
}

fn doc(content: Vec<ContentNode>) -> ContentNode {
    ContentNode::Doc { content, version: 1 }
}

#[test]
fn flatten_joins_texts_and_breaks() {
    let d = doc(vec![
        ContentNode::Heading { level: 2, content: vec![text("Pull Requests")] },
        paragraph(vec![
            text("- "),
            ContentNode::Text {
                text: "https://x/pull/1".to_string(),
                marks: vec![Mark::Link { href: "https://x/pull/1".to_string() }],
            },
            ContentNode::HardBreak,
            text("+ b"),
        ]),
    ]);
    assert_eq!(d.text(), Some("Pull Requests- https://x/pull/1\n+ b".to_string()));
}

#[test]
fn flatten_of_textless_nodes_is_none() {
    assert_eq!(doc(vec![]).text(), None);
    assert_eq!(doc(vec![paragraph(vec![])]).text(), None);
    assert_eq!(ContentNode::Heading { level: 1, content: vec![] }.text(), None);
    assert_eq!(doc(vec![paragraph(vec![text("")])]).text(), Some(String::new()));
    assert_eq!(ContentNode::HardBreak.text(), Some("\n".to_string()));
}

#[test]
fn new_doc_paragraph_text_has_one_paragraph() {
    let d = ContentNode::new_doc_paragraph_text("a\nb".to_string());
    assert_eq!(d, doc(vec![paragraph(vec![text("a\nb")])]));
    assert_eq!(d.text(), Some("a\nb".to_string()));
}

#[test]
fn checklist_update_adds_the_pull_request() {
    let d = doc(vec![paragraph(vec![text("# Tasks\n-! Task 1\n# Pull Requests\n")])]);
    let updated = checklist_update(&d, "https://github.com/org/repo/pull/7").unwrap();
    assert_eq!(
        updated,
        ContentNode::new_doc_paragraph_text(
            "# Tasks\n-! Task 1\n# Pull Requests\n\n- https://github.com/org/repo/pull/7".to_string()
        )
    );
    assert!(checklist_update(&updated, "https://github.com/org/repo/pull/7").is_none());
}

#[test]
fn checklist_update_reopens_an_entry_with_another_marker() {
    let d = doc(vec![paragraph(vec![text("# Pull Requests\n+ https://x/pull/7\n# Done")])]);
    let updated = checklist_update(&d, "https://x/pull/7").unwrap();
    assert_eq!(
        updated,
        ContentNode::new_doc_paragraph_text("# Pull Requests\n- https://x/pull/7\n# Done".to_string())
    );
}

#[test]
fn checklist_update_skips_without_section_or_text() {
    let d = doc(vec![paragraph(vec![text("# Tasks\n- one")])]);
    assert!(checklist_update(&d, "https://x/pull/1").is_none());
    assert!(checklist_update(&doc(vec![]), "https://x/pull/1").is_none());
}

#[test]
fn webhook_secret_refuses_empty() {
    assert!(matches!(WebhookSecret::new(String::new()), Err(Error::EmptyWebhookSecret)));
    assert!(WebhookSecret::new("test_secret".to_string()).is_ok());
    let s = WebhookSecret::new("é!".to_string()).unwrap();
    assert_eq!(s.as_bytes(), "é!".as_bytes());
    assert_eq!(s.clone().as_bytes(), "é!".as_bytes());
}

#[test]
fn event_types_from_header() {
    assert_eq!(WebhookEventType::from_str("ping"), WebhookEventType::Ping);
    assert_eq!(WebhookEventType::from_str("pull_request"), WebhookEventType::PullRequest);
    assert_eq!(
        WebhookEventType::from_str("push"),
        WebhookEventType::Other("push".to_string())
    );
    assert_eq!(WebhookEventType::from_str(""), WebhookEventType::Other(String::new()));
    assert_eq!(
        WebhookEventType::from_str("Ping"),
        WebhookEventType::Other("Ping".to_string())
    );
}

#[test]
fn responses_for_outcomes() {
    assert_eq!(response_for(&Ok(())), HttpOutcome::Success);
    assert_eq!(
        response_for(&Err(Error::InvalidEventType("push".to_string()))),
        HttpOutcome::Success
    );
    assert_eq!(response_for(&Err(Error::InvalidWebhookSignature)), HttpOutcome::NotFound);
    assert_eq!(response_for(&Err(Error::MissingSignatureHeader)), HttpOutcome::NotFound);
    assert_eq!(response_for(&Err(Error::JiraApi("x".to_string()))), HttpOutcome::NotFound);
    assert_eq!(response_for(&Err(Error::Internal("x".to_string()))), HttpOutcome::NotFound);
    assert_eq!(
        response_for(&Err(Error::EnvVarNotSet { env_var_name: "JIRA_URL".to_string() })),
        HttpOutcome::ConfigurationFault
    );
    assert_eq!(response_for(&Err(Error::EmptyWebhookSecret)), HttpOutcome::ConfigurationFault);
    assert_eq!(
        response_for(&Err(Error::BadUrlGenerated("x".to_string()))),
        HttpOutcome::ConfigurationFault
    );
}

#[test]
fn basic_auth_header_value() {
    assert_eq!(
        basic_auth_value("user@example.com", "token"),
        "Basic dXNlckBleGFtcGxlLmNvbTp0b2tlbg=="
    );
}

#[test]
fn issue_paths() {
    assert_eq!(issue_path("TEST-7"), "rest/api/3/issue/TEST-7");
    assert_eq!(
        issue_checklist_path("TEST-7"),
        "rest/api/3/issue/TEST-7?fields=customfield_10369"
    );
}

#[test]
fn base_path_ends_in_slash() {
    assert_eq!(normalize_base_path("/jira"), "/jira/");
    assert_eq!(normalize_base_path("/jira/"), "/jira/");
    assert_eq!(normalize_base_path(""), "/");
}

#[test]
fn dry_run_flag() {
    assert!(!dry_run_enabled(None));
    assert!(!dry_run_enabled(Some("")));
    assert!(dry_run_enabled(Some("1")));
}

#[test]
fn encrypted_value_is_base64() {
    assert_eq!(decode_encrypted_value("WEBHOOK_SECRET_KMS", "aGVsbG8=").unwrap(), b"hello".to_vec());
    match decode_encrypted_value("WEBHOOK_SECRET_KMS", "not base64!") {
        Err(Error::EnvVarBadValue { env_var_name }) => assert_eq!(env_var_name, "WEBHOOK_SECRET_KMS"),
        other => panic!("unexpected {:?}", other),
    }
}
