use hmac::{Hmac, Mac};
use pr_checklist::error::Error;
use pr_checklist::github::{
    extract_issue_key, issue_key_from_groups, validate_signature, Changes, PullRequest,
    PullRequestPayload, TitleChange,
};
use pr_checklist::types::WebhookSecret;
use sha2::Sha256;

type HmacSha256 = Hmac<Sha256>;

#[test]
fn test_extract_issue_key_from_payload() {
    let payload = PullRequestPayload {
        action: "opened".to_string(),
        pull_request: PullRequest {
            title: "[ISSUE-123] Test PR".to_string(),
            html_url: "https://github.com/org/repo/pull/1".to_string(),
            number: 1,
            state: "open".to_string(),
        },
        changes: None,
    };

    let key = extract_issue_key(&payload.pull_request.title);
    assert_eq!(key, Some("ISSUE-123".to_string()));
}

#[test]
fn test_extract_old_issue_key_from_edited_payload() {
    let payload = PullRequestPayload {
        action: "edited".to_string(),
        pull_request: PullRequest {
            title: "[ISSUE-234] Updated PR".to_string(),
            html_url: "https://github.com/org/repo/pull/1".to_string(),
            number: 1,
            state: "open".to_string(),
        },
        changes: Some(Changes {
            title: Some(TitleChange {
                from: "[ISSUE-123] Original PR".to_string(),
            }),
        }),
    };

    let current_key = extract_issue_key(&payload.pull_request.title);
    assert_eq!(current_key, Some("ISSUE-234".to_string()));

    if let Some(changes) = &payload.changes {
        if let Some(title_change) = &changes.title {
            let old_key = extract_issue_key(&title_change.from);
            assert_eq!(old_key, Some("ISSUE-123".to_string()));
        }
    }
}

#[test]
fn test_extract_issue_key_single() {
    let title = "[ISSUE-123] This is a test PR";
    let key = extract_issue_key(title);
    assert_eq!(key, Some("ISSUE-123".to_string()));
}

#[test]
fn test_extract_issue_key_none() {
    let title = "This is a test PR without issue keys";
    let key = extract_issue_key(title);
    assert!(key.is_none());
}

#[test]
fn test_extract_issue_key_empty_brackets() {
    let title = "[] This is a test PR with empty brackets";
    let key = extract_issue_key(title);
    assert!(key.is_none());
}

#[test]
fn test_extract_issue_key_space_separated() {
    let title = "Issue 51 - Fix authentication issue";
    let key = extract_issue_key(title);
    assert_eq!(key, Some("ISSUE-51".to_string()));
}

#[test]
fn test_extract_issue_key_hyphen_separated() {
    let title = "Issue-51 Update user interface";
    let key = extract_issue_key(title);
    assert_eq!(key, Some("ISSUE-51".to_string()));
}

#[test]
fn test_extract_issue_key_bracketed_with_hyphen() {
    let title = "[Issue-51] Implement new feature";
    let key = extract_issue_key(title);
    assert_eq!(key, Some("ISSUE-51".to_string()));
}

#[test]
fn issue_key_from_groups_upper_cases_the_prefix() {
    assert_eq!(issue_key_from_groups("Issue", "51"), "ISSUE-51");
    assert_eq!(issue_key_from_groups("abc", "007"), "ABC-007");
    assert_eq!(issue_key_from_groups("", ""), "-");
}

#[test]
fn extract_issue_key_needs_the_key_at_the_start() {
    assert_eq!(extract_issue_key("Fix ABC-12"), None);
    assert_eq!(extract_issue_key("abc--  9x"), Some("ABC-9".to_string()));
}

#[test]
fn test_validate_signature_valid() {
    let secret = WebhookSecret::new("test_secret".to_string()).unwrap();
    let payload = b"test_payload";

    let mut mac = HmacSha256::new_from_slice(secret.as_bytes()).unwrap();
    mac.update(payload);
    let signature_bytes = mac.finalize().into_bytes();
    let signature = format!("sha256={}", hex::encode(signature_bytes));

    let result = validate_signature(payload, Some(&signature), &secret);
    assert!(result.is_ok());
}

#[test]
fn test_validate_signature_invalid() {
    let secret = WebhookSecret::new("test_secret".to_string()).unwrap();
    let payload = b"test_payload";

    let signature = "sha256=invalid_signature";

    let result = validate_signature(payload, Some(signature), &secret);
    assert!(result.is_err());
    assert!(matches!(result.unwrap_err(), Error::InvalidWebhookSignature));
}

#[test]
fn test_validate_signature_missing_header() {
    let secret = WebhookSecret::new("test_secret".to_string()).unwrap();
    let payload = b"test_payload";

    let result = validate_signature(payload, None, &secret);
    assert!(result.is_err());
    assert!(matches!(result.unwrap_err(), Error::MissingSignatureHeader));
}

#[test]
fn signature_upper_case_hex_is_accepted() {
    let secret = WebhookSecret::new("test_secret".to_string()).unwrap();
    let payload = b"test_payload";
    let mut mac = HmacSha256::new_from_slice(b"test_secret").unwrap();
    mac.update(payload);
    let hex_tag = hex::encode_upper(mac.finalize().into_bytes());
    let good = format!("sha256={}", hex_tag);
    assert!(validate_signature(payload, Some(&good), &secret).is_ok());
    let other = validate_signature(b"other_payload", Some(&good), &secret);
    assert!(matches!(other, Err(Error::InvalidWebhookSignature)));
}

#[test]
fn signature_needs_prefix_and_whole_tag() {
    let secret = WebhookSecret::new("test_secret".to_string()).unwrap();
    let payload = b"test_payload";
    let mut mac = HmacSha256::new_from_slice(b"test_secret").unwrap();
    mac.update(payload);
    let hex_tag = hex::encode(mac.finalize().into_bytes());
    let no_prefix = hex_tag.clone();
    assert!(matches!(
        validate_signature(payload, Some(&no_prefix), &secret),
        Err(Error::InvalidWebhookSignature)
    ));
    let sha1 = format!("sha1={}", hex_tag);
    assert!(matches!(
        validate_signature(payload, Some(&sha1), &secret),
        Err(Error::InvalidWebhookSignature)
    ));
    let truncated = format!("sha256={}", &hex_tag[..62]);
    assert!(matches!(
        validate_signature(payload, Some(&truncated), &secret),
        Err(Error::InvalidWebhookSignature)
    ));
    let odd = format!("sha256={}0", hex_tag);
    assert!(matches!(
        validate_signature(payload, Some(&odd), &secret),
        Err(Error::InvalidWebhookSignature)
    ));
}

#[test]
fn signature_under_another_secret_is_refused() {
    let secret = WebhookSecret::new("test_secret".to_string()).unwrap();
    let payload = b"test_payload";
    let mut mac = HmacSha256::new_from_slice(b"another_secret").unwrap();
    mac.update(payload);
    let signature = format!("sha256={}", hex::encode(mac.finalize().into_bytes()));
    assert!(matches!(
        validate_signature(payload, Some(&signature), &secret),
        Err(Error::InvalidWebhookSignature)
    ));
}
