//! Notifications about finished jobs.

use odoo_operator::crd::shared::{Phase, SecretKeySelector, WebhookConfig};
use odoo_operator::error::Error;
use odoo_operator::notify::{
    notify_job_webhook, read_s3_credentials, resolve_token, token_secret,
};

fn webhook(token: Option<&str>, secret: Option<(&str, &str)>) -> WebhookConfig {
    WebhookConfig {
        url: "https://hooks.example.com".to_string(),
        token: token.map(|t| t.to_string()),
        secret_token_secret_ref: secret
            .map(|(n, k)| SecretKeySelector { name: n.to_string(), key: k.to_string() }),
    }
}

fn data(entries: &[(&str, &str)]) -> Vec<(String, Vec<u8>)> {
    entries.iter().map(|(k, v)| (k.to_string(), v.as_bytes().to_vec())).collect()
}

#[test]
fn inline_tokens_come_first() {
    let wh = webhook(Some("abc"), Some(("s", "k")));
    assert_eq!(token_secret(&wh), None);
    assert_eq!(resolve_token(&wh, &Some(data(&[("k", "other")]))).as_deref(), Some("abc"));
}

#[test]
fn empty_tokens_fall_back_to_the_secret() {
    let wh = webhook(Some(""), Some(("s", "k")));
    assert_eq!(token_secret(&wh), Some(("s".to_string(), "k".to_string())));
    assert_eq!(resolve_token(&wh, &Some(data(&[("k", "tok")]))).as_deref(), Some("tok"));
    assert_eq!(resolve_token(&wh, &Some(data(&[("x", "tok")]))), None);
    assert_eq!(resolve_token(&wh, &None), None);
    assert_eq!(resolve_token(&webhook(None, None), &Some(data(&[("k", "tok")]))), None);
}

#[test]
fn payloads_hold_what_was_given() {
    let wh = webhook(Some("abc"), None);
    let req = notify_job_webhook(
        &wh,
        &None,
        Phase::Failed,
        &Some("job-1".to_string()),
        &None,
        &Some("2026-01-01 00:00:00".to_string()),
    );
    assert_eq!(req.url, "https://hooks.example.com");
    assert_eq!(req.token.as_deref(), Some("abc"));
    assert_eq!(req.payload.phase, Phase::Failed);
    assert_eq!(req.payload.job_name.as_deref(), Some("job-1"));
    assert_eq!(req.payload.message, None);
    assert_eq!(req.payload.completion_time.as_deref(), Some("2026-01-01 00:00:00"));
}

fn credentials_error(secret: Result<Vec<(String, Vec<u8>)>, String>) -> String {
    match read_s3_credentials("s3", "prod", secret) {
        Err(Error::Config(m)) => m,
        _ => panic!("credentials were read"),
    }
}

#[test]
fn credentials_need_both_keys() {
    let both = data(&[("accessKey", "a"), ("secretKey", "b")]);
    assert_eq!(
        read_s3_credentials("s3", "prod", Ok(both)).ok(),
        Some(("a".to_string(), "b".to_string()))
    );
    assert_eq!(
        credentials_error(Ok(data(&[("secretKey", "b")]))),
        "secret prod/s3 missing 'accessKey' key"
    );
    assert_eq!(
        credentials_error(Ok(data(&[("accessKey", "a")]))),
        "secret prod/s3 missing 'secretKey' key"
    );
    assert_eq!(
        credentials_error(Err("gone".to_string())),
        "reading S3 credentials secret prod/s3: gone"
    );
}
