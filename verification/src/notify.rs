//! Notifications about finished jobs, and the credentials they need.

use vstd::prelude::*;

use crate::crd::meta::{clone_opt, opt_text};
use crate::crd::shared::{Phase, WebhookConfig};
use crate::error::Error;
use crate::secret_data::{bytes_under, find_text, lossy_text};
use crate::text::concat4;

verus! {

/// The body of a notification.  What is missing is left out.
#[derive(Clone, Debug)]
pub struct WebhookPayload {
    pub phase: Phase,
    pub job_name: Option<String>,
    pub message: Option<String>,
    pub completion_time: Option<String>,
}

/// A notification: where it goes, what it says and with which token.
#[derive(Clone, Debug)]
pub struct WebhookRequest {
    pub url: String,
    pub token: Option<String>,
    pub payload: WebhookPayload,
}

/// The token that is written in a configuration, unless it is empty.
pub open spec fn inline_token(wh: WebhookConfig) -> Option<String> {
    match wh.token {
        Some(t) => if t@.len() > 0 {
            Some(t)
        } else {
            None
        },
        None => None,
    }
}

/// The Secret and the key to read the token from, if it is not written in the
/// configuration.
pub fn token_secret(wh: &WebhookConfig) -> (r: Option<(String, String)>)
    ensures
        match r {
            Some((name, key)) => inline_token(*wh) is None && (wh.secret_token_secret_ref matches
                Some(k) && name == k.name && key == k.key),
            None => inline_token(*wh) is Some || wh.secret_token_secret_ref is None,
        },
{
    if let Some(t) = &wh.token {
        if !t.as_str().is_empty() {
            return None;
        }
    }
    match &wh.secret_token_secret_ref {
        Some(k) => Some((k.name.clone(), k.key.clone())),
        None => None,
    }
}

/// The token of a notification: the one in the configuration, else the one in
/// the Secret, of which `data` is what it holds, if it could be read.
pub open spec fn resolved_token(
    wh: WebhookConfig,
    data: Option<Vec<(String, Vec<u8>)>>,
) -> Option<Seq<char>> {
    match inline_token(wh) {
        Some(t) => Some(t@),
        None => match wh.secret_token_secret_ref {
            Some(k) => match data {
                Some(d) => match bytes_under(d@, k.key@) {
                    Some(b) => Some(lossy_text(b)),
                    None => None,
                },
                None => None,
            },
            None => None,
        },
    }
}

/// The token of a notification.
pub fn resolve_token(wh: &WebhookConfig, data: &Option<Vec<(String, Vec<u8>)>>) -> (r: Option<
    String,
>)
    ensures
        opt_text(r) == resolved_token(*wh, *data),
{
    if let Some(t) = &wh.token {
        if !t.as_str().is_empty() {
            return Some(t.clone());
        }
    }
    match &wh.secret_token_secret_ref {
        Some(k) => match data {
            Some(d) => find_text(d, k.key.as_str()),
            None => None,
        },
        None => None,
    }
}

/// A notification about the end of a job.
pub fn notify_job_webhook(
    webhook: &WebhookConfig,
    data: &Option<Vec<(String, Vec<u8>)>>,
    phase: Phase,
    job_name: &Option<String>,
    message: &Option<String>,
    completion_time: &Option<String>,
) -> (r: WebhookRequest)
    ensures
        r.url@ == webhook.url@,
        opt_text(r.token) == resolved_token(*webhook, *data),
        r.payload.phase == phase,
        r.payload.job_name == *job_name,
        r.payload.message == *message,
        r.payload.completion_time == *completion_time,
{
    WebhookRequest {
        url: webhook.url.clone(),
        token: resolve_token(webhook, data),
        payload: WebhookPayload {
            phase,
            job_name: clone_opt(job_name),
            message: clone_opt(message),
            completion_time: clone_opt(completion_time),
        },
    }
}

/// What is said of a Secret without one of the keys.
pub open spec fn missing_key_text(ns: Seq<char>, name: Seq<char>, key: Seq<char>) -> Seq<char> {
    "secret "@ + ns + "/"@ + name + " missing '"@ + key + "' key"@
}

fn missing_key(ns: &str, name: &str, key: &str) -> (r: Error)
    ensures
        r is Config,
        r.detail() == missing_key_text(ns@, name@, key@),
{
    let mut m = concat4("secret ", ns, "/", name);
    m.append(" missing '");
    m.append(key);
    m.append("' key");
    Error::config(m.as_str())
}

/// The access key and the secret key that a Secret holds, given what it holds or
/// why it could not be read.
pub fn read_s3_credentials(
    secret_name: &str,
    secret_namespace: &str,
    secret: Result<Vec<(String, Vec<u8>)>, String>,
) -> (r: Result<(String, String), Error>)
    ensures
        match secret {
            Err(e) => r matches Err(x) && x is Config && x.detail()
                == "reading S3 credentials secret "@ + secret_namespace@ + "/"@ + secret_name@
                + ": "@ + e@,
            Ok(data) => match bytes_under(data@, "accessKey"@) {
                None => r matches Err(x) && x is Config && x.detail() == missing_key_text(
                    secret_namespace@,
                    secret_name@,
                    "accessKey"@,
                ),
                Some(a) => match bytes_under(data@, "secretKey"@) {
                    None => r matches Err(x) && x is Config && x.detail() == missing_key_text(
                        secret_namespace@,
                        secret_name@,
                        "secretKey"@,
                    ),
                    Some(s) => r matches Ok(c) && c.0@ == lossy_text(a) && c.1@ == lossy_text(s),
                },
            },
        },
{
    let data = match secret {
        Err(e) => {
            let mut m = concat4(
                "reading S3 credentials secret ",
                secret_namespace,
                "/",
                secret_name,
            );
            m.append(": ");
            m.append(e.as_str());
            return Err(Error::config(m.as_str()));
        },
        Ok(d) => d,
    };
    let access_key = match find_text(&data, "accessKey") {
        Some(a) => a,
        None => return Err(missing_key(secret_namespace, secret_name, "accessKey")),
    };
    let secret_key = match find_text(&data, "secretKey") {
        Some(s) => s,
        None => return Err(missing_key(secret_namespace, secret_name, "secretKey")),
    };
    Ok((access_key, secret_key))
}

// ── What notifications are for ───────────────────────────────────────────────

/// A notification goes to the address of the webhook and says what it is given.
pub proof fn law_notifications_say_what_happened(
    webhook: &WebhookConfig,
    data: &Option<Vec<(String, Vec<u8>)>>,
    phase: Phase,
    job_name: &Option<String>,
    message: &Option<String>,
    completion_time: &Option<String>,
    r: WebhookRequest,
)
    requires
        call_ensures(
            notify_job_webhook,
            (webhook, data, phase, job_name, message, completion_time),
            r,
        ),
    ensures
        r.url@ == webhook.url@,
        r.payload.phase == phase,
        r.payload.job_name == *job_name,
        r.payload.message == *message,
        r.payload.completion_time == *completion_time,
        webhook.token matches Some(t) ==> t@.len() > 0 ==> (r.token matches Some(k) && k@ == t@),
{
}

/// A token that is written in the configuration counts before one in a Secret; the
/// Secret is read only where none is written, under the key that the configuration
/// names.
pub proof fn law_written_tokens_count_first(
    wh: &WebhookConfig,
    data: &Option<Vec<(String, Vec<u8>)>>,
    place: Option<(String, String)>,
    r: Option<String>,
)
    requires
        call_ensures(token_secret, (wh,), place),
        call_ensures(resolve_token, (wh, data), r),
    ensures
        ({
            let written = wh.token matches Some(t) && t@.len() > 0;
            &&& written ==> place is None && (r matches Some(k) && k@ == wh.token->0@)
            &&& !written && wh.secret_token_secret_ref is None ==> place is None && r is None
            &&& !written ==> (wh.secret_token_secret_ref matches Some(s) ==> {
                &&& place matches Some((name, key))
                &&& name@ == s.name@
                &&& key@ == s.key@
                &&& *data is None ==> r is None
                &&& *data matches Some(d) ==> match bytes_under(d@, s.key@) {
                    Some(b) => r matches Some(k) && k@ == lossy_text(b),
                    None => r is None,
                }
            })
        }),
{
}

/// The access to an object store is the pair under `accessKey` and `secretKey`, and
/// there is none where either is missing or the Secret cannot be read.
pub proof fn law_access_is_a_pair_of_keys(
    secret_name: &str,
    secret_namespace: &str,
    secret: Result<Vec<(String, Vec<u8>)>, String>,
    r: Result<(String, String), Error>,
)
    requires
        call_ensures(read_s3_credentials, (secret_name, secret_namespace, secret), r),
    ensures
        r is Ok <==> (secret matches Ok(d) && bytes_under(d@, "accessKey"@) is Some && bytes_under(
            d@,
            "secretKey"@,
        ) is Some),
        r matches Ok((access, hidden)) ==> {
            &&& access@ == lossy_text(bytes_under(secret->Ok_0@, "accessKey"@)->0)
            &&& hidden@ == lossy_text(bytes_under(secret->Ok_0@, "secretKey"@)->0)
        },
        r matches Err(e) ==> e is Config,
{
}

/// What keeps the access to an object store from being read is told: the Secret and why it
/// could not be read, or the key that it lacks.
pub proof fn law_missing_access_is_explained(
    secret_name: &str,
    secret_namespace: &str,
    secret: Result<Vec<(String, Vec<u8>)>, String>,
    r: Result<(String, String), Error>,
)
    requires
        call_ensures(read_s3_credentials, (secret_name, secret_namespace, secret), r),
    ensures
        secret matches Err(e) ==> (r matches Err(x) && x.detail()
            == "reading S3 credentials secret "@ + secret_namespace@ + "/"@ + secret_name@ + ": "@
            + e@),
        secret matches Ok(d) ==> {
            &&& bytes_under(d@, "accessKey"@) is None ==> (r matches Err(x) && x.detail()
                == "secret "@ + secret_namespace@ + "/"@ + secret_name@ + " missing '"@
                + "accessKey"@ + "' key"@)
            &&& bytes_under(d@, "accessKey"@) is Some && bytes_under(d@, "secretKey"@) is None ==> (
            r matches Err(x) && x.detail() == "secret "@ + secret_namespace@ + "/"@ + secret_name@
                + " missing '"@ + "secretKey"@ + "' key"@)
        },
{
}

} // verus!
