//! Names, passwords, digests and the server's configuration file.

use odoo_operator::crd::odoo_instance::{OdooInstance, OdooInstanceSpec};
use odoo_operator::error::Error;
use odoo_operator::helpers::{
    build_odoo_conf, db_name, generate_password, odoo_username, parse_rfc3339,
    password_from_bytes, sanitise_uid, sha256_hex, utc_now_odoo, Instant, OperatorDefaults,
};
use odoo_operator::options::OptionTable;
use odoo_operator::secret_data::{bytes_of, find_text, text_or_default};
use odoo_operator::text::{comes_before, concat4, int_to_string, join, same_text, trim_chars};

fn instance(uid: Option<&str>) -> OdooInstance {
    let mut inst = OdooInstance::new("prod", OdooInstanceSpec::minimal("pw", 1, vec![]));
    inst.metadata.uid = uid.map(|u| u.to_string());
    inst
}

#[test]
fn usernames_join_namespace_and_name() {
    assert_eq!(odoo_username("default", "prod"), "odoo.default.prod");
}

#[test]
fn uids_are_sanitised() {
    assert_eq!(sanitise_uid("1234-ABCD-ef.é"), "1234______ef__");
    assert_eq!(sanitise_uid(""), "");
    let once = sanitise_uid("A-b_9");
    assert_eq!(once, "__b_9");
    assert_eq!(sanitise_uid(&once), once);
    assert_eq!(sanitise_uid("abc123"), "abc123");
}

#[test]
fn databases_are_named_after_the_uid() {
    assert_eq!(db_name(&instance(Some("3f2a-01"))), "odoo_3f2a_01");
    assert_eq!(db_name(&instance(None)), "odoo_unknown");
}

#[test]
fn passwords_are_hexadecimal() {
    assert_eq!(password_from_bytes(&[0, 1, 15, 16, 171, 255]), "00010f10abff");
    let a = generate_password();
    let b = generate_password();
    assert_eq!(a.len(), 48);
    assert!(a.chars().all(|c| c.is_ascii_digit() || ('a'..='f').contains(&c)));
    assert_ne!(a, b);
}

#[test]
fn digests_are_those_of_sha256() {
    assert_eq!(
        sha256_hex(""),
        "e3b0c44298fc1c149afbf4c8996fb92427ae41e4649b934ca495991b7852b855"
    );
    assert_eq!(
        sha256_hex("abc"),
        "ba7816bf8f01cfea414140de5dae2223b00361a396177a9cb410ff61f20015ad"
    );
}

#[test]
fn the_clock_is_written_in_a_fixed_shape() {
    let now = utc_now_odoo();
    assert_eq!(now.len(), 19);
    for (i, c) in now.chars().enumerate() {
        match i {
            4 | 7 => assert_eq!(c, '-'),
            10 => assert_eq!(c, ' '),
            13 | 16 => assert_eq!(c, ':'),
            _ => assert!(c.is_ascii_digit()),
        }
    }
}

#[test]
fn timestamps_are_read() {
    assert_eq!(
        parse_rfc3339("1970-01-01T00:00:01Z"),
        Some(Instant { secs: 1, nanos: 0 })
    );
    assert_eq!(
        parse_rfc3339("2026-01-01T02:00:00.5+02:00"),
        Some(Instant { secs: 1767225600, nanos: 500_000_000 })
    );
    assert_eq!(parse_rfc3339("2026-01-01"), None);
    assert_eq!(parse_rfc3339(""), None);
}

#[test]
fn instants_are_ordered_and_subtracted() {
    let a = Instant { secs: 10, nanos: 5 };
    let b = Instant { secs: 11, nanos: 4 };
    assert!(a.is_not_after(&b));
    assert!(a.is_not_after(&a));
    assert!(!b.is_not_after(&a));
    assert_eq!(b.since(&a), 999_999_999);
    assert_eq!(a.since(&b), -999_999_999);
}

#[test]
fn operator_defaults_start_empty() {
    let d = OperatorDefaults::default();
    assert_eq!(d.odoo_image, "");
    assert_eq!(d.storage_class, "");
    assert_eq!(d.storage_size, "");
    assert_eq!(d.ingress_class, "");
    assert_eq!(d.ingress_issuer, "");
    assert!(d.resources.is_none());
    assert!(d.affinity.is_none());
    assert!(d.tolerations.is_empty());
}

#[test]
fn configuration_files_list_standard_keys_first() {
    let conf = build_odoo_conf("u", "p", "", "pg.local", 5432, "odoo_x", &None);
    assert_eq!(
        conf,
        "[options]\n\
         data_dir = /var/lib/odoo\n\
         logfile = \n\
         log_level = info\n\
         proxy_mode = True\n\
         addons_path = /opt/odoo/addons,/opt/odoo/odoo/addons,/mnt/extra-addons\n\
         db_host = pg.local\n\
         db_port = 5432\n\
         db_name = odoo_x\n\
         db_user = u\n\
         db_password = p\n\
         list_db = False\n\
         http_interface = 0.0.0.0\n\
         http_port = 8069\n"
    );
}

#[test]
fn extra_entries_replace_and_follow() {
    let extra = Some(vec![
        ("workers".to_string(), "4".to_string()),
        ("addons_path".to_string(), "".to_string()),
        ("limit_time".to_string(), "60".to_string()),
        ("http_port".to_string(), "80".to_string()),
    ]);
    let conf = build_odoo_conf("u", "p", "secret", "h", -1, "d", &extra);
    assert_eq!(
        conf,
        "[options]\n\
         data_dir = /var/lib/odoo\n\
         logfile = \n\
         log_level = info\n\
         proxy_mode = True\n\
         addons_path = /opt/odoo/addons,/opt/odoo/odoo/addons\n\
         db_host = h\n\
         db_port = -1\n\
         db_name = d\n\
         db_user = u\n\
         db_password = p\n\
         list_db = False\n\
         http_interface = 0.0.0.0\n\
         http_port = 80\n\
         admin_passwd = secret\n\
         limit_time = 60\n\
         workers = 4\n"
    );
}

#[test]
fn option_tables_keep_one_value_per_key() {
    let mut t = OptionTable::new();
    t.insert("b", "1".to_string());
    t.insert("a", "2".to_string());
    t.insert("b", "3".to_string());
    assert_eq!(t.len(), 2);
    assert_eq!(t.entry(0), ("a", "2"));
    assert_eq!(t.entry(1), ("b", "3"));
    assert_eq!(t.get("b").as_deref(), Some("3"));
    assert_eq!(t.get("c"), None);
}

#[test]
fn secret_values_are_decoded_with_replacement() {
    let data = vec![
        ("user".to_string(), b"odoo".to_vec()),
        ("broken".to_string(), vec![b'a', 0xff, b'b']),
        ("user".to_string(), b"second".to_vec()),
    ];
    assert_eq!(find_text(&data, "user").as_deref(), Some("odoo"));
    assert_eq!(find_text(&data, "broken").as_deref(), Some("a\u{fffd}b"));
    assert_eq!(find_text(&data, "none"), None);
    assert_eq!(text_or_default(&data, "none"), "");
    assert_eq!(bytes_of(&data, "broken"), Some(&vec![b'a', 0xff, b'b']));
}

#[test]
fn errors_read_as_sentences() {
    assert_eq!(Error::config("no default").message(), "Configuration error: no default");
    assert_eq!(Error::reconcile("later").message(), "Reconcile error: later");
    assert_eq!(Error::Kube("x".to_string()).message(), "Kubernetes API error: x");
    assert_eq!(Error::Postgres("x".to_string()).message(), "PostgreSQL error: x");
    assert_eq!(Error::Serde("x".to_string()).message(), "Serialization error: x");
    assert_eq!(Error::Yaml("x".to_string()).message(), "YAML parse error: x");
    assert_eq!(Error::Http("x".to_string()).message(), "HTTP error: x");
    assert_eq!(Error::NotFound("x".to_string()).message(), "Resource not found: x");
    assert_eq!(Error::Finalizer("x".to_string()).message(), "Finalizer error: x");
}

#[test]
fn texts_are_handled_by_characters() {
    assert_eq!(int_to_string(0), "0");
    assert_eq!(int_to_string(-42), "-42");
    assert_eq!(int_to_string(i64::MIN), "-9223372036854775808");
    assert_eq!(join(&vec!["a".to_string(), "b".to_string()], ","), "a,b");
    assert_eq!(join(&vec![], ","), "");
    assert_eq!(concat4("a", "é", "", "b"), "aéb");
    assert!(same_text("ü", "ü"));
    assert!(!same_text("u", "ü"));
    assert!(comes_before("a", "ab"));
    assert!(comes_before("B", "a"));
    assert!(!comes_before("a", "a"));
    assert_eq!(trim_chars("\u{2003} x y\t\n"), vec!['x', ' ', 'y']);
}

#[test]
fn users_are_not_shared() {
    assert_ne!(odoo_username("erp", "prod"), odoo_username("erp", "test"));
    assert_ne!(odoo_username("erp", "prod"), odoo_username("crm", "prod"));
    assert_ne!(odoo_username("a", "b.c"), odoo_username("b", "c"));
}
