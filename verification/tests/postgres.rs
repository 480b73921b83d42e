//! Statements sent to the database server.

use odoo_operator::error::Error;
use odoo_operator::postgres::{
    admin_connection, connection_string, create_role, owner_connection, quote_ident,
    readonly_deletion_calls, readonly_role_calls, NoopPostgresManager, PgPostgresManager,
    PostgresClusterConfig, PostgresManager, ReadonlyRoleParams, REPORT_URL_STATEMENT,
};
use odoo_operator::preview;

fn cluster() -> PostgresClusterConfig {
    PostgresClusterConfig {
        host: "pg.local".to_string(),
        port: 5432,
        admin_user: "postgres".to_string(),
        admin_password: "root".to_string(),
        default: true,
    }
}

fn readonly() -> ReadonlyRoleParams<'static> {
    ReadonlyRoleParams {
        ro_username: "ro",
        ro_password: "pw",
        owner_username: "own",
        owner_password: "opw",
        db_name: "odoo_1",
        connection_limit: 5,
    }
}

fn texts(v: &[&str]) -> Vec<String> {
    v.iter().map(|s| s.to_string()).collect()
}

#[test]
fn identifiers_are_quoted() {
    assert_eq!(quote_ident("odoo.default.x"), "\"odoo.default.x\"");
    assert_eq!(quote_ident("a\"b"), "\"a\"\"b\"");
    assert_eq!(quote_ident(""), "\"\"");
    assert_ne!(quote_ident("a\"b"), quote_ident("a\"\"b"));
}

#[test]
fn connections_are_described() {
    assert_eq!(
        admin_connection(&cluster()),
        "host=pg.local port=5432 user=postgres password=root dbname=postgres"
    );
    assert_eq!(
        connection_string(&cluster(), "u", "p", "d"),
        "host=pg.local port=5432 user=u password=p dbname=d"
    );
}

#[test]
fn roles_are_created_when_absent() {
    let m = PgPostgresManager;
    assert_eq!(
        m.ensure_role("u", "p", false, false),
        texts(&["CREATE ROLE \"u\" WITH PASSWORD 'p' CREATEDB LOGIN"])
    );
    assert_eq!(create_role("u", "p"), "CREATE ROLE \"u\" WITH PASSWORD 'p' CREATEDB LOGIN");
}

#[test]
fn passwords_are_reset_only_when_they_fail() {
    let m = PgPostgresManager;
    assert!(m.ensure_role("u", "p", true, true).is_empty());
    assert_eq!(
        m.ensure_role("u", "p", true, false),
        texts(&["ALTER ROLE \"u\" WITH PASSWORD 'p'"])
    );
}

#[test]
fn databases_go_before_their_owner() {
    let m = PgPostgresManager;
    assert_eq!(
        m.delete_role("u", true, &texts(&["d1", "d\"2"])),
        texts(&["DROP DATABASE \"d1\"", "DROP DATABASE \"d\"\"2\"", "DROP ROLE \"u\""])
    );
    assert!(m.delete_role("u", false, &texts(&["d1"])).is_empty());
}

#[test]
fn readonly_roles_get_select_only() {
    let m = PgPostgresManager;
    let made = m.ensure_readonly_role(&readonly(), false);
    assert_eq!(
        made.admin,
        texts(&[
            "CREATE ROLE \"ro\" WITH LOGIN NOSUPERUSER NOCREATEDB NOINHERIT CONNECTION LIMIT 5 PASSWORD 'pw'",
            "GRANT CONNECT ON DATABASE \"odoo_1\" TO \"ro\"",
        ])
    );
    assert_eq!(
        made.owner,
        texts(&[
            "GRANT USAGE ON SCHEMA public TO \"ro\"",
            "GRANT SELECT ON ALL TABLES IN SCHEMA public TO \"ro\"",
            "ALTER DEFAULT PRIVILEGES IN SCHEMA public GRANT SELECT ON TABLES TO \"ro\"",
        ])
    );
    let kept = m.ensure_readonly_role(&readonly(), true);
    assert_eq!(
        kept.admin[0],
        "ALTER ROLE \"ro\" WITH LOGIN NOSUPERUSER NOCREATEDB NOINHERIT CONNECTION LIMIT 5 PASSWORD 'pw'"
    );
    assert_eq!(kept.owner.len(), 3);
}

#[test]
fn readonly_roles_are_dropped_after_a_revoke() {
    let m = PgPostgresManager;
    assert_eq!(
        m.delete_readonly_role("ro", "d", true),
        texts(&["REVOKE CONNECT ON DATABASE \"d\" FROM \"ro\"", "DROP ROLE \"ro\""])
    );
    assert!(m.delete_readonly_role("ro", "d", false).is_empty());
}

#[test]
fn readonly_roles_are_granted_by_the_owner() {
    let admin = "host=pg.local port=5432 user=postgres password=root dbname=postgres";
    let owner = "host=pg.local port=5432 user=own password=opw dbname=odoo_1";
    assert_eq!(owner_connection(&cluster(), &readonly()), owner);
    let plan = PgPostgresManager.ensure_readonly_role(&readonly(), true);
    let calls = readonly_role_calls(&cluster(), &readonly(), true);
    assert_eq!(calls.len(), 5);
    for (i, call) in calls.iter().enumerate() {
        assert!(call.fatal);
        if i < 2 {
            assert_eq!(call.connection, admin);
            assert_eq!(call.statement, plan.admin[i]);
        } else {
            assert_eq!(call.connection, owner);
            assert_eq!(call.statement, plan.owner[i - 2]);
        }
    }
}

#[test]
fn a_revoke_before_a_drop_may_fail() {
    let calls = readonly_deletion_calls(&cluster(), "ro", "d", true);
    assert_eq!(calls.len(), 2);
    assert_eq!(calls[0].connection, admin_connection(&cluster()));
    assert_eq!(calls[0].statement, "REVOKE CONNECT ON DATABASE \"d\" FROM \"ro\"");
    assert!(!calls[0].fatal);
    assert_eq!(calls[1].connection, admin_connection(&cluster()));
    assert_eq!(calls[1].statement, "DROP ROLE \"ro\"");
    assert!(calls[1].fatal);
    assert!(readonly_deletion_calls(&cluster(), "ro", "d", false).is_empty());
}

#[test]
fn report_urls_are_stored() {
    let m = PgPostgresManager;
    let (statement, argument) = m.ensure_report_url("http://web:8069").unwrap();
    assert_eq!(statement, REPORT_URL_STATEMENT);
    assert_eq!(argument, "http://web:8069");
}

#[test]
fn server_versions_are_reduced_to_their_major() {
    let m = PgPostgresManager;
    assert_eq!(m.detect_server_major_version(" 160004\n").ok(), Some(16));
    assert_eq!(m.detect_server_major_version("+90600").ok(), Some(9));
    assert_eq!(m.detect_server_major_version("9999").ok(), Some(0));
}

fn version_error(raw: &str) -> String {
    match PgPostgresManager.detect_server_major_version(raw) {
        Err(Error::Config(m)) => m,
        _ => panic!("{} was read", raw),
    }
}

#[test]
fn unreadable_versions_are_reported() {
    assert_eq!(
        version_error(""),
        "could not parse server_version_num \"\": cannot parse integer from empty string"
    );
    assert_eq!(
        version_error("16.4"),
        "could not parse server_version_num \"16.4\": invalid digit found in string"
    );
    assert_eq!(
        version_error("4294967296"),
        "could not parse server_version_num \"4294967296\": number too large to fit in target type"
    );
    assert_eq!(
        version_error(" -1\n"),
        "could not parse server_version_num \" -1\\n\": invalid digit found in string"
    );
}

#[test]
fn the_noop_manager_does_nothing() {
    let m = NoopPostgresManager;
    assert!(m.ensure_role("u", "p", false, false).is_empty());
    assert!(m.delete_role("u", true, &texts(&["d"])).is_empty());
    let ro = m.ensure_readonly_role(&readonly(), false);
    assert!(ro.admin.is_empty() && ro.owner.is_empty());
    assert!(m.delete_readonly_role("ro", "d", true).is_empty());
    assert!(m.ensure_report_url("u").is_none());
    assert!(m.database_exists(false));
    assert!(!PgPostgresManager.database_exists(false));
    assert_eq!(m.detect_server_major_version("").ok(), Some(18));
}

#[test]
fn preview_roles_keep_their_password() {
    assert!(preview::postgres::ensure_role("u", "p", true).is_empty());
    assert_eq!(
        preview::postgres::ensure_role("u", "p", false),
        texts(&["CREATE ROLE \"u\" WITH PASSWORD 'p' CREATEDB LOGIN"])
    );
    assert_eq!(
        preview::postgres::delete_role("u", true, &texts(&["d"])),
        texts(&["DROP DATABASE \"d\"", "DROP ROLE \"u\""])
    );
    assert!(preview::postgres::delete_role("u", false, &texts(&["d"])).is_empty());
}
