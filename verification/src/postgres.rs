//! Roles and databases on the PostgreSQL clusters: which statements are due.

use vstd::prelude::*;

use crate::error::Error;
use crate::text::{
    chars_of, concat2, concat3, concat4, debug_quoted, debug_text, int_text, int_to_string, texts,
    trim_chars, trimmed,
};

verus! {

// ── Clusters ─────────────────────────────────────────────────────────────────

/// One cluster of the configuration.
#[derive(Clone, Debug)]
pub struct PostgresClusterConfig {
    pub host: String,
    pub port: i32,
    pub admin_user: String,
    pub admin_password: String,
    pub default: bool,
}

impl PostgresClusterConfig {
    /// A copy of the configuration.
    pub fn copied(&self) -> (r: Self)
        ensures
            r == *self,
    {
        PostgresClusterConfig {
            host: self.host.clone(),
            port: self.port,
            admin_user: self.admin_user.clone(),
            admin_password: self.admin_password.clone(),
            default: self.default,
        }
    }
}

/// How a client connects to a database of a cluster.
pub open spec fn connection_text(
    pg: PostgresClusterConfig,
    user: Seq<char>,
    password: Seq<char>,
    db: Seq<char>,
) -> Seq<char> {
    "host="@ + pg.host@ + " port="@ + int_text(pg.port as int) + " user="@ + user + " password="@
        + password + " dbname="@ + db
}

/// How a user connects to a database of a cluster.
pub fn connection_string(
    pg: &PostgresClusterConfig,
    user: &str,
    password: &str,
    db: &str,
) -> (r: String)
    ensures
        r@ == connection_text(*pg, user@, password@, db@),
{
    let mut out = "host=".to_owned();
    out.append(pg.host.as_str());
    out.append(" port=");
    out.append(int_to_string(pg.port as i64).as_str());
    out.append(" user=");
    out.append(user);
    out.append(" password=");
    out.append(password);
    out.append(" dbname=");
    out.append(db);
    out
}

/// How the administrator connects to a cluster.
pub fn admin_connection(pg: &PostgresClusterConfig) -> (r: String)
    ensures
        r@ == connection_text(*pg, pg.admin_user@, pg.admin_password@, "postgres"@),
{
    connection_string(pg, pg.admin_user.as_str(), pg.admin_password.as_str(), "postgres")
}

// ── Identifiers ──────────────────────────────────────────────────────────────

/// `s` with each double quote doubled.
pub open spec fn doubled_quotes(s: Seq<char>) -> Seq<char>
    decreases s.len(),
{
    if s.len() == 0 {
        Seq::empty()
    } else if s.last() == '"' {
        doubled_quotes(s.drop_last()).push('"').push('"')
    } else {
        doubled_quotes(s.drop_last()).push(s.last())
    }
}

/// An SQL identifier in quotes.
pub open spec fn quoted(s: Seq<char>) -> Seq<char> {
    seq!['"'] + doubled_quotes(s) + seq!['"']
}

/// Quotes an SQL identifier: wraps it in double quotes and doubles those that it
/// holds.
pub fn quote_ident(ident: &str) -> (r: String)
    ensures
        r@ == quoted(ident@),
{
    let chars = chars_of(ident);
    let mut out = String::new();
    out.push('"');
    let mut i: usize = 0;
    assert(out@ =~= seq!['"'] + doubled_quotes(ident@.take(0)));
    while i < chars.len()
        invariant
            i <= chars.len(),
            chars@ == ident@,
            out@ == seq!['"'] + doubled_quotes(ident@.take(i as int)),
        decreases chars.len() - i,
    {
        let c: char = chars[i];
        if c == '"' {
            out.push('"');
        }
        out.push(c);
        proof {
            let t = ident@.take(i + 1);
            assert(t.drop_last() == ident@.take(i as int));
            assert(t.last() == c);
            assert(out@ =~= seq!['"'] + doubled_quotes(t));
        }
        i += 1;
    }
    assert(ident@.take(i as int) == ident@);
    out.push('"');
    assert(out@ =~= quoted(ident@));
    out
}

/// Different identifiers stay different when they are quoted.
pub proof fn law_quoting_is_injective(a: Seq<char>, b: Seq<char>)
    requires
        quoted(a) == quoted(b),
    ensures
        a == b,
{
    let x = doubled_quotes(a);
    let y = doubled_quotes(b);
    assert(x =~= quoted(a).subrange(1, quoted(a).len() - 1));
    assert(y =~= quoted(b).subrange(1, quoted(b).len() - 1));
    lemma_doubling_is_injective(a, b);
}

proof fn lemma_doubling_is_injective(a: Seq<char>, b: Seq<char>)
    requires
        doubled_quotes(a) == doubled_quotes(b),
    ensures
        a == b,
    decreases a.len(),
{
    let x = doubled_quotes(a);
    if a.len() == 0 {
        if b.len() > 0 {
            assert(doubled_quotes(b).len() > 0);
        }
        assert(a =~= b);
    } else {
        assert(x.len() > 0);
        assert(b.len() > 0);
        let a1 = a.drop_last();
        let b1 = b.drop_last();
        assert(a.last() == '"' <==> x.last() == '"');
        assert(b.last() == '"' <==> x.last() == '"');
        if a.last() == '"' {
            assert(doubled_quotes(a1) =~= x.take(x.len() - 2));
            assert(doubled_quotes(b1) =~= x.take(x.len() - 2));
        } else {
            assert(a.last() == x.last() && b.last() == x.last());
            assert(doubled_quotes(a1) =~= x.take(x.len() - 1));
            assert(doubled_quotes(b1) =~= x.take(x.len() - 1));
        }
        lemma_doubling_is_injective(a1, b1);
        assert(a =~= a1.push(a.last()));
        assert(b =~= b1.push(b.last()));
    }
}

/// How many double quotes a text holds.
pub open spec fn quote_count(s: Seq<char>) -> nat
    decreases s.len(),
{
    if s.len() == 0 {
        0
    } else {
        quote_count(s.drop_last()) + if s.last() == '"' {
            1nat
        } else {
            0nat
        }
    }
}

/// Before any character of the identifier that is no quote, an even number of
/// quotes stands inside the quoted form: nothing in an identifier can end it.
pub proof fn law_identifier_cannot_end_early(s: Seq<char>, i: int)
    requires
        0 <= i < doubled_quotes(s).len(),
        doubled_quotes(s)[i] != '"',
    ensures
        quote_count(doubled_quotes(s).take(i)) % 2 == 0,
    decreases s.len(),
{
    let x = doubled_quotes(s);
    if s.len() > 0 {
        let t = s.drop_last();
        let y = doubled_quotes(t);
        if i < y.len() {
            assert(x.take(i) =~= y.take(i));
            assert(x[i] == y[i]);
            law_identifier_cannot_end_early(t, i);
        } else {
            assert(s.last() != '"');
            assert(x.take(i) =~= y);
            lemma_quotes_even(t);
        }
    }
}

proof fn lemma_quotes_even(s: Seq<char>)
    ensures
        quote_count(doubled_quotes(s)) % 2 == 0,
    decreases s.len(),
{
    if s.len() > 0 {
        let t = s.drop_last();
        lemma_quotes_even(t);
        let y = doubled_quotes(t);
        if s.last() == '"' {
            let z = y.push('"');
            assert(z.drop_last() =~= y);
            assert(z.push('"').drop_last() =~= z);
            assert(quote_count(z) == quote_count(y) + 1);
            assert(quote_count(z.push('"')) == quote_count(y) + 2);
        } else {
            assert(y.push(s.last()).drop_last() =~= y);
        }
    }
}

// ── Statements ───────────────────────────────────────────────────────────────

/// The query that tells whether a role exists.
pub const ROLE_EXISTS_QUERY: &'static str =
    "SELECT EXISTS(SELECT 1 FROM pg_roles WHERE rolname = $1)";

/// The query that tells whether a database exists.
pub const DATABASE_EXISTS_QUERY: &'static str =
    "SELECT EXISTS(SELECT 1 FROM pg_database WHERE datname = $1)";

/// The query for the databases that a role owns.
pub const OWNED_DATABASES_QUERY: &'static str =
    "SELECT d.datname FROM pg_database d JOIN pg_roles r ON d.datdba = r.oid WHERE r.rolname = $1 AND d.datistemplate = false";

/// The statement that sets the address at which reports are rendered, where it
/// differs.
pub const REPORT_URL_STATEMENT: &'static str =
    "INSERT INTO ir_config_parameter (key, value, create_uid, create_date, write_uid, write_date) VALUES ('report.url', $1, 1, now() AT TIME ZONE 'UTC', 1, now() AT TIME ZONE 'UTC') ON CONFLICT (key) DO UPDATE SET value = $1, write_uid = 1, write_date = now() AT TIME ZONE 'UTC' WHERE ir_config_parameter.value IS DISTINCT FROM $1";

/// Sets the password of a role.
pub open spec fn alter_role_text(username: Seq<char>, password: Seq<char>) -> Seq<char> {
    "ALTER ROLE "@ + quoted(username) + " WITH PASSWORD '"@ + password + "'"@
}

/// Creates a role that may create databases.
pub open spec fn create_role_text(username: Seq<char>, password: Seq<char>) -> Seq<char> {
    "CREATE ROLE "@ + quoted(username) + " WITH PASSWORD '"@ + password + "' CREATEDB LOGIN"@
}

/// What a read-only role may do.
pub open spec fn readonly_options(limit: int, password: Seq<char>) -> Seq<char> {
    " WITH LOGIN NOSUPERUSER NOCREATEDB NOINHERIT CONNECTION LIMIT "@ + int_text(limit)
        + " PASSWORD '"@ + password + "'"@
}

fn alter_role(username: &str, password: &str) -> (r: String)
    ensures
        r@ == alter_role_text(username@, password@),
{
    let user = quote_ident(username);
    let mut out = concat4("ALTER ROLE ", user.as_str(), " WITH PASSWORD '", password);
    out.append("'");
    out
}

/// Creates a role that may create databases.
pub fn create_role(username: &str, password: &str) -> (r: String)
    ensures
        r@ == create_role_text(username@, password@),
{
    let user = quote_ident(username);
    let mut out = concat4("CREATE ROLE ", user.as_str(), " WITH PASSWORD '", password);
    out.append("' CREATEDB LOGIN");
    out
}

/// The values with which a read-only role is provisioned.
pub struct ReadonlyRoleParams<'a> {
    pub ro_username: &'a str,
    pub ro_password: &'a str,
    pub owner_username: &'a str,
    pub owner_password: &'a str,
    pub db_name: &'a str,
    pub connection_limit: i32,
}

/// The statements that provision a read-only role: first those of the
/// administrator, then those of the owner of the database.
#[derive(Clone, Debug)]
pub struct ReadonlyStatements {
    pub admin: Vec<String>,
    pub owner: Vec<String>,
}

/// The statements of the administrator for a read-only role: the role is created
/// or brought up to date, then it may connect.
pub open spec fn readonly_admin_texts(p: ReadonlyRoleParams, exists: bool) -> Seq<Seq<char>> {
    let verb = if exists {
        "ALTER ROLE "@
    } else {
        "CREATE ROLE "@
    };
    seq![
        verb + quoted(p.ro_username@) + readonly_options(p.connection_limit as int, p.ro_password@),
        "GRANT CONNECT ON DATABASE "@ + quoted(p.db_name@) + " TO "@ + quoted(p.ro_username@),
    ]
}

/// The statements of the owner for a read-only role: it may read what is there
/// and what will be.
pub open spec fn readonly_owner_texts(p: ReadonlyRoleParams) -> Seq<Seq<char>> {
    seq![
        "GRANT USAGE ON SCHEMA public TO "@ + quoted(p.ro_username@),
        "GRANT SELECT ON ALL TABLES IN SCHEMA public TO "@ + quoted(p.ro_username@),
        "ALTER DEFAULT PRIVILEGES IN SCHEMA public GRANT SELECT ON TABLES TO "@ + quoted(
            p.ro_username@,
        ),
    ]
}

// ── Server version ───────────────────────────────────────────────────────────

/// The value of a decimal digit.
pub open spec fn digit_value(c: char) -> int {
    c as int - '0' as int
}

/// Reads digits into a 32-bit number, or tells why that is not possible.
pub open spec fn digits_to_u32(acc: nat, s: Seq<char>) -> Result<nat, Seq<char>>
    decreases s.len(),
{
    if s.len() == 0 {
        Ok(acc)
    } else if !('0' <= s[0] <= '9') {
        Err("invalid digit found in string"@)
    } else if acc * 10 + digit_value(s[0]) > u32::MAX {
        Err("number too large to fit in target type"@)
    } else {
        digits_to_u32((acc * 10 + digit_value(s[0])) as nat, s.drop_first())
    }
}

/// A 32-bit number from its decimal form, with an optional plus sign.
pub open spec fn parsed_u32(s: Seq<char>) -> Result<nat, Seq<char>> {
    if s.len() == 0 {
        Err("cannot parse integer from empty string"@)
    } else if s[0] == '+' && s.len() > 1 {
        digits_to_u32(0, s.drop_first())
    } else {
        digits_to_u32(0, s)
    }
}

fn parse_u32(s: &Vec<char>) -> (r: Result<u32, &'static str>)
    ensures
        match r {
            Ok(v) => parsed_u32(s@) == Ok::<nat, Seq<char>>(v as nat),
            Err(e) => parsed_u32(s@) == Err::<nat, Seq<char>>(e@),
        },
{
    if s.len() == 0 {
        return Err("cannot parse integer from empty string");
    }
    let mut i: usize = if s[0] == '+' && s.len() > 1 {
        1
    } else {
        0
    };
    let mut acc: u64 = 0;
    assert(s@.skip(0) == s@);
    assert(s@.skip(1) == s@.drop_first());
    while i < s.len()
        invariant
            i <= s.len(),
            acc <= u32::MAX,
            parsed_u32(s@) == digits_to_u32(acc as nat, s@.skip(i as int)),
        decreases s.len() - i,
    {
        let c: char = s[i];
        assert(s@.skip(i as int)[0] == c);
        assert(s@.skip(i as int).drop_first() == s@.skip(i + 1));
        if !('0' <= c && c <= '9') {
            return Err("invalid digit found in string");
        }
        let v: u64 = acc * 10 + (c as u32 - 48) as u64;
        if v > 0xFFFF_FFFF {
            return Err("number too large to fit in target type");
        }
        acc = v;
        i += 1;
    }
    assert(s@.skip(i as int).len() == 0);
    Ok(acc as u32)
}

/// The major version that `server_version_num` stands for, or what is wrong with
/// it.
pub open spec fn major_version(raw: Seq<char>) -> Result<nat, Seq<char>> {
    match parsed_u32(trimmed(raw)) {
        Ok(n) => Ok(n / 10000),
        Err(e) => Err("could not parse server_version_num "@ + debug_text(raw) + ": "@ + e),
    }
}

// ── Managers ─────────────────────────────────────────────────────────────────

/// What is done about the roles of an instance: which statements are due, given
/// what the server says.
pub trait PostgresManager: Sized {
    /// The statements that make a role usable with a password.
    spec fn role_plan(
        &self,
        username: Seq<char>,
        password: Seq<char>,
        exists: bool,
        authenticates: bool,
    ) -> Seq<Seq<char>>;

    /// The statements that delete a role and what it owns.
    spec fn deletion_plan(
        &self,
        username: Seq<char>,
        exists: bool,
        databases: Seq<Seq<char>>,
    ) -> Seq<Seq<char>>;

    /// The statements that provision a read-only role.
    spec fn readonly_plan(&self, p: ReadonlyRoleParams, exists: bool) -> (
        Seq<Seq<char>>,
        Seq<Seq<char>>,
    );

    /// The statements that delete a read-only role.
    spec fn readonly_deletion_plan(
        &self,
        username: Seq<char>,
        db: Seq<char>,
        exists: bool,
    ) -> Seq<Seq<char>>;

    /// The statement that sets the address at which reports are rendered, and
    /// its argument, if it is set at all.
    spec fn report_url_plan(&self, url: Seq<char>) -> Option<(Seq<char>, Seq<char>)>;

    /// Whether a database counts as existing.
    spec fn exists_answer(&self, found: bool) -> bool;

    /// The major version of a server.
    spec fn version_answer(&self, raw: Seq<char>) -> Result<nat, Seq<char>>;

    /// The statements that make a role usable with a password.
    fn ensure_role(
        &self,
        username: &str,
        password: &str,
        exists: bool,
        authenticates: bool,
    ) -> (r: Vec<String>)
        ensures
            texts(r@) == self.role_plan(username@, password@, exists, authenticates),
    ;

    /// The statements that delete a role and what it owns.
    fn delete_role(&self, username: &str, exists: bool, databases: &Vec<String>) -> (r: Vec<String>)
        ensures
            texts(r@) == self.deletion_plan(username@, exists, texts(databases@)),
    ;

    /// The statements that provision a read-only role.
    fn ensure_readonly_role(&self, p: &ReadonlyRoleParams<'_>, exists: bool) -> (r:
        ReadonlyStatements)
        ensures
            (texts(r.admin@), texts(r.owner@)) == self.readonly_plan(*p, exists),
    ;

    /// The statements that delete a read-only role; the first one may fail.
    fn delete_readonly_role(&self, ro_username: &str, db_name: &str, exists: bool) -> (r: Vec<
        String,
    >)
        ensures
            texts(r@) == self.readonly_deletion_plan(ro_username@, db_name@, exists),
    ;

    /// The statement that sets the address at which reports are rendered, and
    /// its argument, if it is set at all.
    fn ensure_report_url(&self, report_url: &str) -> (r: Option<(String, String)>)
        ensures
            match r {
                Some((statement, argument)) => self.report_url_plan(report_url@) == Some(
                    (statement@, argument@),
                ),
                None => self.report_url_plan(report_url@) is None,
            },
    ;

    /// Whether a database counts as existing, given what the server says.
    fn database_exists(&self, found: bool) -> (r: bool)
        ensures
            r == self.exists_answer(found),
    ;

    /// The major version of a server, given its `server_version_num`.
    fn detect_server_major_version(&self, raw: &str) -> (r: Result<u32, Error>)
        ensures
            match r {
                Ok(v) => self.version_answer(raw@) == Ok::<nat, Seq<char>>(v as nat),
                Err(e) => e is Config && self.version_answer(raw@) == Err::<nat, Seq<char>>(
                    e.detail(),
                ),
            },
    ;
}

/// The manager that talks to a server.
pub struct PgPostgresManager;

/// A manager that does nothing, for tests.
pub struct NoopPostgresManager;

/// The statements that drop databases.
pub open spec fn drop_database_texts(databases: Seq<Seq<char>>) -> Seq<Seq<char>> {
    databases.map_values(|d: Seq<char>| "DROP DATABASE "@ + quoted(d))
}

fn no_statements() -> (r: Vec<String>)
    ensures
        texts(r@) == Seq::<Seq<char>>::empty(),
{
    let r: Vec<String> = Vec::new();
    assert(texts(r@) =~= Seq::<Seq<char>>::empty());
    r
}

impl PostgresManager for PgPostgresManager {
    open spec fn role_plan(
        &self,
        username: Seq<char>,
        password: Seq<char>,
        exists: bool,
        authenticates: bool,
    ) -> Seq<Seq<char>> {
        if exists && authenticates {
            Seq::empty()
        } else if exists {
            seq![alter_role_text(username, password)]
        } else {
            seq![create_role_text(username, password)]
        }
    }

    open spec fn deletion_plan(
        &self,
        username: Seq<char>,
        exists: bool,
        databases: Seq<Seq<char>>,
    ) -> Seq<Seq<char>> {
        if exists {
            drop_database_texts(databases).push("DROP ROLE "@ + quoted(username))
        } else {
            Seq::empty()
        }
    }

    open spec fn readonly_plan(&self, p: ReadonlyRoleParams, exists: bool) -> (
        Seq<Seq<char>>,
        Seq<Seq<char>>,
    ) {
        (readonly_admin_texts(p, exists), readonly_owner_texts(p))
    }

    open spec fn readonly_deletion_plan(
        &self,
        username: Seq<char>,
        db: Seq<char>,
        exists: bool,
    ) -> Seq<Seq<char>> {
        if exists {
            seq![
                "REVOKE CONNECT ON DATABASE "@ + quoted(db) + " FROM "@ + quoted(username),
                "DROP ROLE "@ + quoted(username),
            ]
        } else {
            Seq::empty()
        }
    }

    open spec fn report_url_plan(&self, url: Seq<char>) -> Option<(Seq<char>, Seq<char>)> {
        Some((REPORT_URL_STATEMENT@, url))
    }

    open spec fn exists_answer(&self, found: bool) -> bool {
        found
    }

    open spec fn version_answer(&self, raw: Seq<char>) -> Result<nat, Seq<char>> {
        major_version(raw)
    }

    fn ensure_role(
        &self,
        username: &str,
        password: &str,
        exists: bool,
        authenticates: bool,
    ) -> (r: Vec<String>) {
        if exists {
            if authenticates {
                return no_statements();
            }
            let r = vec![alter_role(username, password)];
            assert(texts(r@) =~= seq![alter_role_text(username@, password@)]);
            return r;
        }
        let r = vec![create_role(username, password)];
        assert(texts(r@) =~= seq![create_role_text(username@, password@)]);
        r
    }

    fn delete_role(&self, username: &str, exists: bool, databases: &Vec<String>) -> (r: Vec<
        String,
    >) {
        if !exists {
            return no_statements();
        }
        let mut out: Vec<String> = Vec::new();
        let mut i: usize = 0;
        let ghost all = drop_database_texts(texts(databases@));
        assert(texts(out@) =~= all.take(0));
        while i < databases.len()
            invariant
                i <= databases.len(),
                all == drop_database_texts(texts(databases@)),
                texts(out@) == all.take(i as int),
            decreases databases.len() - i,
        {
            let db = quote_ident(databases[i].as_str());
            let ghost before = out@;
            out.push(concat2("DROP DATABASE ", db.as_str()));
            proof {
                assert(texts(databases@)[i as int] == databases@[i as int]@);
                assert(all[i as int] == "DROP DATABASE "@ + quoted(databases@[i as int]@));
                assert(texts(out@) =~= texts(before).push(all[i as int]));
                assert(all.take(i + 1) =~= all.take(i as int).push(all[i as int]));
            }
            i += 1;
        }
        let user = quote_ident(username);
        assert(all.take(i as int) =~= all);
        let ghost before = out@;
        out.push(concat2("DROP ROLE ", user.as_str()));
        assert(texts(out@) =~= texts(before).push("DROP ROLE "@ + quoted(username@)));
        assert(texts(out@) =~= all.push("DROP ROLE "@ + quoted(username@)));
        out
    }

    fn ensure_readonly_role(&self, p: &ReadonlyRoleParams<'_>, exists: bool) -> (r:
        ReadonlyStatements) {
        let ro = quote_ident(p.ro_username);
        let db = quote_ident(p.db_name);
        let verb = if exists {
            "ALTER ROLE "
        } else {
            "CREATE ROLE "
        };
        let limit = int_to_string(p.connection_limit as i64);
        let mut options = concat4(
            " WITH LOGIN NOSUPERUSER NOCREATEDB NOINHERIT CONNECTION LIMIT ",
            limit.as_str(),
            " PASSWORD '",
            p.ro_password,
        );
        options.append("'");
        let admin = vec![
            concat3(verb, ro.as_str(), options.as_str()),
            concat4("GRANT CONNECT ON DATABASE ", db.as_str(), " TO ", ro.as_str()),
        ];
        let owner = vec![
            concat2("GRANT USAGE ON SCHEMA public TO ", ro.as_str()),
            concat2("GRANT SELECT ON ALL TABLES IN SCHEMA public TO ", ro.as_str()),
            concat2(
                "ALTER DEFAULT PRIVILEGES IN SCHEMA public GRANT SELECT ON TABLES TO ",
                ro.as_str(),
            ),
        ];
        assert(texts(admin@) =~= readonly_admin_texts(*p, exists));
        assert(texts(owner@) =~= readonly_owner_texts(*p));
        ReadonlyStatements { admin, owner }
    }

    fn delete_readonly_role(&self, ro_username: &str, db_name: &str, exists: bool) -> (r: Vec<
        String,
    >) {
        if !exists {
            return no_statements();
        }
        let ro = quote_ident(ro_username);
        let db = quote_ident(db_name);
        let r = vec![
            concat4("REVOKE CONNECT ON DATABASE ", db.as_str(), " FROM ", ro.as_str()),
            concat2("DROP ROLE ", ro.as_str()),
        ];
        assert(texts(r@) =~= self.readonly_deletion_plan(ro_username@, db_name@, exists));
        r
    }

    fn ensure_report_url(&self, report_url: &str) -> (r: Option<(String, String)>) {
        Some((REPORT_URL_STATEMENT.to_owned(), report_url.to_owned()))
    }

    fn database_exists(&self, found: bool) -> (r: bool) {
        found
    }

    fn detect_server_major_version(&self, raw: &str) -> (r: Result<u32, Error>) {
        let digits = trim_chars(raw);
        match parse_u32(&digits) {
            Ok(n) => Ok(n / 10000),
            Err(e) => {
                let shown = debug_quoted(raw);
                Err(
                    Error::config(
                        concat4(
                            "could not parse server_version_num ",
                            shown.as_str(),
                            ": ",
                            e,
                        ).as_str(),
                    ),
                )
            },
        }
    }
}

impl PostgresManager for NoopPostgresManager {
    open spec fn role_plan(
        &self,
        username: Seq<char>,
        password: Seq<char>,
        exists: bool,
        authenticates: bool,
    ) -> Seq<Seq<char>> {
        Seq::empty()
    }

    open spec fn deletion_plan(
        &self,
        username: Seq<char>,
        exists: bool,
        databases: Seq<Seq<char>>,
    ) -> Seq<Seq<char>> {
        Seq::empty()
    }

    open spec fn readonly_plan(&self, p: ReadonlyRoleParams, exists: bool) -> (
        Seq<Seq<char>>,
        Seq<Seq<char>>,
    ) {
        (Seq::empty(), Seq::empty())
    }

    open spec fn readonly_deletion_plan(
        &self,
        username: Seq<char>,
        db: Seq<char>,
        exists: bool,
    ) -> Seq<Seq<char>> {
        Seq::empty()
    }

    open spec fn report_url_plan(&self, url: Seq<char>) -> Option<(Seq<char>, Seq<char>)> {
        None
    }

    open spec fn exists_answer(&self, found: bool) -> bool {
        true
    }

    open spec fn version_answer(&self, raw: Seq<char>) -> Result<nat, Seq<char>> {
        Ok(18)
    }

    fn ensure_role(
        &self,
        username: &str,
        password: &str,
        exists: bool,
        authenticates: bool,
    ) -> (r: Vec<String>) {
        no_statements()
    }

    fn delete_role(&self, username: &str, exists: bool, databases: &Vec<String>) -> (r: Vec<
        String,
    >) {
        no_statements()
    }

    fn ensure_readonly_role(&self, p: &ReadonlyRoleParams<'_>, exists: bool) -> (r:
        ReadonlyStatements) {
        ReadonlyStatements { admin: no_statements(), owner: no_statements() }
    }

    fn delete_readonly_role(&self, ro_username: &str, db_name: &str, exists: bool) -> (r: Vec<
        String,
    >) {
        no_statements()
    }

    fn ensure_report_url(&self, report_url: &str) -> (r: Option<(String, String)>) {
        None
    }

    fn database_exists(&self, found: bool) -> (r: bool) {
        true
    }

    fn detect_server_major_version(&self, raw: &str) -> (r: Result<u32, Error>) {
        Ok(18)
    }
}

// ── Read-only roles ──────────────────────────────────────────────────────────

/// A statement, the connection that it runs on, and whether its failure ends the
/// work.
#[derive(Clone, Debug)]
pub struct PgCall {
    pub connection: String,
    pub statement: String,
    pub fatal: bool,
}

/// The view of a call.
pub struct PgCallView {
    pub connection: Seq<char>,
    pub statement: Seq<char>,
    pub fatal: bool,
}

impl View for PgCall {
    type V = PgCallView;

    open spec fn view(&self) -> PgCallView {
        PgCallView {
            connection: self.connection@,
            statement: self.statement@,
            fatal: self.fatal,
        }
    }
}

/// The views of a list of calls.
pub open spec fn call_views(v: Seq<PgCall>) -> Seq<PgCallView> {
    v.map_values(|c: PgCall| c@)
}

/// Statements on one connection, each of which has to succeed.
pub open spec fn calls_on(connection: Seq<char>, statements: Seq<Seq<char>>) -> Seq<PgCallView> {
    statements.map_values(|s: Seq<char>| PgCallView { connection, statement: s, fatal: true })
}

/// How the administrator connects to a cluster.
pub open spec fn admin_text(pg: PostgresClusterConfig) -> Seq<char> {
    connection_text(pg, pg.admin_user@, pg.admin_password@, "postgres"@)
}

/// How the owner of a database connects to it.
pub open spec fn owner_text(pg: PostgresClusterConfig, p: ReadonlyRoleParams) -> Seq<char> {
    connection_text(pg, p.owner_username@, p.owner_password@, p.db_name@)
}

/// How the owner of a database connects to it.
pub fn owner_connection(pg: &PostgresClusterConfig, p: &ReadonlyRoleParams<'_>) -> (r: String)
    ensures
        r@ == owner_text(*pg, *p),
{
    connection_string(pg, p.owner_username, p.owner_password, p.db_name)
}

fn add_calls(calls: &mut Vec<PgCall>, connection: &str, statements: &Vec<String>)
    ensures
        call_views(final(calls)@) == call_views(old(calls)@) + calls_on(
            connection@,
            texts(statements@),
        ),
{
    let ghost start = call_views(calls@);
    let ghost added = calls_on(connection@, texts(statements@));
    let mut i: usize = 0;
    assert(call_views(calls@) =~= start + added.take(0));
    while i < statements.len()
        invariant
            i <= statements.len(),
            added == calls_on(connection@, texts(statements@)),
            call_views(calls@) == start + added.take(i as int),
        decreases statements.len() - i,
    {
        let ghost before = calls@;
        calls.push(
            PgCall {
                connection: connection.to_owned(),
                statement: statements[i].clone(),
                fatal: true,
            },
        );
        proof {
            assert(texts(statements@)[i as int] == statements@[i as int]@);
            assert(calls@.last()@ == added[i as int]);
            assert(call_views(calls@) =~= call_views(before).push(added[i as int]));
            assert(added.take(i + 1) =~= added.take(i as int).push(added[i as int]));
            assert(call_views(calls@) =~= start + added.take(i + 1));
        }
        i += 1;
    }
    assert(added.take(i as int) =~= added);
}

/// The calls that provision a read-only role: the administrator creates it or
/// brings it up to date, then the owner of the database lets it read.
pub fn readonly_role_calls(
    pg: &PostgresClusterConfig,
    p: &ReadonlyRoleParams<'_>,
    exists: bool,
) -> (r: Vec<PgCall>)
    ensures
        call_views(r@) == calls_on(admin_text(*pg), readonly_admin_texts(*p, exists)) + calls_on(
            owner_text(*pg, *p),
            readonly_owner_texts(*p),
        ),
{
    let statements = PgPostgresManager.ensure_readonly_role(p, exists);
    let mut calls: Vec<PgCall> = Vec::new();
    assert(call_views(calls@) =~= Seq::empty());
    let admin = admin_connection(pg);
    add_calls(&mut calls, admin.as_str(), &statements.admin);
    let owner = owner_connection(pg, p);
    add_calls(&mut calls, owner.as_str(), &statements.owner);
    assert(Seq::<PgCallView>::empty() + calls_on(admin_text(*pg), readonly_admin_texts(*p, exists))
        =~= calls_on(admin_text(*pg), readonly_admin_texts(*p, exists)));
    calls
}

/// The calls that delete a read-only role, all by the administrator.
pub open spec fn readonly_deletion(
    pg: PostgresClusterConfig,
    username: Seq<char>,
    db: Seq<char>,
    exists: bool,
) -> Seq<PgCallView> {
    if exists {
        seq![
            PgCallView {
                connection: admin_text(pg),
                statement: "REVOKE CONNECT ON DATABASE "@ + quoted(db) + " FROM "@ + quoted(
                    username,
                ),
                fatal: false,
            },
            PgCallView {
                connection: admin_text(pg),
                statement: "DROP ROLE "@ + quoted(username),
                fatal: true,
            },
        ]
    } else {
        Seq::empty()
    }
}

/// The calls that delete a read-only role: that nothing could be revoked is no
/// failure, that the role could not be dropped is one.
pub fn readonly_deletion_calls(
    pg: &PostgresClusterConfig,
    ro_username: &str,
    db_name: &str,
    exists: bool,
) -> (r: Vec<PgCall>)
    ensures
        call_views(r@) == readonly_deletion(*pg, ro_username@, db_name@, exists),
{
    let statements = PgPostgresManager.delete_readonly_role(ro_username, db_name, exists);
    let ghost plan = PgPostgresManager.readonly_deletion_plan(ro_username@, db_name@, exists);
    let mut calls: Vec<PgCall> = Vec::new();
    let mut i: usize = 0;
    let ghost want = readonly_deletion(*pg, ro_username@, db_name@, exists);
    assert(texts(statements@).len() == statements@.len());
    assert(call_views(calls@) =~= want.take(0));
    while i < statements.len()
        invariant
            i <= statements.len(),
            texts(statements@) == plan,
            plan == PgPostgresManager.readonly_deletion_plan(ro_username@, db_name@, exists),
            statements@.len() == plan.len(),
            want == readonly_deletion(*pg, ro_username@, db_name@, exists),
            call_views(calls@) == want.take(i as int),
        decreases statements.len() - i,
    {
        let ghost before = calls@;
        assert(plan[i as int] == statements@[i as int]@);
        calls.push(
            PgCall {
                connection: admin_connection(pg),
                statement: statements[i].clone(),
                fatal: i + 1 == statements.len(),
            },
        );
        proof {
            assert(calls@.last()@ == want[i as int]);
            assert(call_views(calls@) =~= call_views(before).push(want[i as int]));
            assert(want.take(i + 1) =~= want.take(i as int).push(want[i as int]));
        }
        i += 1;
    }
    assert(want.take(i as int) =~= want);
    calls
}

// ── Laws ─────────────────────────────────────────────────────────────────────

/// A role whose password works already is left alone, and no statement is due
/// for a role that has to be deleted but does not exist.
pub proof fn law_settled_roles_are_left_alone(
    m: PgPostgresManager,
    username: Seq<char>,
    password: Seq<char>,
    databases: Seq<Seq<char>>,
    db: Seq<char>,
)
    ensures
        m.role_plan(username, password, true, true).len() == 0,
        m.deletion_plan(username, false, databases).len() == 0,
        m.readonly_deletion_plan(username, db, false).len() == 0,
{
}

/// Deleting a role drops every database that it owns before the role itself.
pub proof fn law_databases_are_dropped_first(
    m: PgPostgresManager,
    username: Seq<char>,
    databases: Seq<Seq<char>>,
)
    ensures
        m.deletion_plan(username, true, databases).len() == databases.len() + 1,
        m.deletion_plan(username, true, databases).last() == "DROP ROLE "@ + quoted(username),
        forall|i: int|
            0 <= i < databases.len() ==> #[trigger] m.deletion_plan(username, true, databases)[i]
                == "DROP DATABASE "@ + quoted(databases[i]),
{
}

/// The manager for tests never asks for a statement.
pub proof fn law_noop_does_nothing(
    m: NoopPostgresManager,
    username: Seq<char>,
    password: Seq<char>,
    exists: bool,
    authenticates: bool,
    databases: Seq<Seq<char>>,
    db: Seq<char>,
)
    ensures
        m.role_plan(username, password, exists, authenticates).len() == 0,
        m.deletion_plan(username, exists, databases).len() == 0,
        m.readonly_deletion_plan(username, db, exists).len() == 0,
        m.exists_answer(false),
        m.version_answer(username) == Ok::<nat, Seq<char>>(18),
{
}

/// A read-only role takes five calls.  The two statements of the administrator run
/// first, on its own connection, and the three of the owner run after them, on the
/// connection of the owner to the database; each of them has to succeed.
pub proof fn law_the_owner_grants_after_the_administrator(
    pg: PostgresClusterConfig,
    p: ReadonlyRoleParams,
    exists: bool,
    i: int,
)
    requires
        0 <= i < 5,
    ensures
        ({
            let calls = calls_on(admin_text(pg), readonly_admin_texts(p, exists)) + calls_on(
                owner_text(pg, p),
                readonly_owner_texts(p),
            );
            &&& calls.len() == 5
            &&& calls[i].fatal
            &&& i < 2 ==> calls[i].connection == admin_text(pg) && calls[i].statement
                == readonly_admin_texts(p, exists)[i]
            &&& i >= 2 ==> calls[i].connection == owner_text(pg, p) && calls[i].statement
                == readonly_owner_texts(p)[i - 2]
        }),
{
}

/// A connection names the host and the port of the cluster, the user, the password and
/// the database; the administrator uses its own credentials and the maintenance
/// database, the owner of a database its own.
pub proof fn law_connections_name_their_parts(
    pg: &PostgresClusterConfig,
    user: &str,
    password: &str,
    db: &str,
    p: &ReadonlyRoleParams<'_>,
    r: String,
    admin: String,
    owner: String,
)
    requires
        call_ensures(connection_string, (pg, user, password, db), r),
        call_ensures(admin_connection, (pg,), admin),
        call_ensures(owner_connection, (pg, p), owner),
    ensures
        r@ == "host="@ + pg.host@ + " port="@ + int_text(pg.port as int) + " user="@ + user@
            + " password="@ + password@ + " dbname="@ + db@,
        admin@ == "host="@ + pg.host@ + " port="@ + int_text(pg.port as int) + " user="@
            + pg.admin_user@ + " password="@ + pg.admin_password@ + " dbname="@ + "postgres"@,
        owner@ == "host="@ + pg.host@ + " port="@ + int_text(pg.port as int) + " user="@
            + p.owner_username@ + " password="@ + p.owner_password@ + " dbname="@ + p.db_name@,
{
}

/// A role that does not exist is created so that it can log in and make its database;
/// one that exists with another password gets the right one; one that is fine is left
/// alone.
pub proof fn law_roles_are_made_usable(
    username: Seq<char>,
    password: Seq<char>,
    authenticates: bool,
)
    ensures
        PgPostgresManager.role_plan(username, password, false, authenticates) == seq![
            "CREATE ROLE "@ + quoted(username) + " WITH PASSWORD '"@ + password
                + "' CREATEDB LOGIN"@,
        ],
        PgPostgresManager.role_plan(username, password, true, false) == seq![
            "ALTER ROLE "@ + quoted(username) + " WITH PASSWORD '"@ + password + "'"@,
        ],
        PgPostgresManager.role_plan(username, password, true, true).len() == 0,
{
}

/// A role that goes takes its databases along, each of them, and goes last; one that
/// does not exist takes nothing.
pub proof fn law_roles_go_with_their_databases(
    username: Seq<char>,
    databases: Seq<Seq<char>>,
    i: int,
)
    requires
        0 <= i < databases.len(),
    ensures
        ({
            let plan = PgPostgresManager.deletion_plan(username, true, databases);
            &&& plan.len() == databases.len() + 1
            &&& plan[i] == "DROP DATABASE "@ + quoted(databases[i])
            &&& plan.last() == "DROP ROLE "@ + quoted(username)
        }),
        PgPostgresManager.deletion_plan(username, false, databases).len() == 0,
{
}

/// An identifier in quotes begins and ends with one, and one without quotes in it is
/// kept as it is between them.
pub proof fn law_plain_identifiers_are_kept(ident: &str, r: String)
    requires
        call_ensures(quote_ident, (ident,), r),
        !ident@.contains('"'),
    ensures
        r@ == seq!['"'] + ident@ + seq!['"'],
{
    lemma_plain_is_kept(ident@);
}

proof fn lemma_plain_is_kept(s: Seq<char>)
    requires
        !s.contains('"'),
    ensures
        doubled_quotes(s) == s,
    decreases s.len(),
{
    if s.len() > 0 {
        let t = s.drop_last();
        assert(s.contains(s.last())) by {
            assert(s[s.len() - 1] == s.last());
        }
        assert(!t.contains('"')) by {
            if t.contains('"') {
                let i = choose|i: int| 0 <= i < t.len() && t[i] == '"';
                assert(s[i] == '"');
            }
        }
        lemma_plain_is_kept(t);
        assert(t.push(s.last()) =~= s);
    }
}

/// What a read-only role may do: log in up to its limit with its password and connect
/// to the database, by leave of the administrator, and read the tables that are there
/// or will be, by leave of their owner.  It may write nothing and make nothing.
pub proof fn law_readonly_roles_only_read(
    pg: &PostgresClusterConfig,
    p: &ReadonlyRoleParams<'_>,
    exists: bool,
    r: Vec<PgCall>,
)
    requires
        call_ensures(readonly_role_calls, (pg, p, exists), r),
    ensures
        r@.len() == 5,
        forall|i: int| 0 <= i < 5 ==> (#[trigger] r@[i]).fatal,
        r@[0].statement@ == (if exists {
            "ALTER ROLE "@
        } else {
            "CREATE ROLE "@
        }) + quoted(p.ro_username@) + (
        " WITH LOGIN NOSUPERUSER NOCREATEDB NOINHERIT CONNECTION LIMIT "@ + int_text(
            p.connection_limit as int,
        ) + " PASSWORD '"@ + p.ro_password@ + "'"@),
        r@[1].statement@ == "GRANT CONNECT ON DATABASE "@ + quoted(p.db_name@) + " TO "@ + quoted(
            p.ro_username@,
        ),
        r@[2].statement@ == "GRANT USAGE ON SCHEMA public TO "@ + quoted(p.ro_username@),
        r@[3].statement@ == "GRANT SELECT ON ALL TABLES IN SCHEMA public TO "@ + quoted(
            p.ro_username@,
        ),
        r@[4].statement@
            == "ALTER DEFAULT PRIVILEGES IN SCHEMA public GRANT SELECT ON TABLES TO "@ + quoted(
            p.ro_username@,
        ),
        forall|i: int|
            0 <= i < 2 ==> (#[trigger] r@[i]).connection@ == "host="@ + pg.host@ + " port="@
                + int_text(pg.port as int) + " user="@ + pg.admin_user@ + " password="@
                + pg.admin_password@ + " dbname="@ + "postgres"@,
        forall|i: int|
            2 <= i < 5 ==> (#[trigger] r@[i]).connection@ == "host="@ + pg.host@ + " port="@
                + int_text(pg.port as int) + " user="@ + p.owner_username@ + " password="@
                + p.owner_password@ + " dbname="@ + p.db_name@,
{
    let views = call_views(r@);
    assert(views.len() == 5);
    assert forall|i: int| 0 <= i < 5 implies views[i] == (#[trigger] r@[i])@ by {}
    assert(r@[0]@ == views[0] && r@[1]@ == views[1] && r@[2]@ == views[2] && r@[3]@ == views[3]
        && r@[4]@ == views[4]);
}

/// A read-only role loses its connection first, as far as it has one, and then goes.
pub proof fn law_readonly_roles_go(
    pg: &PostgresClusterConfig,
    ro_username: &str,
    db_name: &str,
    r: Vec<PgCall>,
    none: Vec<PgCall>,
)
    requires
        call_ensures(readonly_deletion_calls, (pg, ro_username, db_name, true), r),
        call_ensures(readonly_deletion_calls, (pg, ro_username, db_name, false), none),
    ensures
        none@.len() == 0,
        r@.len() == 2,
        r@[0].statement@ == "REVOKE CONNECT ON DATABASE "@ + quoted(db_name@) + " FROM "@ + quoted(
            ro_username@,
        ),
        !r@[0].fatal,
        r@[1].statement@ == "DROP ROLE "@ + quoted(ro_username@),
        r@[1].fatal,
        r@[0].connection@ == r@[1].connection@,
        r@[0].connection@ == "host="@ + pg.host@ + " port="@ + int_text(pg.port as int) + " user="@
            + pg.admin_user@ + " password="@ + pg.admin_password@ + " dbname="@ + "postgres"@,
{
    let views = call_views(r@);
    assert(views.len() == 2);
    assert(r@[0]@ == views[0] && r@[1]@ == views[1]);
    assert(call_views(none@).len() == 0);
}

/// The major version of a server is what its version number has before the last four
/// digits, with or without white space around it.
pub proof fn law_major_versions_lead(high: Seq<char>, low: Seq<char>)
    requires
        high.len() > 0,
        low.len() == 4,
        crate::webhook::is_number(high),
        crate::webhook::is_number(low),
        digits_to_u32(0, high + low) is Ok,
    ensures
        digits_to_u32(0, high) is Ok,
        major_version(high + low) == digits_to_u32(0, high),
{
    let s = high + low;
    assert(s[0] == high[0]);
    assert(s.last() == low[3]);
    crate::text::lemma_trimmed_is_kept(s);
    lemma_digits_split(0, high, low);
    let h = digits_to_u32(0, high)->Ok_0;
    lemma_four_digits(h, low);
    assert(parsed_u32(s) == digits_to_u32(0, s));
}

proof fn lemma_digits_split(acc: nat, a: Seq<char>, b: Seq<char>)
    requires
        digits_to_u32(acc, a + b) is Ok,
    ensures
        digits_to_u32(acc, a) is Ok,
        digits_to_u32(acc, a + b) == digits_to_u32(digits_to_u32(acc, a)->Ok_0, b),
    decreases a.len(),
{
    if a.len() == 0 {
        assert(a + b =~= b);
    } else {
        assert((a + b)[0] == a[0]);
        assert((a + b).drop_first() =~= a.drop_first() + b);
        lemma_digits_split((acc * 10 + digit_value(a[0])) as nat, a.drop_first(), b);
    }
}

proof fn lemma_four_digits(h: nat, low: Seq<char>)
    requires
        low.len() == 4,
        crate::webhook::is_number(low),
        digits_to_u32(h, low) is Ok,
    ensures
        digits_to_u32(h, low)->Ok_0 / 10000 == h,
{
    let s1 = low.drop_first();
    let s2 = s1.drop_first();
    let s3 = s2.drop_first();
    let s4 = s3.drop_first();
    assert(s1[0] == low[1] && s2[0] == low[2] && s3[0] == low[3]);
    assert('0' <= low[0] <= '9' && '0' <= low[1] <= '9' && '0' <= low[2] <= '9' && '0' <= low[3]
        <= '9');
    assert(s4.len() == 0);
    reveal_with_fuel(digits_to_u32, 5);
}

/// What a server is asked and told: a version that is no number is told with what was read,
/// a database exists if it was found, and reports are rendered at the address that is given.
pub proof fn law_servers_are_taken_at_their_word(
    manager: &PgPostgresManager,
    raw: &str,
    version: Result<u32, Error>,
    found: bool,
    exists: bool,
    url: &str,
    report: Option<(String, String)>,
)
    requires
        call_ensures(
            <PgPostgresManager as PostgresManager>::detect_server_major_version,
            (manager, raw),
            version,
        ),
        call_ensures(
            <PgPostgresManager as PostgresManager>::database_exists,
            (manager, found),
            exists,
        ),
        call_ensures(
            <PgPostgresManager as PostgresManager>::ensure_report_url,
            (manager, url),
            report,
        ),
    ensures
        exists == found,
        report matches Some((statement, argument)) && argument@ == url@ && statement@
            == REPORT_URL_STATEMENT@,
        trimmed(raw@).len() == 0 ==> (version matches Err(e) && e.detail()
            == "could not parse server_version_num "@ + debug_text(raw@) + ": "@
            + "cannot parse integer from empty string"@),
        version matches Ok(v) ==> major_version(raw@) == Ok::<nat, Seq<char>>(v as nat),
{
}

/// A manager without a server does nothing and finds everything in place.
pub proof fn law_without_a_server_nothing_is_done(
    manager: &NoopPostgresManager,
    username: &str,
    password: &str,
    exists: bool,
    authenticates: bool,
    databases: &Vec<String>,
    made: Vec<String>,
    deleted: Vec<String>,
)
    requires
        call_ensures(
            <NoopPostgresManager as PostgresManager>::ensure_role,
            (manager, username, password, exists, authenticates),
            made,
        ),
        call_ensures(
            <NoopPostgresManager as PostgresManager>::delete_role,
            (manager, username, exists, databases),
            deleted,
        ),
    ensures
        made@.len() == 0,
        deleted@.len() == 0,
{
    assert(texts(made@).len() == made@.len());
    assert(texts(deleted@).len() == deleted@.len());
}

/// A version number is read from its decimal digits, with or without a plus sign in front of
/// them, as long as it fits in 32 bits; its major version is a ten-thousandth of it.
pub proof fn law_version_numbers_are_read(
    manager: &PgPostgresManager,
    raw: &str,
    digits: Seq<char>,
    r: Result<u32, Error>,
)
    requires
        call_ensures(
            <PgPostgresManager as PostgresManager>::detect_server_major_version,
            (manager, raw),
            r,
        ),
        crate::webhook::is_number(digits),
        raw@ == digits || raw@ == seq!['+'] + digits,
    ensures
        r is Ok <==> crate::text::number_read(digits) <= u32::MAX,
        r matches Ok(v) ==> v == crate::text::number_read(digits) / 10000,
{
    let s = raw@;
    assert(s.last() == digits.last());
    assert(s[0] == '+' || s[0] == digits[0]);
    crate::text::lemma_trimmed_is_kept(s);
    lemma_digits_are_read(digits, 0);
    assert(digits.skip(0) =~= digits);
    assert(digits.take(0) =~= Seq::<char>::empty());
    if s[0] == '+' {
        assert(s.drop_first() =~= digits);
    } else {
        assert(digits[0] != '+' && digits[0] != '-');
    }
}

proof fn lemma_digits_are_read(s: Seq<char>, i: int)
    requires
        crate::webhook::is_number(s),
        0 <= i <= s.len(),
        0 <= crate::text::number_read(s.take(i)) <= u32::MAX,
    ensures
        match digits_to_u32(crate::text::number_read(s.take(i)) as nat, s.skip(i)) {
            Ok(n) => n == crate::text::number_read(s) && n <= u32::MAX,
            Err(_) => crate::text::number_read(s) > u32::MAX,
        },
    decreases s.len() - i,
{
    let acc = crate::text::number_read(s.take(i));
    if i == s.len() {
        assert(s.take(i) =~= s);
        assert(s.skip(i).len() == 0);
    } else {
        let next = s.take(i + 1);
        assert(next.drop_last() =~= s.take(i));
        assert(next.last() == s[i]);
        assert('0' <= s[i] <= '9');
        assert(s.skip(i)[0] == s[i]);
        assert(s.skip(i).drop_first() =~= s.skip(i + 1));
        let v = crate::text::number_read(next);
        assert(v == acc * 10 + digit_value(s[i]));
        if v <= u32::MAX {
            lemma_digits_are_read(s, i + 1);
        } else {
            lemma_reading_on_grows(s, i + 1);
        }
    }
}

proof fn lemma_reading_on_grows(s: Seq<char>, i: int)
    requires
        crate::webhook::is_number(s),
        0 <= i <= s.len(),
        0 <= crate::text::number_read(s.take(i)),
    ensures
        crate::text::number_read(s) >= crate::text::number_read(s.take(i)),
    decreases s.len() - i,
{
    if i == s.len() {
        assert(s.take(i) =~= s);
    } else {
        let next = s.take(i + 1);
        assert(next.drop_last() =~= s.take(i));
        assert(next.last() == s[i]);
        assert('0' <= s[i] <= '9');
        lemma_reading_on_grows(s, i + 1);
    }
}

} // verus!
