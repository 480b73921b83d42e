//! Names, secrets and configuration text derived from an instance.

use rand::Rng;
use sha2::Digest;
use vstd::prelude::*;

use crate::crd::odoo_instance::OdooInstance;
use crate::options::{keys_increase, lemma_ordered_options_unique, pair_texts, OptionTable};
use crate::text::{chars_of, concat2, concat3, concat4, int_text, int_to_string, same_text};

verus! {

// ── Time ─────────────────────────────────────────────────────────────────────

/// What stands at a place of a text of the form `YYYY-MM-DD HH:MM:SS`.
pub open spec fn clock_place(i: int, c: char) -> bool {
    if i == 4 || i == 7 {
        c == '-'
    } else if i == 10 {
        c == ' '
    } else if i == 13 || i == 16 {
        c == ':'
    } else {
        '0' <= c <= '9'
    }
}

/// Whether a text has the form `YYYY-MM-DD HH:MM:SS`.  The year may have more
/// than four characters.
pub open spec fn is_clock_text(s: Seq<char>) -> bool {
    let first = s.len() - 19;
    &&& first >= 0
    &&& forall|i: int| first <= i < s.len() ==> clock_place(i - first, #[trigger] s[i])
}

/// The current UTC time in the form that Odoo expects: `YYYY-MM-DD HH:MM:SS`.
///
/// Reads the clock through `chrono::Utc::now` and renders it with
/// `chrono::DateTime::format`.  Only the form of the text is claimed: a year of
/// at least four characters, of which the last four are digits, and two digits
/// for each other part.  Which time it is depends on the call.
#[verifier::external_body]
pub fn utc_now_odoo() -> (r: String)
    ensures
        is_clock_text(r@),
{
    chrono::Utc::now().format("%Y-%m-%d %H:%M:%S").to_string()
}

/// A point in time: seconds since the epoch and nanoseconds within the second.
///
/// A leap second is written as the second before it, with a billion or more
/// nanoseconds.
#[derive(Clone, Copy, Debug, PartialEq, Eq, Structural)]
pub struct Instant {
    pub secs: i64,
    pub nanos: u32,
}

impl Instant {
    /// Whether this point in time is not after another one.
    pub open spec fn not_after(self, other: Instant) -> bool {
        self.secs < other.secs || (self.secs == other.secs && self.nanos <= other.nanos)
    }

    /// The nanoseconds from `other` to this point in time.  A leap second that
    /// only one of the two times of day counts is made up for.
    pub open spec fn nanos_since(self, other: Instant) -> int {
        let a = self.secs as int % 86_400;
        let b = other.secs as int % 86_400;
        let leap: int = if a > b && other.nanos >= 1_000_000_000 {
            1
        } else if a < b && self.nanos >= 1_000_000_000 {
            -1
        } else {
            0
        };
        (self.secs - other.secs + leap) * 1_000_000_000 + self.nanos - other.nanos
    }

    /// Whether this point in time is not after another one.
    pub fn is_not_after(&self, other: &Instant) -> (r: bool)
        ensures
            r == self.not_after(*other),
    {
        self.secs < other.secs || (self.secs == other.secs && self.nanos <= other.nanos)
    }

    /// The nanoseconds from `other` to this point in time.
    pub fn since(&self, other: &Instant) -> (r: i128)
        ensures
            r == self.nanos_since(*other),
    {
        let a: i64 = second_of_day(self.secs);
        let b: i64 = second_of_day(other.secs);
        let leap: i128 = if a > b && other.nanos >= 1_000_000_000 {
            1
        } else if a < b && self.nanos >= 1_000_000_000 {
            -1
        } else {
            0
        };
        (self.secs as i128 - other.secs as i128 + leap) * 1_000_000_000 + self.nanos as i128
            - other.nanos as i128
    }
}

/// The seconds that have passed since midnight.
fn second_of_day(secs: i64) -> (r: i64)
    ensures
        r == secs as int % 86_400,
{
    if secs >= 0 {
        secs % 86_400
    } else {
        let back: i128 = (-(secs as i128)) % 86_400;
        proof {
            let n = -(secs as int);
            vstd::arithmetic::div_mod::lemma_fundamental_div_mod(n, 86_400);
            let q = n / 86_400;
            if back == 0 {
                vstd::arithmetic::div_mod::lemma_fundamental_div_mod_converse(
                    secs as int,
                    86_400,
                    -q,
                    0,
                );
            } else {
                vstd::arithmetic::div_mod::lemma_fundamental_div_mod_converse(
                    secs as int,
                    86_400,
                    -q - 1,
                    86_400 - back,
                );
            }
        }
        if back == 0 {
            0
        } else {
            (86_400 - back) as i64
        }
    }
}

/// The current time.
///
/// Reads the clock through `chrono::Utc::now`, which counts from the epoch on and
/// knows no leap second.  Nothing else is claimed of it.
#[verifier::external_body]
pub(crate) fn utc_now() -> (r: Instant)
    ensures
        0 <= r.secs,
        r.nanos < 1_000_000_000,
{
    let now = chrono::Utc::now();
    Instant { secs: now.timestamp(), nanos: now.timestamp_subsec_nanos() }
}

/// The point in time that an RFC 3339 date and time denotes, if it is one:
/// seconds since the epoch and nanoseconds within the second.
pub uninterp spec fn rfc3339_parts(s: Seq<char>) -> Option<(i64, u32)>;

/// The point in time that an RFC 3339 date and time denotes, if it is one.
pub open spec fn rfc3339_instant(s: Seq<char>) -> Option<Instant> {
    match rfc3339_parts(s) {
        Some((secs, nanos)) => Some(Instant { secs, nanos }),
        None => None,
    }
}

/// Parses an RFC 3339 date and time with `chrono::DateTime::parse_from_rfc3339`.
///
/// The contract only claims that the outcome is determined by the characters.
#[verifier::external_body]
fn rfc3339_timestamp(s: &str) -> (r: Option<(i64, u32)>)
    ensures
        r == rfc3339_parts(s@),
{
    match chrono::DateTime::parse_from_rfc3339(s) {
        Ok(t) => Some((t.timestamp(), t.timestamp_subsec_nanos())),
        Err(_) => None,
    }
}

/// The point in time that an RFC 3339 date and time denotes.
pub fn parse_rfc3339(s: &str) -> (r: Option<Instant>)
    ensures
        r == rfc3339_instant(s@),
{
    match rfc3339_timestamp(s) {
        Some((secs, nanos)) => Some(Instant { secs, nanos }),
        None => None,
    }
}

// ── Operator defaults ────────────────────────────────────────────────────────

/// Configuration of the operator that fills unset fields of an instance.
#[derive(Clone, Debug)]
pub struct OperatorDefaults {
    pub odoo_image: String,
    pub storage_class: String,
    pub storage_size: String,
    pub ingress_class: String,
    pub ingress_issuer: String,
    /// The resource requirements, as a JSON document.
    pub resources: Option<String>,
    /// The affinity, as a JSON document.
    pub affinity: Option<String>,
    /// The tolerations, each as a JSON document.
    pub tolerations: Vec<String>,
}

impl Default for OperatorDefaults {
    fn default() -> (r: Self)
        ensures
            r.odoo_image@.len() == 0,
            r.storage_class@.len() == 0,
            r.storage_size@.len() == 0,
            r.ingress_class@.len() == 0,
            r.ingress_issuer@.len() == 0,
            r.resources is None,
            r.affinity is None,
            r.tolerations@.len() == 0,
    {
        OperatorDefaults {
            odoo_image: String::new(),
            storage_class: String::new(),
            storage_size: String::new(),
            ingress_class: String::new(),
            ingress_issuer: String::new(),
            resources: None,
            affinity: None,
            tolerations: Vec::new(),
        }
    }
}

// ── Names ────────────────────────────────────────────────────────────────────

/// The PostgreSQL user of an instance.
pub open spec fn username_text(namespace: Seq<char>, name: Seq<char>) -> Seq<char> {
    "odoo."@ + namespace + "."@ + name
}

/// Derives the PostgreSQL user from the namespace and the instance name.
pub fn odoo_username(namespace: &str, name: &str) -> (r: String)
    ensures
        r@ == username_text(namespace@, name@),
{
    concat4("odoo.", namespace, ".", name)
}

/// Two instances share no user: namespaces hold no dot.
pub proof fn law_users_are_not_shared(
    ns: Seq<char>,
    name: Seq<char>,
    other_ns: Seq<char>,
    other_name: Seq<char>,
)
    requires
        !ns.contains('.'),
        !other_ns.contains('.'),
        username_text(ns, name) == username_text(other_ns, other_name),
    ensures
        ns == other_ns,
        name == other_name,
{
    reveal_strlit("odoo.");
    reveal_strlit(".");
    let a = username_text(ns, name);
    let b = username_text(other_ns, other_name);
    let n = ns.len() as int;
    let m = other_ns.len() as int;
    assert(a[5 + n] == '.');
    assert(b[5 + m] == '.');
    if n < m {
        assert(b[5 + n] == other_ns[n]);
        assert(other_ns.contains('.'));
    }
    if m < n {
        assert(a[5 + m] == ns[m]);
        assert(ns.contains('.'));
    }
    assert(ns =~= a.subrange(5, 5 + n));
    assert(other_ns =~= b.subrange(5, 5 + m));
    assert(name =~= a.skip(6 + n));
    assert(other_name =~= b.skip(6 + m));
}

/// Whether a character may stand in a database name: a lower-case ASCII letter
/// or a digit.
pub open spec fn is_plain(c: char) -> bool {
    'a' <= c <= 'z' || '0' <= c <= '9'
}

/// A character that may stand in a database name.
pub open spec fn plain_char(c: char) -> char {
    if is_plain(c) {
        c
    } else {
        '_'
    }
}

/// `uid` with an underscore for each character that may not stand in a database
/// name.
pub open spec fn sanitised(uid: Seq<char>) -> Seq<char> {
    uid.map_values(|c: char| plain_char(c))
}

/// Turns a UID into a component of a database name: each character that is no
/// lower-case letter and no digit becomes an underscore.
pub fn sanitise_uid(uid: &str) -> (r: String)
    ensures
        r@ == sanitised(uid@),
{
    let chars = chars_of(uid);
    let mut out = String::new();
    let mut i: usize = 0;
    while i < chars.len()
        invariant
            i <= chars.len(),
            chars@ == uid@,
            out@ == sanitised(uid@.take(i as int)),
        decreases chars.len() - i,
    {
        let c: char = chars[i];
        if ('a' <= c && c <= 'z') || ('0' <= c && c <= '9') {
            out.push(c);
        } else {
            out.push('_');
        }
        assert(out@ == sanitised(uid@.take(i + 1)));
        i += 1;
    }
    assert(uid@.take(i as int) == uid@);
    out
}

/// The UID of an instance, or a stand-in for one that has none yet.
pub open spec fn uid_text(instance: OdooInstance) -> Seq<char> {
    match instance.metadata.uid {
        Some(u) => u@,
        None => "unknown"@,
    }
}

/// The database of an instance.
pub open spec fn db_name_text(instance: OdooInstance) -> Seq<char> {
    "odoo_"@ + sanitised(uid_text(instance))
}

/// Derives the database name from the UID of the instance.
pub fn db_name(instance: &OdooInstance) -> (r: String)
    ensures
        r@ == db_name_text(*instance),
{
    let uid = match &instance.metadata.uid {
        Some(u) => sanitise_uid(u.as_str()),
        None => sanitise_uid("unknown"),
    };
    concat2("odoo_", uid.as_str())
}

/// Sanitising twice changes nothing more.
pub proof fn law_sanitising_is_idempotent(uid: Seq<char>)
    ensures
        sanitised(sanitised(uid)) == sanitised(uid),
{
}

/// A database name component holds lower-case letters, digits and underscores
/// only, one for each character of the UID.
pub proof fn law_sanitised_alphabet(uid: Seq<char>)
    ensures
        sanitised(uid).len() == uid.len(),
        forall|i: int|
            0 <= i < uid.len() ==> is_plain(#[trigger] sanitised(uid)[i]) || sanitised(uid)[i]
                == '_',
{
}

/// A UID of lower-case letters and digits is its own component.
pub proof fn law_plain_uid_is_kept(uid: Seq<char>)
    requires
        forall|i: int| 0 <= i < uid.len() ==> is_plain(#[trigger] uid[i]),
    ensures
        sanitised(uid) == uid,
{
}

// ── Secrets and hashes ───────────────────────────────────────────────────────

/// The lower-case hexadecimal digit of a number below 16.
pub open spec fn hex_digit(n: int) -> char {
    if n < 10 {
        (48 + n) as char
    } else {
        (87 + n) as char
    }
}

/// Two lower-case hexadecimal digits for each byte.
pub open spec fn hex_text(bytes: Seq<u8>) -> Seq<char>
    decreases bytes.len(),
{
    if bytes.len() == 0 {
        Seq::empty()
    } else {
        hex_text(bytes.drop_last()).push(hex_digit(bytes.last() as int / 16)).push(
            hex_digit(bytes.last() as int % 16),
        )
    }
}

/// Encodes bytes with `hex::encode`: two lower-case hexadecimal digits for each
/// byte, the high half first.
#[verifier::external_body]
fn hex_encode(bytes: &[u8]) -> (r: String)
    ensures
        r@ == hex_text(bytes@),
{
    hex::encode(bytes)
}

/// Twenty-four random bytes from `rand::thread_rng`, filled by `Rng::fill`.
///
/// Nothing is claimed of their values.
#[verifier::external_body]
fn random_bytes() -> (r: Vec<u8>)
    ensures
        r@.len() == 24,
{
    let mut bytes = [0u8; 24];
    rand::thread_rng().fill(&mut bytes);
    bytes.to_vec()
}

/// The password that random bytes make.
pub fn password_from_bytes(bytes: &[u8]) -> (r: String)
    ensures
        r@ == hex_text(bytes@),
{
    hex_encode(bytes)
}

/// Generates a random password of 48 hexadecimal digits.
pub fn generate_password() -> (r: String)
    ensures
        exists|bytes: Seq<u8>| bytes.len() == 24 && r@ == #[trigger] hex_text(bytes),
        r@.len() == 48,
        forall|i: int| 0 <= i < r@.len() ==> is_hex_digit(#[trigger] r@[i]),
{
    let bytes = random_bytes();
    proof {
        law_hex_alphabet(bytes@);
    }
    password_from_bytes(bytes.as_slice())
}

/// Whether a character is a lower-case hexadecimal digit.
pub open spec fn is_hex_digit(c: char) -> bool {
    '0' <= c <= '9' || 'a' <= c <= 'f'
}

/// Hexadecimal text has two digits for each byte.
pub proof fn law_hex_alphabet(bytes: Seq<u8>)
    ensures
        hex_text(bytes).len() == 2 * bytes.len(),
        forall|i: int|
            0 <= i < hex_text(bytes).len() ==> is_hex_digit(#[trigger] hex_text(bytes)[i]),
    decreases bytes.len(),
{
    if bytes.len() > 0 {
        law_hex_alphabet(bytes.drop_last());
        let b = bytes.last() as int;
        assert(0 <= b / 16 < 16 && 0 <= b % 16 < 16);
        assert(is_hex_digit(hex_digit(b / 16)));
        assert(is_hex_digit(hex_digit(b % 16)));
    }
}

/// Different bytes make different hexadecimal text.
pub proof fn law_hex_is_injective(a: Seq<u8>, b: Seq<u8>)
    requires
        hex_text(a) == hex_text(b),
    ensures
        a == b,
    decreases a.len(),
{
    law_hex_alphabet(a);
    law_hex_alphabet(b);
    if a.len() == 0 {
        assert(a =~= b);
    } else {
        let n = hex_text(a).len() as int;
        let x = a.last() as int;
        let y = b.last() as int;
        assert(hex_text(a)[n - 1] == hex_digit(x % 16));
        assert(hex_text(b)[n - 1] == hex_digit(y % 16));
        assert(hex_text(a)[n - 2] == hex_digit(x / 16));
        assert(hex_text(b)[n - 2] == hex_digit(y / 16));
        assert(x % 16 == y % 16 && x / 16 == y / 16);
        assert(x == y);
        assert(hex_text(a.drop_last()) =~= hex_text(a).take(n - 2));
        assert(hex_text(b.drop_last()) =~= hex_text(b).take(n - 2));
        law_hex_is_injective(a.drop_last(), b.drop_last());
        assert(a =~= a.drop_last().push(a.last()));
        assert(b =~= b.drop_last().push(b.last()));
    }
}

/// The SHA-256 digest of some bytes.
pub uninterp spec fn sha256_digest(bytes: Seq<u8>) -> Seq<u8>;

/// Computes a digest with `sha2::Sha256::digest`: 32 bytes that are determined
/// by the input.
#[verifier::external_body]
pub(crate) fn sha256(bytes: &[u8]) -> (r: Vec<u8>)
    ensures
        r@ == sha256_digest(bytes@),
        r@.len() == 32,
{
    sha2::Sha256::digest(bytes).to_vec()
}

/// The SHA-256 digest of a string in hexadecimal.
pub open spec fn sha256_text(s: Seq<char>) -> Seq<char> {
    hex_text(sha256_digest(vstd::utf8::encode_utf8(s)))
}

/// Hashes a string and returns the digest in hexadecimal.
pub fn sha256_hex(input: &str) -> (r: String)
    ensures
        r@ == sha256_text(input@),
        r@.len() == 64,
{
    let digest = sha256(input.as_bytes());
    proof {
        law_hex_alphabet(digest@);
    }
    hex_encode(digest.as_slice())
}

// ── odoo.conf ────────────────────────────────────────────────────────────────

/// The options that every instance starts from.
pub open spec fn base_options(
    username: Seq<char>,
    password: Seq<char>,
    db_host: Seq<char>,
    db_port: int,
    db_name: Seq<char>,
) -> Map<Seq<char>, Seq<char>> {
    Map::empty().insert("data_dir"@, "/var/lib/odoo"@).insert("logfile"@, Seq::empty()).insert(
        "log_level"@,
        "info"@,
    ).insert("proxy_mode"@, "True"@).insert("addons_path"@, "/mnt/extra-addons"@).insert(
        "db_host"@,
        db_host,
    ).insert("db_port"@, int_text(db_port)).insert("db_name"@, db_name).insert(
        "db_user"@,
        username,
    ).insert("db_password"@, password).insert("list_db"@, "False"@).insert(
        "http_interface"@,
        "0.0.0.0"@,
    ).insert("http_port"@, "8069"@)
}

/// Options with the entries of a list on top, the later ones last.
pub open spec fn overridden(
    base: Map<Seq<char>, Seq<char>>,
    extra: Seq<(Seq<char>, Seq<char>)>,
) -> Map<Seq<char>, Seq<char>>
    decreases extra.len(),
{
    if extra.len() == 0 {
        base
    } else {
        overridden(base, extra.drop_last()).insert(extra.last().0, extra.last().1)
    }
}

/// The addon directories of the standard image.
pub open spec fn standard_addons() -> Seq<char> {
    "/opt/odoo/addons,/opt/odoo/odoo/addons"@
}

/// The addon path with the standard directories in front.
pub open spec fn full_addons_path(own: Seq<char>) -> Seq<char> {
    if own.len() == 0 {
        standard_addons()
    } else {
        standard_addons() + ","@ + own
    }
}

/// The additional entries, or none.
pub open spec fn extra_entries(extra: Option<Vec<(String, String)>>) -> Seq<
    (Seq<char>, Seq<char>),
> {
    match extra {
        Some(v) => pair_texts(v@),
        None => Seq::empty(),
    }
}

/// The options of an instance: the base, the master password where there is
/// one, the additional entries, and the standard addon directories in front of
/// the addon path.
pub open spec fn conf_options(
    username: Seq<char>,
    password: Seq<char>,
    admin_password: Seq<char>,
    db_host: Seq<char>,
    db_port: int,
    db_name: Seq<char>,
    extra: Seq<(Seq<char>, Seq<char>)>,
) -> Map<Seq<char>, Seq<char>> {
    let base = base_options(username, password, db_host, db_port, db_name);
    let with_admin = if admin_password.len() > 0 {
        base.insert("admin_passwd"@, admin_password)
    } else {
        base
    };
    let all = overridden(with_admin, extra);
    all.insert("addons_path"@, full_addons_path(all["addons_path"@]))
}

/// The keys that are written first, in this order.
pub open spec fn standard_keys() -> Seq<Seq<char>> {
    seq![
        "data_dir"@,
        "logfile"@,
        "log_level"@,
        "proxy_mode"@,
        "addons_path"@,
        "db_host"@,
        "db_port"@,
        "db_name"@,
        "db_user"@,
        "db_password"@,
        "list_db"@,
        "http_interface"@,
        "http_port"@,
        "admin_passwd"@,
    ]
}

/// One line of the file.
pub open spec fn conf_line(key: Seq<char>, value: Seq<char>) -> Seq<char> {
    key + " = "@ + value + "\n"@
}

/// The lines of those keys that are set.
pub open spec fn lines_of_keys(m: Map<Seq<char>, Seq<char>>, keys: Seq<Seq<char>>) -> Seq<char>
    decreases keys.len(),
{
    if keys.len() == 0 {
        Seq::empty()
    } else if m.contains_key(keys.last()) {
        lines_of_keys(m, keys.drop_last()) + conf_line(keys.last(), m[keys.last()])
    } else {
        lines_of_keys(m, keys.drop_last())
    }
}

/// The lines of a list of options.
pub open spec fn lines_of_entries(s: Seq<(Seq<char>, Seq<char>)>) -> Seq<char>
    decreases s.len(),
{
    if s.len() == 0 {
        Seq::empty()
    } else {
        lines_of_entries(s.drop_last()) + conf_line(s.last().0, s.last().1)
    }
}

/// Whether a list holds, ordered by key, exactly the options whose keys are not
/// standard.
pub open spec fn is_remainder(
    m: Map<Seq<char>, Seq<char>>,
    rest: Seq<(Seq<char>, Seq<char>)>,
) -> bool {
    &&& keys_increase(rest)
    &&& forall|p: (Seq<char>, Seq<char>)|
        rest.contains(p) <==> (m.contains_key(p.0) && m[p.0] == p.1 && !standard_keys().contains(
            p.0,
        ))
}

/// The options whose keys are not standard, ordered by key.
pub open spec fn remainder(m: Map<Seq<char>, Seq<char>>) -> Seq<(Seq<char>, Seq<char>)> {
    choose|rest: Seq<(Seq<char>, Seq<char>)>| is_remainder(m, rest)
}

/// The content of `odoo.conf` for given options: the standard keys in their
/// order, then the others ordered by key.
pub open spec fn conf_text(m: Map<Seq<char>, Seq<char>>) -> Seq<char> {
    "[options]\n"@ + lines_of_keys(m, standard_keys()) + lines_of_entries(remainder(m))
}

/// There is only one list of the options whose keys are not standard.
pub proof fn law_remainder_is_unique(
    m: Map<Seq<char>, Seq<char>>,
    a: Seq<(Seq<char>, Seq<char>)>,
    b: Seq<(Seq<char>, Seq<char>)>,
)
    requires
        is_remainder(m, a),
        is_remainder(m, b),
    ensures
        a == b,
{
    lemma_ordered_options_unique(a, b);
}

fn standard_key_list() -> (r: Vec<&'static str>)
    ensures
        r@.map_values(|s: &'static str| s@) == standard_keys(),
{
    let r = vec![
        "data_dir",
        "logfile",
        "log_level",
        "proxy_mode",
        "addons_path",
        "db_host",
        "db_port",
        "db_name",
        "db_user",
        "db_password",
        "list_db",
        "http_interface",
        "http_port",
        "admin_passwd",
    ];
    assert(r@.map_values(|s: &'static str| s@) =~= standard_keys());
    r
}

fn push_line(out: &mut String, key: &str, value: &str)
    ensures
        final(out)@ == old(out)@ + conf_line(key@, value@),
{
    out.append(key);
    out.append(" = ");
    out.append(value);
    out.append("\n");
    assert(out@ =~= old(out)@ + conf_line(key@, value@));
}

/// Whether a key is standard.
fn is_standard_key(keys: &Vec<&'static str>, key: &str) -> (r: bool)
    requires
        keys@.map_values(|s: &'static str| s@) == standard_keys(),
    ensures
        r == standard_keys().contains(key@),
{
    let mut i: usize = 0;
    while i < keys.len()
        invariant
            i <= keys.len(),
            keys@.map_values(|s: &'static str| s@) == standard_keys(),
            forall|j: int| 0 <= j < i ==> #[trigger] standard_keys()[j] != key@,
        decreases keys.len() - i,
    {
        assert(standard_keys()[i as int] == keys@[i as int]@);
        if same_text(keys[i], key) {
            return true;
        }
        i += 1;
    }
    assert(keys@.len() == standard_keys().len()) by {
        assert(keys@.map_values(|s: &'static str| s@).len() == keys@.len());
    }
    false
}

/// Writes a table of options.
fn render_options(options: &OptionTable) -> (r: String)
    requires
        options.wf(),
    ensures
        r@ == conf_text(options@),
        is_remainder(options@, remainder(options@)),
{
    let ghost m = options@;
    let keys = standard_key_list();
    assert(keys@.len() == standard_keys().len()) by {
        assert(keys@.map_values(|s: &'static str| s@).len() == keys@.len());
    }
    let mut out = "[options]\n".to_owned();
    let mut i: usize = 0;
    while i < keys.len()
        invariant
            i <= keys.len(),
            options.wf(),
            m == options@,
            keys@.len() == standard_keys().len(),
            keys@.map_values(|s: &'static str| s@) == standard_keys(),
            out@ == "[options]\n"@ + lines_of_keys(m, standard_keys().take(i as int)),
        decreases keys.len() - i,
    {
        let ghost before = out@;
        assert(standard_keys()[i as int] == keys@[i as int]@);
        if let Some(v) = options.get(keys[i]) {
            push_line(&mut out, keys[i], v.as_str());
        }
        proof {
            let t = standard_keys().take(i + 1);
            assert(t.drop_last() == standard_keys().take(i as int));
            assert(t.last() == keys@[i as int]@);
            assert(out@ =~= "[options]\n"@ + lines_of_keys(m, t));
        }
        i += 1;
    }
    assert(standard_keys().take(i as int) == standard_keys());
    let ghost head = out@;
    let ghost mut rest: Seq<(Seq<char>, Seq<char>)> = Seq::empty();
    let ghost all = options.listing();
    proof {
        options.lemma_listing();
    }
    let n: usize = options.len();
    let mut j: usize = 0;
    while j < n
        invariant
            j <= n,
            n == all.len(),
            all == options.listing(),
            keys_increase(all),
            options.wf(),
            keys@.map_values(|s: &'static str| s@) == standard_keys(),
            out@ == head + lines_of_entries(rest),
            keys_increase(rest),
            forall|k: int|
                0 <= k < rest.len() ==> !standard_keys().contains((#[trigger] rest[k]).0)
                    && all.take(j as int).contains(rest[k]),
            forall|k: int|
                0 <= k < j && !standard_keys().contains((#[trigger] all[k]).0) ==> rest.contains(
                    all[k],
                ),
        decreases n - j,
    {
        let (key, value) = options.entry(j);
        let ghost p = all[j as int];
        let ghost before = rest;
        if !is_standard_key(&keys, key) {
            push_line(&mut out, key, value);
            proof {
                rest = before.push(p);
                assert(rest.drop_last() == before);
                assert(out@ =~= head + lines_of_entries(rest));
                assert forall|a: int, b: int| 0 <= a < b < rest.len() implies #[trigger] crate::text::text_less(
                    (#[trigger] rest[a]).0,
                    (#[trigger] rest[b]).0,
                ) by {
                    if b == before.len() {
                        let t = all.take(j as int);
                        assert(t.contains(before[a]));
                        let c = choose|c: int| 0 <= c < t.len() && t[c] == before[a];
                        assert(all[c] == before[a]);
                        assert(crate::text::text_less(all[c].0, all[j as int].0));
                    } else {
                        assert(crate::text::text_less(before[a].0, before[b].0));
                    }
                }
            }
        }
        proof {
            let t0 = all.take(j as int);
            let t1 = all.take(j + 1);
            assert forall|k: int| 0 <= k < rest.len() implies !standard_keys().contains(
                (#[trigger] rest[k]).0,
            ) && t1.contains(rest[k]) by {
                if k < before.len() {
                    assert(rest[k] == before[k]);
                    assert(t0.contains(before[k]));
                    let c = choose|c: int| 0 <= c < t0.len() && t0[c] == before[k];
                    assert(t1[c] == before[k]);
                } else {
                    assert(t1[j as int] == p);
                }
            }
            assert forall|k: int|
                0 <= k < j + 1 && !standard_keys().contains(
                    (#[trigger] all[k]).0,
                ) implies rest.contains(all[k]) by {
                if k < j {
                    assert(before.contains(all[k]));
                    let c = choose|c: int| 0 <= c < before.len() && before[c] == all[k];
                    assert(rest[c] == all[k]);
                } else {
                    assert(rest[rest.len() - 1] == all[k]);
                }
            }
        }
        j += 1;
    }
    proof {
        assert(all.take(n as int) == all);
        options.lemma_listing();
        assert forall|p: (Seq<char>, Seq<char>)|
            rest.contains(p) <==> (m.contains_key(p.0) && m[p.0] == p.1
                && !standard_keys().contains(p.0)) by {
            if rest.contains(p) {
                let k = choose|k: int| 0 <= k < rest.len() && rest[k] == p;
                assert(all.contains(rest[k]));
                let c = choose|c: int| 0 <= c < all.len() && all[c] == p;
                assert(m.contains_key(all[c].0));
            }
            if m.contains_key(p.0) && m[p.0] == p.1 && !standard_keys().contains(p.0) {
                let c = choose|c: int| 0 <= c < all.len() && (#[trigger] all[c]).0 == p.0;
                assert(all[c] == p);
                assert(rest.contains(all[c]));
            }
        }
        assert(is_remainder(m, rest));
        law_remainder_is_unique(m, rest, remainder(m));
        assert(out@ =~= conf_text(m));
    }
    out
}

/// Builds the content of `odoo.conf`.
pub fn build_odoo_conf(
    username: &str,
    password: &str,
    admin_password: &str,
    db_host: &str,
    db_port: i32,
    db_name: &str,
    extra: &Option<Vec<(String, String)>>,
) -> (r: String)
    ensures
        r@ == conf_text(
            conf_options(
                username@,
                password@,
                admin_password@,
                db_host@,
                db_port as int,
                db_name@,
                extra_entries(*extra),
            ),
        ),
        ({
            let m = conf_options(
                username@,
                password@,
                admin_password@,
                db_host@,
                db_port as int,
                db_name@,
                extra_entries(*extra),
            );
            is_remainder(m, remainder(m))
        }),
{
    let mut options = OptionTable::new();
    options.insert("data_dir", "/var/lib/odoo".to_owned());
    options.insert("logfile", String::new());
    options.insert("log_level", "info".to_owned());
    options.insert("proxy_mode", "True".to_owned());
    options.insert("addons_path", "/mnt/extra-addons".to_owned());
    options.insert("db_host", db_host.to_owned());
    options.insert("db_port", int_to_string(db_port as i64));
    options.insert("db_name", db_name.to_owned());
    options.insert("db_user", username.to_owned());
    options.insert("db_password", password.to_owned());
    options.insert("list_db", "False".to_owned());
    options.insert("http_interface", "0.0.0.0".to_owned());
    options.insert("http_port", "8069".to_owned());
    assert(options@ == base_options(username@, password@, db_host@, db_port as int, db_name@));
    if !admin_password.is_empty() {
        options.insert("admin_passwd", admin_password.to_owned());
    }
    let ghost with_admin = options@;
    let ghost entries = extra_entries(*extra);
    assert(with_admin.contains_key("addons_path"@));
    if let Some(list) = extra {
        let mut i: usize = 0;
        while i < list.len()
            invariant
                i <= list.len(),
                entries == pair_texts(list@),
                options.wf(),
                options@ == overridden(with_admin, entries.take(i as int)),
                with_admin.contains_key("addons_path"@),
                options@.contains_key("addons_path"@),
            decreases list.len() - i,
        {
            options.insert(list[i].0.as_str(), list[i].1.clone());
            proof {
                let t = entries.take(i + 1);
                assert(t.drop_last() == entries.take(i as int));
                assert(t.last() == (list@[i as int].0@, list@[i as int].1@));
            }
            i += 1;
        }
        assert(entries.take(i as int) == entries);
    }
    assert(options@ == overridden(with_admin, entries));
    // The addon directories of the image come before the instance's own.
    let standard = "/opt/odoo/addons,/opt/odoo/odoo/addons";
    let own = match options.get("addons_path") {
        Some(p) => p,
        None => String::new(),
    };
    if own.as_str().is_empty() {
        options.insert("addons_path", standard.to_owned());
    } else {
        options.insert("addons_path", concat3(standard, ",", own.as_str()));
    }
    render_options(&options)
}

/// Every additional entry other than the addon path appears with its last value.
pub proof fn law_extra_entries_win(
    base: Map<Seq<char>, Seq<char>>,
    extra: Seq<(Seq<char>, Seq<char>)>,
    i: int,
)
    requires
        0 <= i < extra.len(),
        forall|j: int| i < j < extra.len() ==> (#[trigger] extra[j]).0 != extra[i].0,
    ensures
        overridden(base, extra).contains_key(extra[i].0),
        overridden(base, extra)[extra[i].0] == extra[i].1,
    decreases extra.len(),
{
    if i < extra.len() - 1 {
        let t = extra.drop_last();
        assert(t[i] == extra[i]);
        assert forall|j: int| i < j < t.len() implies (#[trigger] t[j]).0 != t[i].0 by {
            assert(t[j] == extra[j]);
        }
        law_extra_entries_win(base, t, i);
        assert(extra[extra.len() - 1].0 != extra[i].0);
    }
}

/// A key that no additional entry names keeps its value.
pub proof fn law_other_keys_are_kept(
    base: Map<Seq<char>, Seq<char>>,
    extra: Seq<(Seq<char>, Seq<char>)>,
    key: Seq<char>,
)
    requires
        forall|j: int| 0 <= j < extra.len() ==> (#[trigger] extra[j]).0 != key,
    ensures
        overridden(base, extra).contains_key(key) == base.contains_key(key),
        base.contains_key(key) ==> overridden(base, extra)[key] == base[key],
    decreases extra.len(),
{
    if extra.len() > 0 {
        let t = extra.drop_last();
        assert forall|j: int| 0 <= j < t.len() implies (#[trigger] t[j]).0 != key by {
            assert(t[j] == extra[j]);
        }
        law_other_keys_are_kept(base, t, key);
        assert(extra[extra.len() - 1].0 != key);
    }
}

// ── What the configuration is for ────────────────────────────────────────────

/// The options are told apart.
proof fn lemma_option_names()
    ensures
        "data_dir"@.len() == 8,
        "logfile"@.len() == 7,
        "log_level"@.len() == 9,
        "proxy_mode"@.len() == 10,
        "addons_path"@.len() == 11,
        "db_host"@.len() == 7,
        "db_port"@.len() == 7,
        "db_name"@.len() == 7,
        "db_user"@.len() == 7,
        "db_password"@.len() == 11,
        "list_db"@.len() == 7,
        "http_interface"@.len() == 14,
        "http_port"@.len() == 9,
        "admin_passwd"@.len() == 12,
        "db_host"@[0] == 'd',
        "logfile"@[0] == 'l',
        "db_port"@[0] == 'd',
        "db_port"@[3] == 'p',
        "db_host"@[3] == 'h',
        "db_name"@[0] == 'd',
        "db_name"@[3] == 'n',
        "db_user"@[0] == 'd',
        "db_user"@[3] == 'u',
        "db_password"@[0] == 'd',
        "addons_path"@[0] == 'a',
        "list_db"@[1] == 'i',
        "logfile"@[1] == 'o',
        "list_db"@[0] == 'l',
        "http_port"@[0] == 'h',
        "log_level"@[0] == 'l',
{
    reveal_strlit("data_dir");
    reveal_strlit("logfile");
    reveal_strlit("log_level");
    reveal_strlit("proxy_mode");
    reveal_strlit("addons_path");
    reveal_strlit("db_host");
    reveal_strlit("db_port");
    reveal_strlit("db_name");
    reveal_strlit("db_user");
    reveal_strlit("db_password");
    reveal_strlit("list_db");
    reveal_strlit("http_interface");
    reveal_strlit("http_port");
    reveal_strlit("admin_passwd");
}

/// What an instance is configured with, unless its own entries say otherwise: the
/// connection to its database, the master password where there is one, the port of the
/// web server behind a proxy, and no list of databases.
pub proof fn law_instances_are_configured(
    username: Seq<char>,
    password: Seq<char>,
    admin_password: Seq<char>,
    db_host: Seq<char>,
    db_port: int,
    db_name: Seq<char>,
    extra: Seq<(Seq<char>, Seq<char>)>,
    key: Seq<char>,
)
    requires
        forall|j: int| 0 <= j < extra.len() ==> (#[trigger] extra[j]).0 != key,
    ensures
        ({
            let m = conf_options(
                username,
                password,
                admin_password,
                db_host,
                db_port,
                db_name,
                extra,
            );
            &&& key == "db_host"@ ==> m.contains_key(key) && m[key] == db_host
            &&& key == "db_port"@ ==> m.contains_key(key) && m[key] == int_text(db_port)
            &&& key == "db_name"@ ==> m.contains_key(key) && m[key] == db_name
            &&& key == "db_user"@ ==> m.contains_key(key) && m[key] == username
            &&& key == "db_password"@ ==> m.contains_key(key) && m[key] == password
            &&& key == "list_db"@ ==> m.contains_key(key) && m[key] == "False"@
            &&& key == "proxy_mode"@ ==> m.contains_key(key) && m[key] == "True"@
            &&& key == "http_port"@ ==> m.contains_key(key) && m[key] == "8069"@
            &&& key == "http_interface"@ ==> m.contains_key(key) && m[key] == "0.0.0.0"@
            &&& key == "data_dir"@ ==> m.contains_key(key) && m[key] == "/var/lib/odoo"@
            &&& key == "log_level"@ ==> m.contains_key(key) && m[key] == "info"@
            &&& key == "admin_passwd"@ && admin_password.len() > 0 ==> m.contains_key(key)
                && m[key] == admin_password
            &&& key == "admin_passwd"@ && admin_password.len() == 0 ==> !m.contains_key(key)
            &&& key == "addons_path"@ ==> m.contains_key(key) && m[key]
                == "/opt/odoo/addons,/opt/odoo/odoo/addons"@ + ","@ + "/mnt/extra-addons"@
        }),
{
    lemma_option_names();
    reveal_strlit("/mnt/extra-addons");
    let base = base_options(username, password, db_host, db_port, db_name);
    let with_admin = if admin_password.len() > 0 {
        base.insert("admin_passwd"@, admin_password)
    } else {
        base
    };
    law_other_keys_are_kept(with_admin, extra, key);
    assert("/mnt/extra-addons"@.len() == 17);
}

/// The entries of an instance count more than the standard ones, but for the addon path,
/// which they are put behind.
pub proof fn law_own_entries_count(
    username: Seq<char>,
    password: Seq<char>,
    admin_password: Seq<char>,
    db_host: Seq<char>,
    db_port: int,
    db_name: Seq<char>,
    extra: Seq<(Seq<char>, Seq<char>)>,
    i: int,
)
    requires
        0 <= i < extra.len(),
        forall|j: int| i < j < extra.len() ==> (#[trigger] extra[j]).0 != extra[i].0,
    ensures
        ({
            let m = conf_options(
                username,
                password,
                admin_password,
                db_host,
                db_port,
                db_name,
                extra,
            );
            &&& m.contains_key(extra[i].0)
            &&& extra[i].0 != "addons_path"@ ==> m[extra[i].0] == extra[i].1
            &&& extra[i].0 == "addons_path"@ && extra[i].1.len() > 0 ==> m[extra[i].0]
                == "/opt/odoo/addons,/opt/odoo/odoo/addons"@ + ","@ + extra[i].1
        }),
{
    let base = base_options(username, password, db_host, db_port, db_name);
    let with_admin = if admin_password.len() > 0 {
        base.insert("admin_passwd"@, admin_password)
    } else {
        base
    };
    law_extra_entries_win(with_admin, extra, i);
}

/// Every option is written: the file begins with the section and has a line with the key
/// and the value of each option.
pub proof fn law_options_are_written(
    username: &str,
    password: &str,
    admin_password: &str,
    db_host: &str,
    db_port: i32,
    db_name: &str,
    extra: &Option<Vec<(String, String)>>,
    r: String,
    key: Seq<char>,
)
    requires
        call_ensures(
            build_odoo_conf,
            (username, password, admin_password, db_host, db_port, db_name, extra),
            r,
        ),
        conf_options(
            username@,
            password@,
            admin_password@,
            db_host@,
            db_port as int,
            db_name@,
            extra_entries(*extra),
        ).contains_key(key),
    ensures
        ({
            let m = conf_options(
                username@,
                password@,
                admin_password@,
                db_host@,
                db_port as int,
                db_name@,
                extra_entries(*extra),
            );
            exists|a: Seq<char>, b: Seq<char>|
                r@ == "[options]\n"@ + #[trigger] (a + (key + " = "@ + m[key] + "\n"@) + b)
        }),
{
    let m = conf_options(
        username@,
        password@,
        admin_password@,
        db_host@,
        db_port as int,
        db_name@,
        extra_entries(*extra),
    );
    let head = lines_of_keys(m, standard_keys());
    let tail = lines_of_entries(remainder(m));
    let line = key + " = "@ + m[key] + "\n"@;
    assert(line == conf_line(key, m[key]));
    if standard_keys().contains(key) {
        let i = choose|i: int| 0 <= i < standard_keys().len() && standard_keys()[i] == key;
        let (a, b) = lemma_key_is_written(m, standard_keys(), i);
        assert(r@ =~= "[options]\n"@ + (a + line + (b + tail)));
    } else {
        let p = (key, m[key]);
        assert(remainder(m).contains(p));
        let i = choose|i: int| 0 <= i < remainder(m).len() && remainder(m)[i] == p;
        let (a, b) = lemma_entry_is_written(remainder(m), i);
        assert(r@ =~= "[options]\n"@ + ((head + a) + line + b));
    }
}

proof fn lemma_key_is_written(m: Map<Seq<char>, Seq<char>>, keys: Seq<Seq<char>>, i: int) -> (r: (
    Seq<char>,
    Seq<char>,
))
    requires
        0 <= i < keys.len(),
        m.contains_key(keys[i]),
    ensures
        lines_of_keys(m, keys) == r.0 + conf_line(keys[i], m[keys[i]]) + r.1,
    decreases keys.len(),
{
    let before = lines_of_keys(m, keys.drop_last());
    if i == keys.len() - 1 {
        assert(lines_of_keys(m, keys) =~= before + conf_line(keys[i], m[keys[i]])
            + Seq::<char>::empty());
        (before, Seq::empty())
    } else {
        assert(keys.drop_last()[i] == keys[i]);
        let (a, b) = lemma_key_is_written(m, keys.drop_last(), i);
        let rest = if m.contains_key(keys.last()) {
            conf_line(keys.last(), m[keys.last()])
        } else {
            Seq::empty()
        };
        assert(lines_of_keys(m, keys) =~= before + rest);
        assert(lines_of_keys(m, keys) =~= a + conf_line(keys[i], m[keys[i]]) + (b + rest));
        (a, b + rest)
    }
}

proof fn lemma_entry_is_written(s: Seq<(Seq<char>, Seq<char>)>, i: int) -> (r: (
    Seq<char>,
    Seq<char>,
))
    requires
        0 <= i < s.len(),
    ensures
        lines_of_entries(s) == r.0 + conf_line(s[i].0, s[i].1) + r.1,
    decreases s.len(),
{
    let before = lines_of_entries(s.drop_last());
    let last = conf_line(s.last().0, s.last().1);
    if i == s.len() - 1 {
        assert(lines_of_entries(s) =~= before + last + Seq::<char>::empty());
        (before, Seq::empty())
    } else {
        assert(s.drop_last()[i] == s[i]);
        let (a, b) = lemma_entry_is_written(s.drop_last(), i);
        assert(lines_of_entries(s) =~= a + conf_line(s[i].0, s[i].1) + (b + last));
        (a, b + last)
    }
}

/// The database of an instance is named after its UID: letters and digits stay, and
/// everything else becomes an underscore.
pub proof fn law_databases_are_named_after_the_uid(instance: &OdooInstance, r: String, i: int)
    requires
        call_ensures(db_name, (instance,), r),
        instance.metadata.uid matches Some(u) && 0 <= i < u@.len(),
    ensures
        ({
            let c = instance.metadata.uid->0@[i];
            let plain = 'a' <= c <= 'z' || '0' <= c <= '9';
            &&& r@.len() == 5 + instance.metadata.uid->0@.len()
            &&& r@.take(5) == "odoo_"@
            &&& plain ==> r@[5 + i] == c
            &&& !plain ==> r@[5 + i] == '_'
        }),
{
    reveal_strlit("odoo_");
    assert("odoo_"@.len() == 5);
    assert(r@.take(5) =~= "odoo_"@);
}

/// The role of an instance is named after its namespace and its name.
pub proof fn law_roles_are_named_after_the_instance(namespace: &str, name: &str, r: String)
    requires
        call_ensures(odoo_username, (namespace, name), r),
    ensures
        r@ == "odoo."@ + namespace@ + "."@ + name@,
{
}

/// A time is not after another one exactly if its seconds are fewer, or are the same with
/// no more nanoseconds; between two ordinary times lie the seconds and the nanoseconds
/// that they differ by.
pub proof fn law_times_are_ordered(a: &Instant, b: &Instant, r: bool, d: i128)
    requires
        call_ensures(Instant::is_not_after, (a, b), r),
        call_ensures(Instant::since, (a, b), d),
    ensures
        r <==> a.secs < b.secs || (a.secs == b.secs && a.nanos <= b.nanos),
        a.nanos < 1_000_000_000 && b.nanos < 1_000_000_000 ==> d == (a.secs - b.secs)
            * 1_000_000_000 + a.nanos - b.nanos,
{
}

/// A password, and a digest, is written with two hexadecimal digits for each byte, the high
/// half first.
pub proof fn law_bytes_are_written_in_two_digits(bytes: &[u8], r: String, i: int)
    requires
        call_ensures(password_from_bytes, (bytes,), r),
        0 <= i < bytes@.len(),
    ensures
        r@.len() == 2 * bytes@.len(),
        16 * hex_value(r@[2 * i]) + hex_value(r@[2 * i + 1]) == bytes@[i],
{
    lemma_digits_of_byte(bytes@, i);
}

/// The number that a hexadecimal digit stands for.
pub open spec fn hex_value(c: char) -> int {
    if '0' <= c <= '9' {
        c as int - '0' as int
    } else {
        c as int - 'a' as int + 10
    }
}

proof fn lemma_digits_of_byte(bytes: Seq<u8>, i: int)
    requires
        0 <= i < bytes.len(),
    ensures
        hex_text(bytes).len() == 2 * bytes.len(),
        16 * hex_value(hex_text(bytes)[2 * i]) + hex_value(hex_text(bytes)[2 * i + 1]) == bytes[i],
    decreases bytes.len(),
{
    law_hex_alphabet(bytes);
    law_hex_alphabet(bytes.drop_last());
    let b = bytes.last() as int;
    assert(0 <= b / 16 < 16 && 0 <= b % 16 < 16);
    if i < bytes.len() - 1 {
        lemma_digits_of_byte(bytes.drop_last(), i);
        assert(bytes.drop_last()[i] == bytes[i]);
    }
}

/// A password that is made up has 48 hexadecimal digits.
pub proof fn law_passwords_are_long(r: String, i: int)
    requires
        call_ensures(generate_password, (), r),
        0 <= i < r@.len(),
    ensures
        r@.len() == 48,
        '0' <= r@[i] <= '9' || 'a' <= r@[i] <= 'f',
{
    assert(is_hex_digit(r@[i]));
}

/// An operator that is told nothing has no defaults.
pub proof fn law_unset_defaults_are_empty(r: OperatorDefaults)
    requires
        call_ensures(<OperatorDefaults as Default>::default, (), r),
    ensures
        r.odoo_image@.len() == 0 && r.storage_class@.len() == 0 && r.storage_size@.len() == 0,
        r.ingress_class@.len() == 0 && r.ingress_issuer@.len() == 0,
        r.resources is None && r.affinity is None && r.tolerations@.len() == 0,
{
}

} // verus!
