//! What every instance needs whatever phase it is in: its Secret, its role, its
//! claim, its configuration, its Service, its Ingress and its Deployments.

use vstd::prelude::*;

use crate::controller::helpers::{
    claim_name, claim_text, conf_map_name, conf_map_text, user_secret_name, user_secret_text,
};
use crate::controller::manifests::{
    env_views, holds_entry, mount_views, port_views, rule_views, ConfigMapManifest,
    ConfigMapManifestView,
    Container, ContainerPort, ContainerPortView, ContainerView, DeploymentManifest,
    DeploymentManifestView, HttpProbe, HttpProbeView, IngressManifest, IngressManifestView,
    IngressPath, IngressPathView, IngressRule, IngressRuleView, OwnerReference, OwnerReferenceView,
    PvcManifest, PvcManifestView, SecretManifest, SecretManifestView, ServiceManifest,
    ServiceManifestView, ServicePort, ServicePortView,
};
use crate::crd::meta::{clone_list, clone_opt, opt_text};
use crate::crd::odoo_instance::{DeploymentStrategyType, OdooInstance, OdooInstanceSpec};
use crate::helpers::{
    build_odoo_conf, conf_options, conf_text, db_name, db_name_text, extra_entries,
    generate_password, hex_text, odoo_username, sha256_hex, sha256_text, username_text,
    OperatorDefaults,
};
use crate::options::pair_texts;
use crate::postgres::PostgresClusterConfig;
use crate::secret_data::{text_or_default, text_under};
use crate::text::{concat2, int_text, int_to_string, texts};

verus! {

// ── Operator defaults ────────────────────────────────────────────────────────

/// The part of a spec that the operator fills in where it is unset.
#[verifier::ext_equal]
pub struct Defaultable {
    pub image: Option<Seq<char>>,
    pub storage_class: Option<Seq<char>>,
    pub storage_size: Option<Seq<char>>,
    pub issuer: Option<Seq<char>>,
    pub class: Option<Seq<char>>,
    pub resources: Option<Seq<char>>,
    pub affinity: Option<Seq<char>>,
    pub tolerations: Seq<Seq<char>>,
    pub cron_resources: Option<Seq<char>>,
}

/// The part of a spec that the operator fills in.
pub open spec fn defaultable(spec: OdooInstanceSpec) -> Defaultable {
    Defaultable {
        image: opt_text(spec.image),
        storage_class: spec.desired_storage_class(),
        storage_size: spec.desired_storage_size(),
        issuer: opt_text(spec.ingress.issuer),
        class: opt_text(spec.ingress.class),
        resources: opt_text(spec.resources),
        affinity: opt_text(spec.affinity),
        tolerations: texts(spec.tolerations@),
        cron_resources: opt_text(spec.cron.resources),
    }
}

/// The fields of a spec that are to be set.
#[derive(Clone, Debug)]
pub struct SpecPatch {
    pub image: Option<String>,
    pub storage_class: Option<String>,
    pub storage_size: Option<String>,
    pub issuer: Option<String>,
    pub class: Option<String>,
    pub resources: Option<String>,
    pub affinity: Option<String>,
    /// Empty where the tolerations are left alone.
    pub tolerations: Vec<String>,
    pub cron_resources: Option<String>,
}

impl View for SpecPatch {
    type V = Defaultable;

    open spec fn view(&self) -> Defaultable {
        Defaultable {
            image: opt_text(self.image),
            storage_class: opt_text(self.storage_class),
            storage_size: opt_text(self.storage_size),
            issuer: opt_text(self.issuer),
            class: opt_text(self.class),
            resources: opt_text(self.resources),
            affinity: opt_text(self.affinity),
            tolerations: texts(self.tolerations@),
            cron_resources: opt_text(self.cron_resources),
        }
    }
}

/// Nothing at all.
pub open spec fn nothing_set() -> Defaultable {
    Defaultable {
        image: None,
        storage_class: None,
        storage_size: None,
        issuer: None,
        class: None,
        resources: None,
        affinity: None,
        tolerations: Seq::empty(),
        cron_resources: None,
    }
}

/// A configured text, or a fallback where it is empty.
pub open spec fn or_fallback(configured: Seq<char>, fallback: Seq<char>) -> Seq<char> {
    if configured.len() == 0 {
        fallback
    } else {
        configured
    }
}

/// A value for a field that is unset.
pub open spec fn if_unset<T>(field: Option<T>, value: Option<T>) -> Option<T> {
    if field is None {
        value
    } else {
        None
    }
}

/// A text, unless it is empty.
pub open spec fn non_empty(s: Seq<char>) -> Option<Seq<char>> {
    if s.len() == 0 {
        None
    } else {
        Some(s)
    }
}

/// The fields that the operator sets: each one that is unset and has a default.
pub open spec fn missing(d: Defaultable, defaults: OperatorDefaults) -> Defaultable {
    Defaultable {
        image: if_unset(d.image, Some(or_fallback(defaults.odoo_image@, "odoo:18.0"@))),
        storage_class: if_unset(
            d.storage_class,
            Some(or_fallback(defaults.storage_class@, "standard"@)),
        ),
        storage_size: if_unset(
            d.storage_size,
            Some(or_fallback(defaults.storage_size@, "2Gi"@)),
        ),
        issuer: if_unset(d.issuer, non_empty(defaults.ingress_issuer@)),
        class: if_unset(d.class, non_empty(defaults.ingress_class@)),
        resources: if_unset(d.resources, opt_text(defaults.resources)),
        affinity: if_unset(d.affinity, opt_text(defaults.affinity)),
        tolerations: if d.tolerations.len() == 0 {
            texts(defaults.tolerations@)
        } else {
            Seq::empty()
        },
        cron_resources: if_unset(d.cron_resources, opt_text(defaults.resources)),
    }
}

/// A field after a patch.
pub open spec fn set_over<T>(field: Option<T>, patch: Option<T>) -> Option<T> {
    if patch is Some {
        patch
    } else {
        field
    }
}

/// A spec after a patch.
pub open spec fn merged(d: Defaultable, patch: Defaultable) -> Defaultable {
    Defaultable {
        image: set_over(d.image, patch.image),
        storage_class: set_over(d.storage_class, patch.storage_class),
        storage_size: set_over(d.storage_size, patch.storage_size),
        issuer: set_over(d.issuer, patch.issuer),
        class: set_over(d.class, patch.class),
        resources: set_over(d.resources, patch.resources),
        affinity: set_over(d.affinity, patch.affinity),
        tolerations: if patch.tolerations.len() > 0 {
            patch.tolerations
        } else {
            d.tolerations
        },
        cron_resources: set_over(d.cron_resources, patch.cron_resources),
    }
}

fn copy_or(configured: &String, fallback: &str) -> (r: String)
    ensures
        r@ == or_fallback(configured@, fallback@),
{
    if configured.as_str().is_empty() {
        fallback.to_owned()
    } else {
        configured.clone()
    }
}

fn copy_non_empty(configured: &String) -> (r: Option<String>)
    ensures
        opt_text(r) == non_empty(configured@),
{
    if configured.as_str().is_empty() {
        None
    } else {
        Some(configured.clone())
    }
}

/// The operator's defaults for the fields of a spec that are unset, and whether
/// there are any.
pub fn apply_defaults(instance: &OdooInstance, defaults: &OperatorDefaults) -> (r: (
    SpecPatch,
    bool,
))
    ensures
        r.0@ == missing(defaultable(instance.spec), *defaults),
        r.1 == (r.0@ != nothing_set()),
{
    let spec = &instance.spec;
    let image = match &spec.image {
        Some(_) => None,
        None => Some(copy_or(&defaults.odoo_image, "odoo:18.0")),
    };
    let storage_class = match spec.storage_class() {
        Some(_) => None,
        None => Some(copy_or(&defaults.storage_class, "standard")),
    };
    let storage_size = match spec.storage_size() {
        Some(_) => None,
        None => Some(copy_or(&defaults.storage_size, "2Gi")),
    };
    let issuer = match &spec.ingress.issuer {
        Some(_) => None,
        None => copy_non_empty(&defaults.ingress_issuer),
    };
    let class = match &spec.ingress.class {
        Some(_) => None,
        None => copy_non_empty(&defaults.ingress_class),
    };
    let resources = match &spec.resources {
        Some(_) => None,
        None => clone_opt(&defaults.resources),
    };
    let affinity = match &spec.affinity {
        Some(_) => None,
        None => clone_opt(&defaults.affinity),
    };
    let tolerations = if spec.tolerations.len() == 0 {
        clone_list(&defaults.tolerations)
    } else {
        Vec::new()
    };
    let cron_resources = match &spec.cron.resources {
        Some(_) => None,
        None => clone_opt(&defaults.resources),
    };
    let changed = image.is_some() || storage_class.is_some() || storage_size.is_some()
        || issuer.is_some() || class.is_some() || resources.is_some() || affinity.is_some()
        || tolerations.len() > 0 || cron_resources.is_some();
    let patch = SpecPatch {
        image,
        storage_class,
        storage_size,
        issuer,
        class,
        resources,
        affinity,
        tolerations,
        cron_resources,
    };
    proof {
        let want = missing(defaultable(instance.spec), *defaults);
        assert(patch@.tolerations =~= want.tolerations);
        assert(patch@ == want);
        if !changed {
            assert(patch@.tolerations =~= Seq::empty());
            assert(patch@ == nothing_set());
        }
    }
    (patch, changed)
}

/// Once the defaults are written there is nothing more to write: the second
/// reconciliation goes on.
pub proof fn law_defaults_are_written_once(d: Defaultable, defaults: OperatorDefaults)
    ensures
        missing(merged(d, missing(d, defaults)), defaults) == nothing_set(),
{
    let after = merged(d, missing(d, defaults));
    let again = missing(after, defaults);
    assert(again.tolerations =~= Seq::empty());
    assert(again =~= nothing_set());
}

/// What is set in a spec stays as it is.
pub proof fn law_defaults_change_no_set_field(d: Defaultable, defaults: OperatorDefaults)
    ensures
        ({
            let after = merged(d, missing(d, defaults));
            &&& d.image is Some ==> after.image == d.image
            &&& d.storage_class is Some ==> after.storage_class == d.storage_class
            &&& d.storage_size is Some ==> after.storage_size == d.storage_size
            &&& d.issuer is Some ==> after.issuer == d.issuer
            &&& d.class is Some ==> after.class == d.class
            &&& d.resources is Some ==> after.resources == d.resources
            &&& d.affinity is Some ==> after.affinity == d.affinity
            &&& d.tolerations.len() > 0 ==> after.tolerations == d.tolerations
            &&& d.cron_resources is Some ==> after.cron_resources == d.cron_resources
        }),
{
}

// ── Image pull secret ────────────────────────────────────────────────────────

/// The Secret with which the images of an instance are pulled, if one is named.
pub open spec fn pull_secret(instance: OdooInstance) -> Option<Seq<char>> {
    match instance.spec.image_pull_secret {
        Some(s) => non_empty(s@),
        None => None,
    }
}

/// A copy of a Secret in another namespace.  It belongs to nobody, so that the
/// instances of a namespace can share it.
#[derive(Clone, Debug)]
pub struct SecretCopy {
    pub name: String,
    pub namespace: String,
    pub type_: Option<String>,
    pub data: Option<Vec<(String, Vec<u8>)>>,
}

/// The Secret that has to be copied to the namespace of the instance: the one
/// with which its images are pulled, unless it is there already.
pub fn pull_secret_to_copy(instance: &OdooInstance, present: bool) -> (r: Option<String>)
    ensures
        opt_text(r) == if present {
            None
        } else {
            pull_secret(*instance)
        },
{
    match &instance.spec.image_pull_secret {
        Some(s) => if present {
            None
        } else {
            copy_non_empty(s)
        },
        None => None,
    }
}

/// The copy of the Secret with which the images of an instance are pulled.
pub fn ensure_image_pull_secret(
    ns: &str,
    name: &str,
    type_: Option<String>,
    data: Option<Vec<(String, Vec<u8>)>>,
) -> (r: SecretCopy)
    ensures
        r.name@ == name@,
        r.namespace@ == ns@,
        r.type_ == type_,
        r.data == data,
{
    SecretCopy { name: name.to_owned(), namespace: ns.to_owned(), type_, data }
}

// ── Database credentials ─────────────────────────────────────────────────────

/// What a look at an object showed.
#[derive(Clone, Copy, Debug, PartialEq, Eq, Structural)]
pub enum Lookup {
    Found,
    NotFound,
    Failed,
}

/// What is due about an object that is written once.
#[derive(Clone, Debug)]
pub enum SecretDecision {
    /// The Secret exists and stays as it is.
    Keep,
    /// Create the Secret.
    Create { secret: SecretManifest },
    /// The Secret could not be looked at.
    Fail,
}

/// The Secret with the database credentials of an instance.
pub open spec fn user_secret(
    ns: Seq<char>,
    name: Seq<char>,
    owner: OwnerReferenceView,
    password: Seq<char>,
) -> SecretManifestView {
    SecretManifestView {
        name: user_secret_text(name),
        namespace: ns,
        owner,
        string_data: seq![("password"@, password), ("username"@, username_text(ns, name))],
    }
}

/// Builds the Secret with the database credentials of an instance.
pub fn build_user_secret(ns: &str, name: &str, oref: &OwnerReference, password: String) -> (r:
    SecretManifest)
    ensures
        r@ == user_secret(ns@, name@, oref@, password@),
{
    let r = SecretManifest {
        name: user_secret_name(name),
        namespace: ns.to_owned(),
        owner: oref.copied(),
        string_data: vec![
            ("password".to_owned(), password),
            ("username".to_owned(), odoo_username(ns, name)),
        ],
    };
    assert(pair_texts(r.string_data@) =~= user_secret(ns@, name@, oref@, password@).string_data);
    r
}

/// What is due about the database credentials: they are made once, with a random
/// password.
pub fn ensure_odoo_user_secret(ns: &str, name: &str, oref: &OwnerReference, look: Lookup) -> (r:
    SecretDecision)
    ensures
        match look {
            Lookup::Found => r is Keep,
            Lookup::NotFound => r matches SecretDecision::Create { secret } && exists|
                bytes: Seq<u8>,
            |
                bytes.len() == 24 && secret@ == user_secret(
                    ns@,
                    name@,
                    oref@,
                    #[trigger] hex_text(bytes),
                ),
            Lookup::Failed => r is Fail,
        },
{
    match look {
        Lookup::Found => SecretDecision::Keep,
        Lookup::NotFound => {
            let password = generate_password();
            let ghost p = password@;
            let secret = build_user_secret(ns, name, oref, password);
            proof {
                let bytes = choose|bytes: Seq<u8>|
                    bytes.len() == 24 && p == #[trigger] hex_text(bytes);
                assert(secret@ == user_secret(ns@, name@, oref@, hex_text(bytes)));
            }
            SecretDecision::Create { secret }
        },
        Lookup::Failed => SecretDecision::Fail,
    }
}

/// The user and the password that a Secret holds; what is missing is empty.
pub fn ensure_postgres_role(data: &Vec<(String, Vec<u8>)>) -> (r: (String, String))
    ensures
        r.0@ == text_under(data@, "username"@),
        r.1@ == text_under(data@, "password"@),
{
    (text_or_default(data, "username"), text_or_default(data, "password"))
}

// ── Filestore claim ──────────────────────────────────────────────────────────

/// The claim on the filestore volume of an instance.
pub open spec fn filestore_claim(
    ns: Seq<char>,
    name: Seq<char>,
    instance: OdooInstance,
    defaults: OperatorDefaults,
    owner: OwnerReferenceView,
) -> PvcManifestView {
    PvcManifestView {
        name: claim_text(name),
        namespace: ns,
        owner: Some(owner),
        access_mode: "ReadWriteMany"@,
        storage_class: match instance.spec.desired_storage_class() {
            Some(c) => c,
            None => defaults.storage_class@,
        },
        storage_size: match instance.spec.desired_storage_size() {
            Some(s) => s,
            None => defaults.storage_size@,
        },
        volume_name: None,
    }
}

/// The claim to create, unless it exists: claims do not change.
pub fn ensure_filestore_pvc(
    ns: &str,
    name: &str,
    instance: &OdooInstance,
    defaults: &OperatorDefaults,
    oref: &OwnerReference,
    present: bool,
) -> (r: Option<PvcManifest>)
    ensures
        present ==> r is None,
        !present ==> (r matches Some(c) && c@ == filestore_claim(
            ns@,
            name@,
            *instance,
            *defaults,
            oref@,
        )),
{
    if present {
        return None;
    }
    let storage_class = match instance.spec.storage_class() {
        Some(c) => c,
        None => defaults.storage_class.clone(),
    };
    let storage_size = match instance.spec.storage_size() {
        Some(s) => s,
        None => defaults.storage_size.clone(),
    };
    Some(
        PvcManifest {
            name: claim_name(name),
            namespace: ns.to_owned(),
            owner: Some(oref.copied()),
            access_mode: "ReadWriteMany".to_owned(),
            storage_class,
            storage_size,
            volume_name: None,
        },
    )
}

// ── Configuration ────────────────────────────────────────────────────────────

/// The configuration file of an instance.
pub open spec fn instance_conf(
    ns: Seq<char>,
    name: Seq<char>,
    instance: OdooInstance,
    pg: PostgresClusterConfig,
    password: Seq<char>,
) -> Seq<char> {
    conf_text(
        conf_options(
            username_text(ns, name),
            password,
            instance.spec.admin_password@,
            pg.host@,
            pg.port as int,
            db_name_text(instance),
            extra_entries(instance.spec.config_options),
        ),
    )
}

/// The ConfigMap of an instance: the configuration file and the connection to
/// the database.
pub open spec fn config_map(
    ns: Seq<char>,
    name: Seq<char>,
    instance: OdooInstance,
    pg: PostgresClusterConfig,
    owner: OwnerReferenceView,
    password: Seq<char>,
) -> ConfigMapManifestView {
    ConfigMapManifestView {
        name: conf_map_text(name),
        namespace: ns,
        owner,
        data: seq![
            ("db_host"@, pg.host@),
            ("db_name"@, db_name_text(instance)),
            ("db_password"@, password),
            ("db_port"@, int_text(pg.port as int)),
            ("db_user"@, username_text(ns, name)),
            ("odoo.conf"@, instance_conf(ns, name, instance, pg, password)),
        ],
    }
}

/// Builds the ConfigMap of an instance from the Secret with its credentials.
pub fn ensure_config_map(
    ns: &str,
    name: &str,
    instance: &OdooInstance,
    pg: &PostgresClusterConfig,
    oref: &OwnerReference,
    secret: &Vec<(String, Vec<u8>)>,
) -> (r: ConfigMapManifest)
    ensures
        r@ == config_map(ns@, name@, *instance, *pg, oref@, text_under(secret@, "password"@)),
{
    let username = odoo_username(ns, name);
    let db = db_name(instance);
    let password = text_or_default(secret, "password");
    let conf = build_odoo_conf(
        username.as_str(),
        password.as_str(),
        instance.spec.admin_password.as_str(),
        pg.host.as_str(),
        pg.port,
        db.as_str(),
        &instance.spec.config_options,
    );
    let r = ConfigMapManifest {
        name: conf_map_name(name),
        namespace: ns.to_owned(),
        owner: oref.copied(),
        data: vec![
            ("db_host".to_owned(), pg.host.clone()),
            ("db_name".to_owned(), db),
            ("db_password".to_owned(), password),
            ("db_port".to_owned(), int_to_string(pg.port as i64)),
            ("db_user".to_owned(), username),
            ("odoo.conf".to_owned(), conf),
        ],
    };
    assert(pair_texts(r.data@) =~= config_map(
        ns@,
        name@,
        *instance,
        *pg,
        oref@,
        text_under(secret@, "password"@),
    ).data);
    r
}

// ── Network ──────────────────────────────────────────────────────────────────

/// The port of the web server.
pub const HTTP_PORT: i32 = 8069;

/// The port of the websocket server.
pub const WEBSOCKET_PORT: i32 = 8072;

/// A TCP port of a Service.
pub open spec fn service_port(name: Seq<char>, port: i32) -> ServicePortView {
    ServicePortView { name, port, target_port: port, protocol: "TCP"@ }
}

/// The Service of an instance.
pub open spec fn service(
    ns: Seq<char>,
    name: Seq<char>,
    owner: OwnerReferenceView,
) -> ServiceManifestView {
    ServiceManifestView {
        name,
        namespace: ns,
        owner,
        label: name,
        selector: name,
        type_: "ClusterIP"@,
        ports: seq![service_port("http"@, HTTP_PORT), service_port("websocket"@, WEBSOCKET_PORT)],
    }
}

fn tcp_port(name: &str, port: i32) -> (r: ServicePort)
    ensures
        r@ == service_port(name@, port),
{
    ServicePort { name: name.to_owned(), port, target_port: port, protocol: "TCP".to_owned() }
}

/// Builds the Service of an instance.
pub fn ensure_service(ns: &str, name: &str, oref: &OwnerReference) -> (r: ServiceManifest)
    ensures
        r@ == service(ns@, name@, oref@),
{
    let r = ServiceManifest {
        name: name.to_owned(),
        namespace: ns.to_owned(),
        owner: oref.copied(),
        label: name.to_owned(),
        selector: name.to_owned(),
        type_: "ClusterIP".to_owned(),
        ports: vec![tcp_port("http", HTTP_PORT), tcp_port("websocket", WEBSOCKET_PORT)],
    };
    assert(r@.ports =~= service(ns@, name@, oref@).ports);
    r
}

/// The rule for one host: the websocket has its own port.
pub open spec fn host_rule(name: Seq<char>, host: Seq<char>) -> IngressRuleView {
    IngressRuleView {
        host,
        paths: seq![
            IngressPathView {
                path: "/websocket"@,
                path_type: "Prefix"@,
                service: name,
                port: WEBSOCKET_PORT,
            },
            IngressPathView {
                path: "/"@,
                path_type: "Prefix"@,
                service: name,
                port: HTTP_PORT,
            },
        ],
    }
}

/// The Ingress of an instance: a rule for each host and a certificate for all of
/// them.
pub open spec fn ingress(
    ns: Seq<char>,
    name: Seq<char>,
    instance: OdooInstance,
    owner: OwnerReferenceView,
) -> IngressManifestView {
    IngressManifestView {
        name,
        namespace: ns,
        owner,
        annotations: match instance.spec.ingress.issuer {
            Some(i) => seq![("cert-manager.io/cluster-issuer"@, i@)],
            None => Seq::empty(),
        },
        class: opt_text(instance.spec.ingress.class),
        rules: texts(instance.spec.ingress.hosts@).map_values(
            |h: Seq<char>| host_rule(name, h),
        ),
        tls_hosts: texts(instance.spec.ingress.hosts@),
        tls_secret: name + "-tls"@,
    }
}

fn build_rule(name: &str, host: &String) -> (r: IngressRule)
    ensures
        r@ == host_rule(name@, host@),
{
    let r = IngressRule {
        host: host.clone(),
        paths: vec![
            IngressPath {
                path: "/websocket".to_owned(),
                path_type: "Prefix".to_owned(),
                service: name.to_owned(),
                port: WEBSOCKET_PORT,
            },
            IngressPath {
                path: "/".to_owned(),
                path_type: "Prefix".to_owned(),
                service: name.to_owned(),
                port: HTTP_PORT,
            },
        ],
    };
    assert(r@.paths =~= host_rule(name@, host@).paths);
    r
}

/// Builds the Ingress of an instance.
pub fn ensure_ingress(ns: &str, name: &str, instance: &OdooInstance, oref: &OwnerReference) -> (r:
    IngressManifest)
    ensures
        r@ == ingress(ns@, name@, *instance, oref@),
{
    let hosts = &instance.spec.ingress.hosts;
    let mut rules: Vec<IngressRule> = Vec::new();
    let mut i: usize = 0;
    let ghost want = ingress(ns@, name@, *instance, oref@);
    while i < hosts.len()
        invariant
            i <= hosts.len(),
            rules.len() == i,
            forall|j: int| 0 <= j < i ==> (#[trigger] rules@[j])@ == host_rule(name@, hosts@[j]@),
        decreases hosts.len() - i,
    {
        rules.push(build_rule(name, &hosts[i]));
        i += 1;
    }
    let annotations = match &instance.spec.ingress.issuer {
        Some(issuer) => vec![("cert-manager.io/cluster-issuer".to_owned(), issuer.clone())],
        None => Vec::new(),
    };
    let r = IngressManifest {
        name: name.to_owned(),
        namespace: ns.to_owned(),
        owner: oref.copied(),
        annotations,
        class: clone_opt(&instance.spec.ingress.class),
        rules,
        tls_hosts: clone_list(hosts),
        tls_secret: concat2(name, "-tls"),
    };
    proof {
        assert(pair_texts(r.annotations@) =~= want.annotations);
        assert forall|j: int| 0 <= j < hosts.len() implies rule_views(r.rules@)[j]
            == want.rules[j] by {
            assert(rule_views(r.rules@)[j] == r.rules@[j]@);
            assert(want.rules[j] == host_rule(name@, texts(hosts@)[j]));
        }
        assert(rule_views(r.rules@) =~= want.rules);
    }
    r
}

// ── Deployments ──────────────────────────────────────────────────────────────

/// The image of the Deployments: the one of the spec, else the operator's.
pub open spec fn deployed_image(instance: OdooInstance, defaults: OperatorDefaults) -> Seq<char> {
    match instance.spec.image {
        Some(i) => i@,
        None => defaults.odoo_image@,
    }
}

fn copy_image(instance: &OdooInstance, defaults: &OperatorDefaults) -> (r: String)
    ensures
        r@ == deployed_image(*instance, *defaults),
{
    match &instance.spec.image {
        Some(i) => i.clone(),
        None => defaults.odoo_image.clone(),
    }
}

/// The update strategy of the Deployments.
pub open spec fn strategy_of(instance: OdooInstance) -> DeploymentStrategyType {
    match instance.spec.strategy {
        Some(s) => s.strategy_type,
        None => DeploymentStrategyType::Recreate,
    }
}

fn strategy_name(instance: &OdooInstance) -> (r: String)
    ensures
        r@ == strategy_of(*instance).text(),
{
    match &instance.spec.strategy {
        Some(s) => s.strategy_type.as_str().to_owned(),
        None => DeploymentStrategyType::Recreate.as_str().to_owned(),
    }
}

/// The paths of the health checks: startup, liveness, readiness.
pub open spec fn probe_paths(instance: OdooInstance) -> (Seq<char>, Seq<char>, Seq<char>) {
    match instance.spec.probes {
        Some(p) => (p.startup_path@, p.liveness_path@, p.readiness_path@),
        None => ("/web/health"@, "/web/health"@, "/web/health"@),
    }
}

fn copy_probe_paths(instance: &OdooInstance) -> (r: (String, String, String))
    ensures
        (r.0@, r.1@, r.2@) == probe_paths(*instance),
{
    match &instance.spec.probes {
        Some(p) => (p.startup_path.clone(), p.liveness_path.clone(), p.readiness_path.clone()),
        None => (
            "/web/health".to_owned(),
            "/web/health".to_owned(),
            "/web/health".to_owned(),
        ),
    }
}

/// A health check of the web server.
pub open spec fn http_probe(
    path: Seq<char>,
    delay: Option<i32>,
    period: i32,
    failures: i32,
) -> HttpProbeView {
    HttpProbeView {
        path,
        port: HTTP_PORT,
        initial_delay_seconds: delay,
        period_seconds: period,
        timeout_seconds: 5,
        failure_threshold: failures,
    }
}

fn make_http_probe(path: String, delay: Option<i32>, period: i32, failures: i32) -> (r: HttpProbe)
    ensures
        r@ == http_probe(path@, delay, period, failures),
{
    HttpProbe {
        path,
        port: HTTP_PORT,
        initial_delay_seconds: delay,
        period_seconds: period,
        timeout_seconds: 5,
        failure_threshold: failures,
    }
}

/// The configuration file that a ConfigMap holds, or nothing.
pub open spec fn stored_conf(conf: Option<String>) -> Seq<char> {
    crate::crd::meta::text_or_empty(conf)
}

/// The container that serves the web.
pub open spec fn web_container(
    name: Seq<char>,
    instance: OdooInstance,
    defaults: OperatorDefaults,
    command: Seq<Seq<char>>,
) -> ContainerView {
    ContainerView {
        name: "odoo-"@ + name,
        image: deployed_image(instance, defaults),
        image_pull_policy: Some("IfNotPresent"@),
        command,
        args: Seq::empty(),
        env: Seq::empty(),
        odoo_mounts: true,
        volume_mounts: Seq::empty(),
        ports: seq![
            ContainerPortView { name: "http"@, container_port: HTTP_PORT },
            ContainerPortView { name: "websocket"@, container_port: WEBSOCKET_PORT },
        ],
        resources: opt_text(instance.spec.resources),
        startup_probe: Some(http_probe(probe_paths(instance).0, Some(5), 10, 30)),
        liveness_probe: Some(http_probe(probe_paths(instance).1, None, 15, 3)),
        readiness_probe: Some(http_probe(probe_paths(instance).2, None, 10, 3)),
    }
}

/// The container that runs the scheduled actions.
pub open spec fn cron_container(
    name: Seq<char>,
    instance: OdooInstance,
    defaults: OperatorDefaults,
) -> ContainerView {
    ContainerView {
        name: "odoo-cron-"@ + name,
        image: deployed_image(instance, defaults),
        image_pull_policy: Some("IfNotPresent"@),
        command: seq!["/entrypoint.sh"@, "odoo"@, "--workers"@, "0"@, "--no-http"@],
        args: Seq::empty(),
        env: Seq::empty(),
        odoo_mounts: true,
        volume_mounts: Seq::empty(),
        ports: Seq::empty(),
        resources: opt_text(instance.spec.cron.resources),
        startup_probe: None,
        liveness_probe: None,
        readiness_probe: None,
    }
}

/// A Deployment of an instance.  Its pods carry the digest of the configuration,
/// which makes them restart when it changes.
pub open spec fn deployment(
    depl_name: Seq<char>,
    ns: Seq<char>,
    name: Seq<char>,
    instance: OdooInstance,
    owner: OwnerReferenceView,
    replicas: i32,
    conf: Option<String>,
    container: ContainerView,
) -> DeploymentManifestView {
    DeploymentManifestView {
        name: depl_name,
        namespace: ns,
        owner,
        label: name,
        pod_label: depl_name,
        replicas,
        strategy: strategy_of(instance).text(),
        pod_annotations: seq![("bemade.org/odoo-conf-hash"@, sha256_text(stored_conf(conf)))],
        image_pull_secret: opt_text(instance.spec.image_pull_secret),
        affinity: opt_text(instance.spec.affinity),
        tolerations: texts(instance.spec.tolerations@),
        volumes_of: name,
        container,
    }
}

/// The replica count to write: the state machine alone changes it, so what is
/// there stays.
pub open spec fn kept_replicas(current: Option<i32>) -> i32 {
    match current {
        Some(n) => n,
        None => 0,
    }
}

/// Builds a Deployment of an instance around a container.
pub fn build_deployment(
    depl_name: &str,
    ns: &str,
    name: &str,
    instance: &OdooInstance,
    oref: &OwnerReference,
    current: Option<i32>,
    conf: &Option<String>,
    container: Container,
) -> (r: DeploymentManifest)
    ensures
        r@ == deployment(
            depl_name@,
            ns@,
            name@,
            *instance,
            oref@,
            kept_replicas(current),
            *conf,
            container@,
        ),
{
    let replicas: i32 = match current {
        Some(n) => n,
        None => 0,
    };
    let conf_hash = match conf {
        Some(c) => sha256_hex(c.as_str()),
        None => {
            proof {
                reveal_strlit("");
                assert(""@ =~= Seq::<char>::empty());
            }
            sha256_hex("")
        },
    };
    let r = DeploymentManifest {
        name: depl_name.to_owned(),
        namespace: ns.to_owned(),
        owner: oref.copied(),
        label: name.to_owned(),
        pod_label: depl_name.to_owned(),
        replicas,
        strategy: strategy_name(instance),
        pod_annotations: vec![("bemade.org/odoo-conf-hash".to_owned(), conf_hash)],
        image_pull_secret: clone_opt(&instance.spec.image_pull_secret),
        affinity: clone_opt(&instance.spec.affinity),
        tolerations: clone_list(&instance.spec.tolerations),
        volumes_of: name.to_owned(),
        container,
    };
    assert(pair_texts(r.pod_annotations@) =~= seq![
        ("bemade.org/odoo-conf-hash"@, sha256_text(stored_conf(*conf))),
    ]);
    r
}

/// Builds the container that serves the web.
pub fn build_web_container(
    name: &str,
    instance: &OdooInstance,
    defaults: &OperatorDefaults,
    command: Vec<String>,
) -> (r: Container)
    ensures
        r@ == web_container(name@, *instance, *defaults, texts(command@)),
{
    let paths = copy_probe_paths(instance);
    let ghost want = web_container(name@, *instance, *defaults, texts(command@));
    let r = Container {
        name: concat2("odoo-", name),
        image: copy_image(instance, defaults),
        image_pull_policy: Some("IfNotPresent".to_owned()),
        command,
        args: Vec::new(),
        env: Vec::new(),
        odoo_mounts: true,
        volume_mounts: Vec::new(),
        ports: vec![
            ContainerPort { name: "http".to_owned(), container_port: HTTP_PORT },
            ContainerPort { name: "websocket".to_owned(), container_port: WEBSOCKET_PORT },
        ],
        resources: clone_opt(&instance.spec.resources),
        startup_probe: Some(make_http_probe(paths.0, Some(5), 10, 30)),
        liveness_probe: Some(make_http_probe(paths.1, None, 15, 3)),
        readiness_probe: Some(make_http_probe(paths.2, None, 10, 3)),
    };
    proof {
        assert(texts(r.args@) =~= want.args);
        assert(env_views(r.env@) =~= want.env);
        assert(mount_views(r.volume_mounts@) =~= want.volume_mounts);
        assert(port_views(r.ports@) =~= want.ports);
    }
    r
}

/// The command of the container that serves the web: scheduled actions run
/// elsewhere.
pub open spec fn web_command() -> Seq<Seq<char>> {
    seq!["/entrypoint.sh"@, "odoo"@, "--max-cron-threads"@, "0"@]
}

/// Builds the Deployment that serves the web, given the replica count that is
/// there and the configuration file that the ConfigMap holds.
pub fn ensure_deployment(
    ns: &str,
    name: &str,
    instance: &OdooInstance,
    defaults: &OperatorDefaults,
    oref: &OwnerReference,
    current: Option<i32>,
    conf: &Option<String>,
) -> (r: DeploymentManifest)
    ensures
        r@ == deployment(
            name@,
            ns@,
            name@,
            *instance,
            oref@,
            kept_replicas(current),
            *conf,
            web_container(name@, *instance, *defaults, web_command()),
        ),
{
    let command = vec![
        "/entrypoint.sh".to_owned(),
        "odoo".to_owned(),
        "--max-cron-threads".to_owned(),
        "0".to_owned(),
    ];
    assert(texts(command@) =~= web_command());
    let container = build_web_container(name, instance, defaults, command);
    build_deployment(name, ns, name, instance, oref, current, conf, container)
}

/// Builds the Deployment that runs the scheduled actions, under its own name.
pub fn ensure_cron_deployment(
    depl_name: &str,
    ns: &str,
    name: &str,
    instance: &OdooInstance,
    defaults: &OperatorDefaults,
    oref: &OwnerReference,
    current: Option<i32>,
    conf: &Option<String>,
) -> (r: DeploymentManifest)
    ensures
        r@ == deployment(
            depl_name@,
            ns@,
            name@,
            *instance,
            oref@,
            kept_replicas(current),
            *conf,
            cron_container(name@, *instance, *defaults),
        ),
{
    let ghost want = cron_container(name@, *instance, *defaults);
    let container = Container {
        name: concat2("odoo-cron-", name),
        image: copy_image(instance, defaults),
        image_pull_policy: Some("IfNotPresent".to_owned()),
        command: vec![
            "/entrypoint.sh".to_owned(),
            "odoo".to_owned(),
            "--workers".to_owned(),
            "0".to_owned(),
            "--no-http".to_owned(),
        ],
        args: Vec::new(),
        env: Vec::new(),
        odoo_mounts: true,
        volume_mounts: Vec::new(),
        ports: Vec::new(),
        resources: clone_opt(&instance.spec.cron.resources),
        startup_probe: None,
        liveness_probe: None,
        readiness_probe: None,
    };
    proof {
        assert(texts(container.command@) =~= want.command);
        assert(texts(container.args@) =~= want.args);
        assert(env_views(container.env@) =~= want.env);
        assert(mount_views(container.volume_mounts@) =~= want.volume_mounts);
        assert(port_views(container.ports@) =~= want.ports);
    }
    build_deployment(depl_name, ns, name, instance, oref, current, conf, container)
}

/// Writing a Deployment again never changes how many replicas run.
pub proof fn law_replicas_are_kept(
    depl_name: Seq<char>,
    ns: Seq<char>,
    name: Seq<char>,
    instance: OdooInstance,
    owner: OwnerReferenceView,
    current: i32,
    conf: Option<String>,
    container: ContainerView,
)
    ensures
        deployment(
            depl_name,
            ns,
            name,
            instance,
            owner,
            kept_replicas(Some(current)),
            conf,
            container,
        ).replicas == current,
{
}

// ── What the children are for ────────────────────────────────────────────────

/// The entries of the ConfigMap and of the Secret are told apart.
proof fn lemma_entry_names()
    ensures
        "db_host"@.len() == 7,
        "db_name"@.len() == 7,
        "db_password"@.len() == 11,
        "db_port"@.len() == 7,
        "db_user"@.len() == 7,
        "odoo.conf"@.len() == 9,
        "password"@.len() == 8,
        "username"@.len() == 8,
        "db_name"@[3] == 'n',
        "db_host"@[3] == 'h',
        "db_port"@[3] == 'p',
        "db_user"@[3] == 'u',
        "username"@[0] == 'u',
        "password"@[0] == 'p',
{
    reveal_strlit("db_host");
    reveal_strlit("db_name");
    reveal_strlit("db_password");
    reveal_strlit("db_port");
    reveal_strlit("db_user");
    reveal_strlit("odoo.conf");
    reveal_strlit("password");
    reveal_strlit("username");
}

/// The paths and the ports are told apart.
proof fn lemma_route_names()
    ensures
        "/websocket"@.len() == 10,
        "/"@.len() == 1,
        "http"@.len() == 4,
        "websocket"@.len() == 9,
{
    reveal_strlit("/websocket");
    reveal_strlit("/");
    reveal_strlit("http");
    reveal_strlit("websocket");
}

/// Whether a rule sends a path to a port of a Service, and to no other.
pub open spec fn routes(rule: IngressRuleView, path: Seq<char>, service: Seq<char>, port: int) -> bool {
    &&& exists|i: int| 0 <= i < rule.paths.len() && (#[trigger] rule.paths[i]).path == path
    &&& forall|i: int|
        0 <= i < rule.paths.len() && (#[trigger] rule.paths[i]).path == path ==> {
            &&& rule.paths[i].service == service
            &&& rule.paths[i].port == port
            &&& rule.paths[i].path_type == "Prefix"@
        }
}

/// An Ingress serves the hosts of the spec and no others: of the class that the spec
/// names, with a certificate for every host from the issuer that the spec names, and
/// with the websocket apart from everything else.
pub proof fn law_ingresses_serve_the_hosts(
    ns: &str,
    name: &str,
    instance: &OdooInstance,
    oref: &OwnerReference,
    r: IngressManifest,
)
    requires
        call_ensures(ensure_ingress, (ns, name, instance, oref), r),
    ensures
        r@.name == name@,
        r@.namespace == ns@,
        r@.owner == oref@,
        instance.spec.ingress.class matches Some(c) ==> (r.class matches Some(k) && k@ == c@),
        instance.spec.ingress.class is None ==> r.class is None,
        instance.spec.ingress.issuer matches Some(i) ==> holds_entry(
            r@.annotations,
            "cert-manager.io/cluster-issuer"@,
            i@,
        ),
        instance.spec.ingress.issuer is None ==> r@.annotations.len() == 0,
        r@.rules.len() == instance.spec.ingress.hosts@.len(),
        forall|i: int|
            0 <= i < r@.rules.len() ==> {
                &&& (#[trigger] r@.rules[i]).host == instance.spec.ingress.hosts@[i]@
                &&& routes(r@.rules[i], "/websocket"@, name@, 8072)
                &&& routes(r@.rules[i], "/"@, name@, 8069)
            },
        r@.tls_hosts.len() == instance.spec.ingress.hosts@.len(),
        forall|i: int|
            0 <= i < r@.tls_hosts.len() ==> #[trigger] r@.tls_hosts[i]
                == instance.spec.ingress.hosts@[i]@,
        r@.tls_secret == name@ + "-tls"@,
{
    lemma_route_names();
    let hosts = texts(instance.spec.ingress.hosts@);
    assert forall|i: int| 0 <= i < r@.rules.len() implies {
        &&& (#[trigger] r@.rules[i]).host == instance.spec.ingress.hosts@[i]@
        &&& routes(r@.rules[i], "/websocket"@, name@, 8072)
        &&& routes(r@.rules[i], "/"@, name@, 8069)
    } by {
        let rule = r@.rules[i];
        assert(rule == host_rule(name@, hosts[i]));
        assert(hosts[i] == instance.spec.ingress.hosts@[i]@);
        assert(rule.paths.len() == 2);
        assert(rule.paths[0].path == "/websocket"@);
        assert(rule.paths[1].path == "/"@);
    }
    if let Some(issuer) = instance.spec.ingress.issuer {
        assert(r@.annotations[0].0 == "cert-manager.io/cluster-issuer"@);
    }
}

/// Requests reach the pods: the Ingress sends them to the Service, which has those
/// ports and selects the pods that serve the web, whose container listens there.
pub proof fn law_requests_reach_the_pods(
    ns: &str,
    name: &str,
    instance: &OdooInstance,
    defaults: &OperatorDefaults,
    oref: &OwnerReference,
    current: Option<i32>,
    conf: &Option<String>,
    service: ServiceManifest,
    web: DeploymentManifest,
)
    requires
        call_ensures(ensure_service, (ns, name, oref), service),
        call_ensures(
            ensure_deployment,
            (ns, name, instance, defaults, oref, current, conf),
            web,
        ),
    ensures
        service@.name == name@,
        service@.namespace == ns@,
        web@.namespace == ns@,
        service@.selector == web@.pod_label,
        service@.type_ == "ClusterIP"@,
        service@.ports.len() == 2,
        forall|i: int|
            0 <= i < service@.ports.len() ==> {
                &&& (#[trigger] service@.ports[i]).protocol == "TCP"@
                &&& service@.ports[i].target_port == web@.container.ports[i].container_port
                &&& service@.ports[i].port == service@.ports[i].target_port
                &&& service@.ports[i].name == web@.container.ports[i].name
            },
        service@.ports[0].name == "http"@ && service@.ports[0].port == 8069,
        service@.ports[1].name == "websocket"@ && service@.ports[1].port == 8072,
{
}

/// The ConfigMap holds the connection to the database under the keys that jobs read:
/// host and port of the cluster, the database and the role of the instance, and the
/// password of its Secret.
pub proof fn law_config_maps_hold_the_connection(
    ns: &str,
    name: &str,
    instance: &OdooInstance,
    pg: &PostgresClusterConfig,
    oref: &OwnerReference,
    secret: &Vec<(String, Vec<u8>)>,
    r: ConfigMapManifest,
)
    requires
        call_ensures(ensure_config_map, (ns, name, instance, pg, oref, secret), r),
    ensures
        r@.name == name@ + "-odoo-conf"@,
        r@.namespace == ns@,
        r@.owner == oref@,
        holds_entry(r@.data, "db_host"@, pg.host@),
        holds_entry(r@.data, "db_port"@, int_text(pg.port as int)),
        holds_entry(r@.data, "db_name"@, db_name_text(*instance)),
        holds_entry(r@.data, "db_user"@, "odoo."@ + ns@ + "."@ + name@),
        holds_entry(r@.data, "db_password"@, text_under(secret@, "password"@)),
        holds_entry(
            r@.data,
            "odoo.conf"@,
            conf_text(
                conf_options(
                    "odoo."@ + ns@ + "."@ + name@,
                    text_under(secret@, "password"@),
                    instance.spec.admin_password@,
                    pg.host@,
                    pg.port as int,
                    db_name_text(*instance),
                    extra_entries(instance.spec.config_options),
                ),
            ),
        ),
{
    lemma_entry_names();
    assert(r@.data.len() == 6);
    assert(r@.data[0].0 == "db_host"@);
    assert(r@.data[1].0 == "db_name"@);
    assert(r@.data[2].0 == "db_password"@);
    assert(r@.data[3].0 == "db_port"@);
    assert(r@.data[4].0 == "db_user"@);
    assert(r@.data[5].0 == "odoo.conf"@);
}

/// The Secret of an instance holds the role of the instance and the password that it
/// was made with.
pub proof fn law_user_secrets_hold_the_role(
    ns: &str,
    name: &str,
    oref: &OwnerReference,
    password: String,
    r: SecretManifest,
)
    requires
        call_ensures(build_user_secret, (ns, name, oref, password), r),
    ensures
        r@.name == name@ + "-odoo-user"@,
        r@.namespace == ns@,
        r@.owner == oref@,
        holds_entry(r@.string_data, "username"@, "odoo."@ + ns@ + "."@ + name@),
        holds_entry(r@.string_data, "password"@, password@),
{
    lemma_entry_names();
    assert(r@.string_data[0].0 == "password"@);
    assert(r@.string_data[1].0 == "username"@);
}

/// Credentials are made once: a Secret that is there is kept, one that is missing is
/// made, and where that is not known nothing is written.
pub proof fn law_credentials_are_made_once(
    ns: &str,
    name: &str,
    oref: &OwnerReference,
    look: Lookup,
    r: SecretDecision,
)
    requires
        call_ensures(ensure_odoo_user_secret, (ns, name, oref, look), r),
    ensures
        r is Keep <==> look == Lookup::Found,
        r is Create <==> look == Lookup::NotFound,
        r is Fail <==> look == Lookup::Failed,
        r matches SecretDecision::Create { secret } ==> {
            &&& secret@.name == name@ + "-odoo-user"@
            &&& secret@.namespace == ns@
            &&& holds_entry(secret@.string_data, "username"@, "odoo."@ + ns@ + "."@ + name@)
        },
{
    lemma_entry_names();
    if let SecretDecision::Create { secret } = r {
        assert(secret@.string_data[0].0 == "password"@);
        assert(secret@.string_data[1].0 == "username"@);
    }
}

/// The role on the cluster is made with the user and the password of the Secret.
pub proof fn law_roles_have_the_credentials_of_the_secret(
    data: &Vec<(String, Vec<u8>)>,
    r: (String, String),
)
    requires
        call_ensures(ensure_postgres_role, (data,), r),
    ensures
        r.0@ == text_under(data@, "username"@),
        r.1@ == text_under(data@, "password"@),
{
}

/// The claim of an instance has the class and the size of the spec, or else those of
/// the operator, belongs to the instance and is made once.
pub proof fn law_claims_follow_the_spec(
    ns: &str,
    name: &str,
    instance: &OdooInstance,
    defaults: &OperatorDefaults,
    oref: &OwnerReference,
    present: bool,
    r: Option<PvcManifest>,
)
    requires
        call_ensures(ensure_filestore_pvc, (ns, name, instance, defaults, oref, present), r),
    ensures
        r is Some <==> !present,
        r matches Some(c) ==> {
            &&& c@.name == name@ + "-filestore-pvc"@
            &&& c@.namespace == ns@
            &&& c@.owner == Some(oref@)
            &&& c@.access_mode == "ReadWriteMany"@
            &&& c@.volume_name is None
            &&& instance.spec.filestore matches Some(f) ==> f.storage_class matches Some(k) ==>
                c@.storage_class == k@
            &&& instance.spec.filestore matches Some(f) ==> f.storage_size matches Some(k) ==>
                c@.storage_size == k@
            &&& !(instance.spec.filestore matches Some(f) && f.storage_class is Some)
                ==> c@.storage_class == defaults.storage_class@
            &&& !(instance.spec.filestore matches Some(f) && f.storage_size is Some)
                ==> c@.storage_size == defaults.storage_size@
        },
{
}

/// What both Deployments of an instance have in common.
pub open spec fn is_deployment_of(
    r: DeploymentManifestView,
    depl_name: Seq<char>,
    ns: Seq<char>,
    name: Seq<char>,
    instance: OdooInstance,
    defaults: OperatorDefaults,
    owner: OwnerReferenceView,
    current: Option<i32>,
    conf: Option<String>,
) -> bool {
    &&& r.name == depl_name
    &&& r.pod_label == depl_name
    &&& r.label == name
    &&& r.namespace == ns
    &&& r.owner == owner
    &&& r.volumes_of == name
    &&& current matches Some(n) ==> r.replicas == n
    &&& current is None ==> r.replicas == 0
    &&& instance.spec.image matches Some(i) ==> r.container.image == i@
    &&& instance.spec.image is None ==> r.container.image == defaults.odoo_image@
    &&& r.container.image_pull_policy == Some("IfNotPresent"@)
    &&& r.container.odoo_mounts
    &&& instance.spec.image_pull_secret matches Some(k) ==> r.image_pull_secret == Some(k@)
    &&& instance.spec.image_pull_secret is None ==> r.image_pull_secret is None
    &&& instance.spec.affinity matches Some(a) ==> r.affinity == Some(a@)
    &&& instance.spec.affinity is None ==> r.affinity is None
    &&& r.tolerations == texts(instance.spec.tolerations@)
    &&& r.strategy == match instance.spec.strategy {
        Some(k) => match k.strategy_type {
            DeploymentStrategyType::Recreate => "Recreate"@,
            DeploymentStrategyType::RollingUpdate => "RollingUpdate"@,
        },
        None => "Recreate"@,
    }
    &&& conf matches Some(c) ==> holds_entry(
        r.pod_annotations,
        "bemade.org/odoo-conf-hash"@,
        sha256_text(c@),
    )
}

/// The Deployment that serves the web follows the spec, keeps the replicas that are
/// there, restarts its pods when the configuration changes, runs no scheduled actions
/// and is checked at the paths that the spec names.
pub proof fn law_web_deployments_follow_the_spec(
    ns: &str,
    name: &str,
    instance: &OdooInstance,
    defaults: &OperatorDefaults,
    oref: &OwnerReference,
    current: Option<i32>,
    conf: &Option<String>,
    r: DeploymentManifest,
)
    requires
        call_ensures(
            ensure_deployment,
            (ns, name, instance, defaults, oref, current, conf),
            r,
        ),
    ensures
        is_deployment_of(
            r@,
            name@,
            ns@,
            name@,
            *instance,
            *defaults,
            oref@,
            current,
            *conf,
        ),
        r@.container.command == seq!["/entrypoint.sh"@, "odoo"@, "--max-cron-threads"@, "0"@],
        instance.spec.resources matches Some(k) ==> r@.container.resources == Some(k@),
        instance.spec.resources is None ==> r@.container.resources is None,
        r@.container.startup_probe matches Some(p) && p.port == 8069 && p.path
            == match instance.spec.probes {
            Some(k) => k.startup_path@,
            None => "/web/health"@,
        },
        r@.container.liveness_probe matches Some(p) && p.port == 8069 && p.path
            == match instance.spec.probes {
            Some(k) => k.liveness_path@,
            None => "/web/health"@,
        },
        r@.container.readiness_probe matches Some(p) && p.port == 8069 && p.path
            == match instance.spec.probes {
            Some(k) => k.readiness_path@,
            None => "/web/health"@,
        },
{
    if let Some(c) = *conf {
        assert(r@.pod_annotations[0].0 == "bemade.org/odoo-conf-hash"@);
    }
}

/// The Deployment that runs the scheduled actions follows the spec, has its own
/// resources and serves nobody.
pub proof fn law_cron_deployments_follow_the_spec(
    depl_name: &str,
    ns: &str,
    name: &str,
    instance: &OdooInstance,
    defaults: &OperatorDefaults,
    oref: &OwnerReference,
    current: Option<i32>,
    conf: &Option<String>,
    r: DeploymentManifest,
)
    requires
        call_ensures(
            ensure_cron_deployment,
            (depl_name, ns, name, instance, defaults, oref, current, conf),
            r,
        ),
    ensures
        is_deployment_of(
            r@,
            depl_name@,
            ns@,
            name@,
            *instance,
            *defaults,
            oref@,
            current,
            *conf,
        ),
        r@.container.command.contains("--no-http"@),
        r@.container.command == seq![
            "/entrypoint.sh"@,
            "odoo"@,
            "--workers"@,
            "0"@,
            "--no-http"@,
        ],
        instance.spec.cron.resources matches Some(k) ==> r@.container.resources == Some(k@),
        instance.spec.cron.resources is None ==> r@.container.resources is None,
        r@.container.ports.len() == 0,
        r@.container.startup_probe is None,
        r@.container.liveness_probe is None,
        r@.container.readiness_probe is None,
{
    assert(r@.container.command[4] == "--no-http"@);
    if let Some(c) = *conf {
        assert(r@.pod_annotations[0].0 == "bemade.org/odoo-conf-hash"@);
    }
}

/// Defaults fill what is unset and leave what is set alone.  An image, a storage class
/// and a storage size are always filled in, the others where the operator has them.
pub proof fn law_defaults_fill_what_is_unset(
    instance: &OdooInstance,
    defaults: &OperatorDefaults,
    r: (SpecPatch, bool),
)
    requires
        call_ensures(apply_defaults, (instance, defaults), r),
    ensures
        ({
            let spec = instance.spec;
            let patch = r.0;
            let class_set = spec.filestore matches Some(f) && f.storage_class is Some;
            let size_set = spec.filestore matches Some(f) && f.storage_size is Some;
            &&& patch.image is Some <==> spec.image is None
            &&& patch.image matches Some(i) ==> i@ == if defaults.odoo_image@.len() > 0 {
                defaults.odoo_image@
            } else {
                "odoo:18.0"@
            }
            &&& patch.storage_class is Some <==> !class_set
            &&& patch.storage_class matches Some(c) ==> c@ == if defaults.storage_class@.len() > 0 {
                defaults.storage_class@
            } else {
                "standard"@
            }
            &&& patch.storage_size is Some <==> !size_set
            &&& patch.storage_size matches Some(c) ==> c@ == if defaults.storage_size@.len() > 0 {
                defaults.storage_size@
            } else {
                "2Gi"@
            }
            &&& patch.issuer is Some <==> spec.ingress.issuer is None
                && defaults.ingress_issuer@.len() > 0
            &&& patch.issuer matches Some(c) ==> c@ == defaults.ingress_issuer@
            &&& patch.class is Some <==> spec.ingress.class is None
                && defaults.ingress_class@.len() > 0
            &&& patch.class matches Some(c) ==> c@ == defaults.ingress_class@
            &&& patch.resources is Some <==> spec.resources is None && defaults.resources is Some
            &&& patch.resources matches Some(c) ==> c@ == defaults.resources->0@
            &&& patch.affinity is Some <==> spec.affinity is None && defaults.affinity is Some
            &&& patch.affinity matches Some(c) ==> c@ == defaults.affinity->0@
            &&& patch.cron_resources is Some <==> spec.cron.resources is None
                && defaults.resources is Some
            &&& patch.cron_resources matches Some(c) ==> c@ == defaults.resources->0@
            &&& spec.tolerations@.len() > 0 ==> patch.tolerations@.len() == 0
            &&& spec.tolerations@.len() == 0 ==> texts(patch.tolerations@) == texts(
                defaults.tolerations@,
            )
            &&& r.1 <==> patch.image is Some || patch.storage_class is Some || patch.storage_size
                is Some || patch.issuer is Some || patch.class is Some || patch.resources is Some
                || patch.affinity is Some || patch.tolerations@.len() > 0
                || patch.cron_resources is Some
        }),
{
    let p = r.0@;
    assert(opt_text(r.0.image) == p.image);
    assert(opt_text(r.0.storage_class) == p.storage_class);
    assert(opt_text(r.0.storage_size) == p.storage_size);
    assert(opt_text(r.0.issuer) == p.issuer);
    assert(opt_text(r.0.class) == p.class);
    assert(opt_text(r.0.resources) == p.resources);
    assert(opt_text(r.0.affinity) == p.affinity);
    assert(opt_text(r.0.cron_resources) == p.cron_resources);
    assert(texts(r.0.tolerations@) == p.tolerations);
    assert(texts(r.0.tolerations@).len() == r.0.tolerations@.len());
    assert(texts(instance.spec.tolerations@).len() == instance.spec.tolerations@.len());
    if p.tolerations.len() == 0 {
        assert(p.tolerations =~= Seq::empty());
    }
}

/// The Secret for pulling images is copied where the spec names one and it is not there
/// yet, and the copy is the original under the same name in the other namespace.
pub proof fn law_pull_secrets_are_copied_once(
    instance: &OdooInstance,
    present: bool,
    r: Option<String>,
    ns: &str,
    name: &str,
    type_: Option<String>,
    data: Option<Vec<(String, Vec<u8>)>>,
    copy: SecretCopy,
)
    requires
        call_ensures(pull_secret_to_copy, (instance, present), r),
        call_ensures(ensure_image_pull_secret, (ns, name, type_, data), copy),
    ensures
        r is Some <==> !present && (instance.spec.image_pull_secret matches Some(s) && s@.len()
            > 0),
        r matches Some(s) ==> s@ == instance.spec.image_pull_secret->0@,
        copy.name@ == name@,
        copy.namespace@ == ns@,
        copy.type_ == type_,
        copy.data == data,
{
}

/// An instance has five minutes to start and is checked from then on: it is restarted after
/// three failures within 45 seconds, and gets no requests after three within 30.
pub proof fn law_instances_are_checked_in_time(
    ns: &str,
    name: &str,
    instance: &OdooInstance,
    defaults: &OperatorDefaults,
    oref: &OwnerReference,
    current: Option<i32>,
    conf: &Option<String>,
    r: DeploymentManifest,
)
    requires
        call_ensures(
            ensure_deployment,
            (ns, name, instance, defaults, oref, current, conf),
            r,
        ),
    ensures
        r@.container.startup_probe matches Some(p) && p.period_seconds * p.failure_threshold == 300
            && p.failure_threshold == 30 && p.initial_delay_seconds == Some(5i32)
            && p.timeout_seconds == 5,
        r@.container.liveness_probe matches Some(p) && p.period_seconds * p.failure_threshold == 45
            && p.failure_threshold == 3 && p.initial_delay_seconds is None && p.timeout_seconds
            == 5,
        r@.container.readiness_probe matches Some(p) && p.period_seconds * p.failure_threshold
            == 30 && p.failure_threshold == 3 && p.initial_delay_seconds is None
            && p.timeout_seconds == 5,
        r@.container.name == "odoo-"@ + name@,
        r@.container.image_pull_policy == Some("IfNotPresent"@),
        r@.container.args.len() == 0,
        r@.container.env.len() == 0,
        r@.container.volume_mounts.len() == 0,
        r@.container.ports.len() == 2,
        r@.pod_annotations.len() == 1,
        *conf is None ==> r@.pod_annotations[0].1 == sha256_text(Seq::empty()),
{
}

/// The container that runs the scheduled actions has a name of its own and needs nothing
/// besides the standard mounts.
pub proof fn law_cron_containers_are_plain(
    depl_name: &str,
    ns: &str,
    name: &str,
    instance: &OdooInstance,
    defaults: &OperatorDefaults,
    oref: &OwnerReference,
    current: Option<i32>,
    conf: &Option<String>,
    r: DeploymentManifest,
)
    requires
        call_ensures(
            ensure_cron_deployment,
            (depl_name, ns, name, instance, defaults, oref, current, conf),
            r,
        ),
    ensures
        r@.container.name == "odoo-cron-"@ + name@,
        r@.container.args.len() == 0,
        r@.container.env.len() == 0,
        r@.container.volume_mounts.len() == 0,
{
}

} // verus!
