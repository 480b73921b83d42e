//! The batch jobs that do the work of the job resources.

use vstd::prelude::*;

use crate::controller::helpers::{conf_map_name, conf_map_text, image_of, image_text};
use crate::controller::manifests::{
    cm_env, cm_env_of, container_views, env, env_of, env_views, finds_at, job_container,
    make_job_container, mount_views, sees, sees_no, sees_value, volume_views, Container,
    ContainerView, EnvSourceView, EnvVar, EnvVarView, JobManifest, JobManifestView, Volume,
    VolumeMount, VolumeMountView, VolumeSource, VolumeSourceView, VolumeView,
};
use crate::crd::meta::{clone_list, opt_text, text_or_empty, unwrap_or_empty};
use crate::crd::odoo_backup_job::OdooBackupJob;
use crate::crd::odoo_init_job::OdooInitJob;
use crate::crd::odoo_instance::OdooInstance;
use crate::crd::odoo_restore_job::{OdooRestoreJob, RestoreSourceType};
use crate::crd::odoo_upgrade_job::OdooUpgradeJob;
use crate::crd::shared::{BackupFormat, SecretReference};
use crate::helpers::{db_name, db_name_text};
use crate::text::{chars_of, concat2, join, joined, string_of, texts};

verus! {

// ── Common parts ─────────────────────────────────────────────────────────────

/// A job in the standard frame of an instance, without containers.
pub open spec fn framed_job(
    cr_name: Seq<char>,
    ns: Seq<char>,
    deadline: Option<i64>,
    run_beside: Option<Seq<char>>,
    volumes: Seq<VolumeView>,
    init_containers: Seq<ContainerView>,
    containers: Seq<ContainerView>,
) -> JobManifestView {
    JobManifestView {
        generate_name: cr_name + "-"@,
        namespace: ns,
        app_label: None,
        backoff_limit: None,
        active_deadline_seconds: deadline,
        ttl_seconds_after_finished: None,
        restart_policy: None,
        odoo_frame: true,
        image_pull_secret: None,
        run_beside,
        volumes,
        init_containers,
        containers,
    }
}

fn frame_job(
    cr_name: &str,
    ns: &str,
    deadline: Option<i64>,
    run_beside: Option<String>,
    volumes: Vec<Volume>,
    init_containers: Vec<Container>,
    containers: Vec<Container>,
) -> (r: JobManifest)
    ensures
        r@ == framed_job(
            cr_name@,
            ns@,
            deadline,
            opt_text(run_beside),
            volume_views(volumes@),
            container_views(init_containers@),
            container_views(containers@),
        ),
{
    JobManifest {
        generate_name: concat2(cr_name, "-"),
        namespace: ns.to_owned(),
        app_label: None,
        backoff_limit: None,
        active_deadline_seconds: deadline,
        ttl_seconds_after_finished: None,
        restart_policy: None,
        odoo_frame: true,
        image_pull_secret: None,
        run_beside,
        volumes,
        init_containers,
        containers,
    }
}

/// The command that runs Odoo itself.
pub open spec fn odoo_command() -> Seq<Seq<char>> {
    seq!["/entrypoint.sh"@, "odoo"@]
}

fn make_odoo_command() -> (r: Vec<String>)
    ensures
        texts(r@) == odoo_command(),
{
    let r = vec!["/entrypoint.sh".to_owned(), "odoo".to_owned()];
    assert(texts(r@) =~= odoo_command());
    r
}

/// The command that runs a script.
pub open spec fn script_command(script: Seq<char>) -> Seq<Seq<char>> {
    seq!["/bin/sh"@, "-c"@, script]
}

fn make_script_command(script: &str) -> (r: Vec<String>)
    ensures
        texts(r@) == script_command(script@),
{
    let r = vec!["/bin/sh".to_owned(), "-c".to_owned(), script.to_owned()];
    assert(texts(r@) =~= script_command(script@));
    r
}

/// The mount of the scratch volume that the containers of a job share.
pub open spec fn backup_mount() -> VolumeMountView {
    VolumeMountView { name: "backup"@, mount_path: "/mnt/backup"@, read_only: false }
}

fn make_backup_mounts() -> (r: Vec<VolumeMount>)
    ensures
        mount_views(r@) == seq![backup_mount()],
{
    let r = vec![
        VolumeMount {
            name: "backup".to_owned(),
            mount_path: "/mnt/backup".to_owned(),
            read_only: false,
        },
    ];
    assert(mount_views(r@) =~= seq![backup_mount()]);
    r
}

/// The scratch volume that the containers of a job share.
pub open spec fn backup_volume() -> VolumeView {
    VolumeView { name: "backup"@, source: VolumeSourceView::EmptyDir }
}

fn make_backup_volumes() -> (r: Vec<Volume>)
    ensures
        volume_views(r@) == seq![backup_volume()],
{
    let r = vec![Volume { name: "backup".to_owned(), source: VolumeSource::EmptyDir }];
    assert(volume_views(r@) =~= seq![backup_volume()]);
    r
}

/// The connection to the database, read from the ConfigMap of the instance.
pub open spec fn connection_env(instance_name: Seq<char>) -> Seq<EnvVarView> {
    seq![
        cm_env_of("HOST"@, conf_map_text(instance_name), "db_host"@),
        cm_env_of("PORT"@, conf_map_text(instance_name), "db_port"@),
        cm_env_of("USER"@, conf_map_text(instance_name), "db_user"@),
        cm_env_of("PASSWORD"@, conf_map_text(instance_name), "db_password"@),
    ]
}

fn push_env(out: &mut Vec<EnvVar>, e: EnvVar)
    ensures
        env_views(final(out)@) == env_views(old(out)@).push(e@),
{
    out.push(e);
    assert(env_views(out@) =~= env_views(old(out)@).push(e@));
}

fn push_connection_env(out: &mut Vec<EnvVar>, instance_name: &str)
    ensures
        env_views(final(out)@) == env_views(old(out)@) + connection_env(instance_name@),
{
    let map = conf_map_name(instance_name);
    push_env(out, cm_env("HOST", map.as_str(), "db_host"));
    push_env(out, cm_env("PORT", map.as_str(), "db_port"));
    push_env(out, cm_env("USER", map.as_str(), "db_user"));
    push_env(out, cm_env("PASSWORD", map.as_str(), "db_password"));
    assert(env_views(out@) =~= env_views(old(out)@) + connection_env(instance_name@));
}

/// The truth values as jobs read them.
pub open spec fn flag_text(b: bool) -> Seq<char> {
    if b {
        "true"@
    } else {
        "false"@
    }
}

fn flag(b: bool) -> (r: &'static str)
    ensures
        r@ == flag_text(b),
{
    if b {
        "true"
    } else {
        "false"
    }
}

/// Access to an object store: the key and the secret.
#[derive(Clone, Debug)]
pub struct S3Credentials {
    pub access_key: String,
    pub secret_key: String,
}

/// The variables that carry the access to an object store, if there is one.
pub open spec fn credentials_env(c: Option<S3Credentials>) -> Seq<EnvVarView> {
    match c {
        Some(c) => seq![
            env_of("AWS_ACCESS_KEY_ID"@, c.access_key@),
            env_of("AWS_SECRET_ACCESS_KEY"@, c.secret_key@),
        ],
        None => Seq::empty(),
    }
}

fn push_credentials(out: &mut Vec<EnvVar>, c: &Option<S3Credentials>)
    ensures
        env_views(final(out)@) == env_views(old(out)@) + credentials_env(*c),
{
    if let Some(c) = c {
        push_env(out, env("AWS_ACCESS_KEY_ID", c.access_key.as_str()));
        push_env(out, env("AWS_SECRET_ACCESS_KEY", c.secret_key.as_str()));
    }
    assert(env_views(out@) =~= env_views(old(out)@) + credentials_env(*c));
}

/// Where the access to an object store is kept: the name and the namespace of a
/// Secret, if a reference is given.
pub open spec fn credentials_location(
    reference: Option<SecretReference>,
    ns: Seq<char>,
) -> Option<(Seq<char>, Seq<char>)> {
    match reference {
        Some(s) => Some(
            (
                text_or_empty(s.name),
                match s.namespace {
                    Some(n) => n@,
                    None => ns,
                },
            ),
        ),
        None => None,
    }
}

/// Finds out where the access to an object store is kept.
pub fn credentials_secret(reference: &Option<SecretReference>, ns: &str) -> (r: Option<
    (String, String),
>)
    ensures
        match r {
            Some((name, namespace)) => credentials_location(*reference, ns@) == Some(
                (name@, namespace@),
            ),
            None => credentials_location(*reference, ns@) is None,
        },
{
    match reference {
        Some(s) => {
            let namespace = match &s.namespace {
                Some(n) => n.clone(),
                None => ns.to_owned(),
            };
            Some((unwrap_or_empty(&s.name), namespace))
        },
        None => None,
    }
}

// ── Initialisation ───────────────────────────────────────────────────────────

/// The job that initialises a database.
pub open spec fn init_job(
    cr_name: Seq<char>,
    ns: Seq<char>,
    image: Seq<char>,
    db: Seq<char>,
    modules: Seq<Seq<char>>,
) -> JobManifestView {
    framed_job(
        cr_name,
        ns,
        None,
        None,
        Seq::empty(),
        Seq::empty(),
        seq![
            job_container(
                "init"@,
                image,
                odoo_command(),
                seq![
                    "-i"@,
                    joined(modules, ","@),
                    "-d"@,
                    db,
                    "--no-http"@,
                    "--stop-after-init"@,
                ],
                Seq::empty(),
                true,
                Seq::empty(),
            ),
        ],
    )
}

fn no_env() -> (r: Vec<EnvVar>)
    ensures
        env_views(r@) == Seq::<EnvVarView>::empty(),
{
    let r: Vec<EnvVar> = Vec::new();
    assert(env_views(r@) =~= Seq::<EnvVarView>::empty());
    r
}

fn no_mounts() -> (r: Vec<VolumeMount>)
    ensures
        mount_views(r@) == Seq::<VolumeMountView>::empty(),
{
    let r: Vec<VolumeMount> = Vec::new();
    assert(mount_views(r@) =~= Seq::<VolumeMountView>::empty());
    r
}

fn no_volumes() -> (r: Vec<Volume>)
    ensures
        volume_views(r@) == Seq::<VolumeView>::empty(),
{
    let r: Vec<Volume> = Vec::new();
    assert(volume_views(r@) =~= Seq::<VolumeView>::empty());
    r
}

fn no_containers() -> (r: Vec<Container>)
    ensures
        container_views(r@) == Seq::<ContainerView>::empty(),
{
    let r: Vec<Container> = Vec::new();
    assert(container_views(r@) =~= Seq::<ContainerView>::empty());
    r
}

fn one_container(c: Container) -> (r: Vec<Container>)
    ensures
        container_views(r@) == seq![c@],
{
    let r = vec![c];
    assert(container_views(r@) =~= seq![c@]);
    r
}

/// Builds the job that initialises a database.
pub fn build_init_job(
    cr_name: &str,
    ns: &str,
    image: &str,
    db_name: &str,
    modules: &Vec<String>,
) -> (r: JobManifest)
    ensures
        r@ == init_job(cr_name@, ns@, image@, db_name@, texts(modules@)),
{
    let args = vec![
        "-i".to_owned(),
        join(modules, ","),
        "-d".to_owned(),
        db_name.to_owned(),
        "--no-http".to_owned(),
        "--stop-after-init".to_owned(),
    ];
    assert(texts(args@) =~= seq![
        "-i"@,
        joined(texts(modules@), ","@),
        "-d"@,
        db_name@,
        "--no-http"@,
        "--stop-after-init"@,
    ]);
    let container = make_job_container(
        "init",
        image,
        make_odoo_command(),
        args,
        no_env(),
        true,
        no_mounts(),
    );
    frame_job(
        cr_name,
        ns,
        None,
        None,
        no_volumes(),
        no_containers(),
        one_container(container),
    )
}

/// The modules that an init job installs: `base` where none are named.
pub open spec fn modules_to_install(modules: Seq<Seq<char>>) -> Seq<Seq<char>> {
    if modules.len() == 0 {
        seq!["base"@]
    } else {
        modules
    }
}

/// The job that does the work of an init job resource.
pub open spec fn init_work(
    job: OdooInitJob,
    ns: Seq<char>,
    instance: OdooInstance,
) -> JobManifestView {
    init_job(
        job.metadata.name_text(),
        ns,
        image_text(instance),
        db_name_text(instance),
        modules_to_install(texts(job.spec.modules@)),
    )
}

/// Builds the job that does the work of an init job resource.
pub fn build_init_work(job: &OdooInitJob, ns: &str, instance: &OdooInstance) -> (r: JobManifest)
    ensures
        r@ == init_work(*job, ns@, *instance),
{
    let name = job.metadata.name_any();
    let image = image_of(instance);
    let db = db_name(instance);
    let modules = if job.spec.modules.len() == 0 {
        crate::crd::odoo_init_job::default_modules()
    } else {
        clone_list(&job.spec.modules)
    };
    assert(texts(modules@) =~= modules_to_install(texts(job.spec.modules@)));
    build_init_job(name.as_str(), ns, image.as_str(), db.as_str(), &modules)
}

// ── Upgrade ──────────────────────────────────────────────────────────────────

/// The arguments of an upgrade: the modules to upgrade and to install, or all
/// modules where neither are named.
pub open spec fn upgrade_args(
    db: Seq<char>,
    modules: Seq<Seq<char>>,
    install: Seq<Seq<char>>,
) -> Seq<Seq<char>> {
    let base = seq!["-d"@, db, "--no-http"@, "--stop-after-init"@];
    let upgrade = if modules.len() > 0 {
        seq!["-u"@, joined(modules, ","@)]
    } else {
        Seq::empty()
    };
    let add = if install.len() > 0 {
        seq!["-i"@, joined(install, ","@)]
    } else {
        Seq::empty()
    };
    let all = if modules.len() == 0 && install.len() == 0 {
        seq!["-u"@, "all"@]
    } else {
        Seq::empty()
    };
    base + upgrade + add + all
}

/// The job that upgrades modules.
pub open spec fn upgrade_work(
    job: OdooUpgradeJob,
    ns: Seq<char>,
    instance: OdooInstance,
) -> JobManifestView {
    framed_job(
        job.metadata.name_text(),
        ns,
        Some(3600),
        None,
        Seq::empty(),
        Seq::empty(),
        seq![
            job_container(
                "odoo-upgrade"@,
                image_text(instance),
                odoo_command(),
                upgrade_args(
                    db_name_text(instance),
                    texts(job.spec.modules@),
                    texts(job.spec.modules_install@),
                ),
                Seq::empty(),
                true,
                Seq::empty(),
            ),
        ],
    )
}

/// Builds the arguments of an upgrade.
pub fn build_upgrade_args(db: &str, modules: &Vec<String>, install: &Vec<String>) -> (r: Vec<
    String,
>)
    ensures
        texts(r@) == upgrade_args(db@, texts(modules@), texts(install@)),
{
    let mut args = vec![
        "-d".to_owned(),
        db.to_owned(),
        "--no-http".to_owned(),
        "--stop-after-init".to_owned(),
    ];
    if modules.len() > 0 {
        args.push("-u".to_owned());
        args.push(join(modules, ","));
    }
    if install.len() > 0 {
        args.push("-i".to_owned());
        args.push(join(install, ","));
    }
    if modules.len() == 0 && install.len() == 0 {
        args.push("-u".to_owned());
        args.push("all".to_owned());
    }
    assert(texts(args@) =~= upgrade_args(db@, texts(modules@), texts(install@)));
    args
}

/// Builds the job that upgrades modules.
pub fn build_upgrade_work(job: &OdooUpgradeJob, ns: &str, instance: &OdooInstance) -> (r:
    JobManifest)
    ensures
        r@ == upgrade_work(*job, ns@, *instance),
{
    let name = job.metadata.name_any();
    let image = image_of(instance);
    let db = db_name(instance);
    let args = build_upgrade_args(db.as_str(), &job.spec.modules, &job.spec.modules_install);
    let container = make_job_container(
        "odoo-upgrade",
        image.as_str(),
        make_odoo_command(),
        args,
        no_env(),
        true,
        no_mounts(),
    );
    frame_job(
        name.as_str(),
        ns,
        Some(3600),
        None,
        no_volumes(),
        no_containers(),
        one_container(container),
    )
}

// ── Restore ──────────────────────────────────────────────────────────────────

/// The scripts that a restore runs.
#[derive(Clone, Debug)]
pub struct RestoreScripts {
    pub s3_download: String,
    pub odoo_download: String,
    pub restore: String,
}

/// Where a restore puts the artifact before it is restored.
pub open spec fn output_file_text(format: BackupFormat) -> Seq<char> {
    match format {
        BackupFormat::Dump => "/mnt/backup/dump.dump"@,
        BackupFormat::Sql => "/mnt/backup/dump.sql"@,
        BackupFormat::Zip => "/mnt/backup/backup.zip"@,
    }
}

fn output_file(format: BackupFormat) -> (r: &'static str)
    ensures
        r@ == output_file_text(format),
{
    match format {
        BackupFormat::Dump => "/mnt/backup/dump.dump",
        BackupFormat::Sql => "/mnt/backup/dump.sql",
        BackupFormat::Zip => "/mnt/backup/backup.zip",
    }
}

/// The containers that download the artifact: one, unless the source that the
/// job names is not described.
pub open spec fn download_containers(
    job: OdooRestoreJob,
    credentials: Option<S3Credentials>,
    scripts: RestoreScripts,
) -> Seq<ContainerView> {
    match job.spec.source.source_type {
        RestoreSourceType::S3 => match job.spec.source.s3 {
            Some(s3) => seq![
                job_container(
                    "download"@,
                    "quay.io/minio/mc:latest"@,
                    script_command(scripts.s3_download@),
                    Seq::empty(),
                    seq![
                        env_of("S3_BUCKET"@, s3.bucket@),
                        env_of("S3_KEY"@, s3.object_key@),
                        env_of("S3_ENDPOINT"@, s3.endpoint@),
                        env_of("S3_INSECURE"@, flag_text(s3.insecure)),
                        env_of("OUTPUT_FILE"@, output_file_text(job.spec.format)),
                        env_of("MC_CONFIG_DIR"@, "/tmp/.mc"@),
                    ] + credentials_env(credentials),
                    false,
                    seq![backup_mount()],
                ),
            ],
            None => Seq::empty(),
        },
        RestoreSourceType::Odoo => match job.spec.source.odoo {
            Some(o) => seq![
                job_container(
                    "download"@,
                    "curlimages/curl:latest"@,
                    script_command(scripts.odoo_download@),
                    Seq::empty(),
                    seq![
                        env_of("ODOO_URL"@, o.url@),
                        env_of("SOURCE_DB"@, text_or_empty(o.source_database)),
                        env_of("MASTER_PASSWORD"@, text_or_empty(o.master_password)),
                        env_of(
                            "BACKUP_FORMAT"@,
                            if job.spec.format != BackupFormat::Zip {
                                "dump"@
                            } else {
                                "zip"@
                            },
                        ),
                        env_of("OUTPUT_FILE"@, output_file_text(job.spec.format)),
                    ],
                    false,
                    seq![backup_mount()],
                ),
            ],
            None => Seq::empty(),
        },
    }
}

/// The job that restores a backup.
pub open spec fn restore_work(
    job: OdooRestoreJob,
    ns: Seq<char>,
    instance: OdooInstance,
    credentials: Option<S3Credentials>,
    scripts: RestoreScripts,
) -> JobManifestView {
    framed_job(
        job.metadata.name_text(),
        ns,
        Some(3600),
        None,
        seq![backup_volume()],
        download_containers(job, credentials, scripts),
        seq![
            job_container(
                "restore"@,
                image_text(instance),
                script_command(scripts.restore@),
                Seq::empty(),
                seq![
                    env_of("DB_NAME"@, db_name_text(instance)),
                    env_of(
                        "NEUTRALIZE"@,
                        if job.spec.neutralize {
                            "True"@
                        } else {
                            "False"@
                        },
                    ),
                ] + connection_env(instance.metadata.name_text()),
                true,
                seq![backup_mount()],
            ),
        ],
    )
}

fn no_args() -> (r: Vec<String>)
    ensures
        texts(r@) == Seq::<Seq<char>>::empty(),
{
    let r: Vec<String> = Vec::new();
    assert(texts(r@) =~= Seq::<Seq<char>>::empty());
    r
}

fn build_download_containers(
    job: &OdooRestoreJob,
    credentials: &Option<S3Credentials>,
    scripts: &RestoreScripts,
) -> (r: Vec<Container>)
    ensures
        container_views(r@) == download_containers(*job, *credentials, *scripts),
{
    match job.spec.source.source_type {
        RestoreSourceType::S3 => {
            if let Some(s3) = &job.spec.source.s3 {
                let mut vars = no_env();
                push_env(&mut vars, env("S3_BUCKET", s3.bucket.as_str()));
                push_env(&mut vars, env("S3_KEY", s3.object_key.as_str()));
                push_env(&mut vars, env("S3_ENDPOINT", s3.endpoint.as_str()));
                push_env(&mut vars, env("S3_INSECURE", flag(s3.insecure)));
                push_env(&mut vars, env("OUTPUT_FILE", output_file(job.spec.format)));
                push_env(&mut vars, env("MC_CONFIG_DIR", "/tmp/.mc"));
                assert(env_views(vars@) =~= seq![
                    env_of("S3_BUCKET"@, s3.bucket@),
                    env_of("S3_KEY"@, s3.object_key@),
                    env_of("S3_ENDPOINT"@, s3.endpoint@),
                    env_of("S3_INSECURE"@, flag_text(s3.insecure)),
                    env_of("OUTPUT_FILE"@, output_file_text(job.spec.format)),
                    env_of("MC_CONFIG_DIR"@, "/tmp/.mc"@),
                ]);
                push_credentials(&mut vars, credentials);
                let c = make_job_container(
                    "download",
                    "quay.io/minio/mc:latest",
                    make_script_command(scripts.s3_download.as_str()),
                    no_args(),
                    vars,
                    false,
                    make_backup_mounts(),
                );
                one_container(c)
            } else {
                no_containers()
            }
        },
        RestoreSourceType::Odoo => {
            if let Some(o) = &job.spec.source.odoo {
                let format = if job.spec.format != BackupFormat::Zip {
                    "dump"
                } else {
                    "zip"
                };
                let mut vars = no_env();
                push_env(&mut vars, env("ODOO_URL", o.url.as_str()));
                let db = unwrap_or_empty(&o.source_database);
                push_env(&mut vars, env("SOURCE_DB", db.as_str()));
                let master = unwrap_or_empty(&o.master_password);
                push_env(&mut vars, env("MASTER_PASSWORD", master.as_str()));
                push_env(&mut vars, env("BACKUP_FORMAT", format));
                push_env(&mut vars, env("OUTPUT_FILE", output_file(job.spec.format)));
                assert(env_views(vars@) =~= seq![
                    env_of("ODOO_URL"@, o.url@),
                    env_of("SOURCE_DB"@, text_or_empty(o.source_database)),
                    env_of("MASTER_PASSWORD"@, text_or_empty(o.master_password)),
                    env_of("BACKUP_FORMAT"@, format@),
                    env_of("OUTPUT_FILE"@, output_file_text(job.spec.format)),
                ]);
                let c = make_job_container(
                    "download",
                    "curlimages/curl:latest",
                    make_script_command(scripts.odoo_download.as_str()),
                    no_args(),
                    vars,
                    false,
                    make_backup_mounts(),
                );
                one_container(c)
            } else {
                no_containers()
            }
        },
    }
}

/// Builds the job that restores a backup.
pub fn build_restore_work(
    job: &OdooRestoreJob,
    ns: &str,
    instance: &OdooInstance,
    credentials: &Option<S3Credentials>,
    scripts: &RestoreScripts,
) -> (r: JobManifest)
    ensures
        r@ == restore_work(*job, ns@, *instance, *credentials, *scripts),
{
    let name = job.metadata.name_any();
    let instance_name = instance.metadata.name_any();
    let image = image_of(instance);
    let db = db_name(instance);
    let neutralize = if job.spec.neutralize {
        "True"
    } else {
        "False"
    };
    let mut vars = no_env();
    push_env(&mut vars, env("DB_NAME", db.as_str()));
    push_env(&mut vars, env("NEUTRALIZE", neutralize));
    assert(env_views(vars@) =~= seq![
        env_of("DB_NAME"@, db_name_text(*instance)),
        env_of("NEUTRALIZE"@, neutralize@),
    ]);
    push_connection_env(&mut vars, instance_name.as_str());
    let container = make_job_container(
        "restore",
        image.as_str(),
        make_script_command(scripts.restore.as_str()),
        no_args(),
        vars,
        true,
        make_backup_mounts(),
    );
    frame_job(
        name.as_str(),
        ns,
        Some(3600),
        None,
        make_backup_volumes(),
        build_download_containers(job, credentials, scripts),
        one_container(container),
    )
}

// ── Backup ───────────────────────────────────────────────────────────────────

/// The scripts that a backup runs.
#[derive(Clone, Debug)]
pub struct BackupScripts {
    pub backup: String,
    pub upload: String,
}

/// The part of a path after its last slash.
pub open spec fn last_segment(s: Seq<char>) -> Seq<char>
    decreases s.len(),
{
    if s.len() == 0 || s.last() == '/' {
        Seq::empty()
    } else {
        last_segment(s.drop_last()).push(s.last())
    }
}

/// The last component of a path that names a file: empty components and single
/// dots are passed over, and a path that ends in two dots names none.
pub open spec fn file_name_of(s: Seq<char>) -> Option<Seq<char>>
    decreases s.len(),
{
    let seg = last_segment(s);
    if seg.len() > 0 && seg != "."@ {
        if seg == ".."@ {
            None
        } else {
            Some(seg)
        }
    } else if seg.len() < s.len() {
        file_name_of(s.take(s.len() - seg.len() - 1))
    } else {
        None
    }
}

proof fn lemma_last_segment(s: Seq<char>, from: int)
    requires
        0 <= from <= s.len(),
        forall|i: int| from <= i < s.len() ==> #[trigger] s[i] != '/',
        from > 0 ==> s[from - 1] == '/',
    ensures
        last_segment(s) == s.skip(from),
    decreases s.len(),
{
    if from < s.len() {
        let t = s.drop_last();
        assert(s.last() == s[s.len() - 1]);
        assert forall|i: int| from <= i < t.len() implies #[trigger] t[i] != '/' by {
            assert(t[i] == s[i]);
        }
        lemma_last_segment(t, from);
        assert(t.skip(from).push(s.last()) =~= s.skip(from));
    } else {
        assert(s.skip(from) =~= Seq::empty());
    }
}

/// The last component of a path that names a file.
pub fn file_name(path: &str) -> (r: Option<String>)
    ensures
        opt_text(r) == file_name_of(path@),
{
    let chars = chars_of(path);
    let mut end: usize = chars.len();
    assert(chars@.take(end as int) == path@);
    loop
        invariant
            end <= chars.len(),
            chars@ == path@,
            file_name_of(chars@.take(end as int)) == file_name_of(path@),
        decreases end,
    {
        let mut from: usize = end;
        while from > 0 && chars[from - 1] != '/'
            invariant
                from <= end <= chars.len(),
                forall|i: int| from <= i < end ==> #[trigger] chars@[i] != '/',
            decreases from,
        {
            from -= 1;
        }
        let ghost s = chars@.take(end as int);
        proof {
            lemma_last_segment(s, from as int);
            assert(s.skip(from as int) == chars@.subrange(from as int, end as int));
        }
        let (head, _rest) = chars.as_slice().split_at(end);
        let (_front, seg) = head.split_at(from);
        assert(seg@ == last_segment(s));
        let text = string_of(seg);
        let dot = crate::text::same_text(text.as_str(), ".");
        if seg.len() > 0 && !dot {
            if crate::text::same_text(text.as_str(), "..") {
                return None;
            }
            return Some(text);
        }
        if from == 0 {
            return None;
        }
        assert(s.take(s.len() - seg@.len() - 1) == chars@.take(from - 1));
        end = from - 1;
    }
}

/// The file that a backup is written to before it is uploaded: named like the
/// object, or after the instance where the object has no name.
pub open spec fn local_file_text(object_key: Seq<char>, instance_name: Seq<char>) -> Seq<char> {
    if object_key.len() > 0 {
        match file_name_of(object_key) {
            Some(f) => f,
            None => instance_name + "-backup"@,
        }
    } else {
        instance_name + "-backup"@
    }
}

/// The file that a backup is written to before it is uploaded.
pub fn local_file_name(object_key: &str, instance_name: &str) -> (r: String)
    ensures
        r@ == local_file_text(object_key@, instance_name@),
{
    if !object_key.is_empty() {
        match file_name(object_key) {
            Some(f) => f,
            None => concat2(instance_name, "-backup"),
        }
    } else {
        concat2(instance_name, "-backup")
    }
}

/// The job that makes a backup: one container writes it, the next uploads it.
/// It runs on a node that runs the instance, whose filestore it reads.
pub open spec fn backup_work(
    job: OdooBackupJob,
    ns: Seq<char>,
    instance: OdooInstance,
    credentials: Option<S3Credentials>,
    scripts: BackupScripts,
) -> JobManifestView {
    let dest = job.spec.destination;
    let name = instance.metadata.name_text();
    framed_job(
        job.metadata.name_text(),
        ns,
        Some(1800),
        Some(name),
        seq![backup_volume()],
        seq![
            job_container(
                "backup"@,
                image_text(instance),
                script_command(scripts.backup@),
                Seq::empty(),
                seq![
                    env_of("INSTANCE_NAME"@, name),
                    env_of("DB_NAME"@, db_name_text(instance)),
                    env_of("BACKUP_FORMAT"@, job.spec.format.text()),
                    env_of("BACKUP_WITH_FILESTORE"@, flag_text(job.spec.with_filestore)),
                    env_of("LOCAL_FILENAME"@, local_file_text(dest.object_key@, name)),
                ] + connection_env(name),
                true,
                seq![backup_mount()],
            ),
        ],
        seq![
            job_container(
                "uploader"@,
                "quay.io/minio/mc:latest"@,
                script_command(scripts.upload@),
                Seq::empty(),
                seq![
                    env_of("S3_BUCKET"@, dest.bucket@),
                    env_of("S3_KEY"@, dest.object_key@),
                    env_of("S3_ENDPOINT"@, dest.endpoint@),
                    env_of("S3_INSECURE"@, flag_text(dest.insecure)),
                    env_of("MC_CONFIG_DIR"@, "/tmp/.mc"@),
                ] + credentials_env(credentials),
                false,
                seq![backup_mount()],
            ),
        ],
    )
}

/// Builds the job that makes a backup.
pub fn build_backup_work(
    job: &OdooBackupJob,
    ns: &str,
    instance: &OdooInstance,
    credentials: &Option<S3Credentials>,
    scripts: &BackupScripts,
) -> (r: JobManifest)
    ensures
        r@ == backup_work(*job, ns@, *instance, *credentials, *scripts),
{
    let name = job.metadata.name_any();
    let instance_name = instance.metadata.name_any();
    let image = image_of(instance);
    let db = db_name(instance);
    let dest = &job.spec.destination;
    let local = local_file_name(dest.object_key.as_str(), instance_name.as_str());
    let mut vars = no_env();
    push_env(&mut vars, env("INSTANCE_NAME", instance_name.as_str()));
    push_env(&mut vars, env("DB_NAME", db.as_str()));
    push_env(&mut vars, env("BACKUP_FORMAT", job.spec.format.as_str()));
    push_env(&mut vars, env("BACKUP_WITH_FILESTORE", flag(job.spec.with_filestore)));
    push_env(&mut vars, env("LOCAL_FILENAME", local.as_str()));
    assert(env_views(vars@) =~= seq![
        env_of("INSTANCE_NAME"@, instance_name@),
        env_of("DB_NAME"@, db@),
        env_of("BACKUP_FORMAT"@, job.spec.format.text()),
        env_of("BACKUP_WITH_FILESTORE"@, flag_text(job.spec.with_filestore)),
        env_of("LOCAL_FILENAME"@, local@),
    ]);
    push_connection_env(&mut vars, instance_name.as_str());
    let writer = make_job_container(
        "backup",
        image.as_str(),
        make_script_command(scripts.backup.as_str()),
        no_args(),
        vars,
        true,
        make_backup_mounts(),
    );
    let mut upload = no_env();
    push_env(&mut upload, env("S3_BUCKET", dest.bucket.as_str()));
    push_env(&mut upload, env("S3_KEY", dest.object_key.as_str()));
    push_env(&mut upload, env("S3_ENDPOINT", dest.endpoint.as_str()));
    push_env(&mut upload, env("S3_INSECURE", flag(dest.insecure)));
    push_env(&mut upload, env("MC_CONFIG_DIR", "/tmp/.mc"));
    assert(env_views(upload@) =~= seq![
        env_of("S3_BUCKET"@, dest.bucket@),
        env_of("S3_KEY"@, dest.object_key@),
        env_of("S3_ENDPOINT"@, dest.endpoint@),
        env_of("S3_INSECURE"@, flag_text(dest.insecure)),
        env_of("MC_CONFIG_DIR"@, "/tmp/.mc"@),
    ]);
    push_credentials(&mut upload, credentials);
    let uploader = make_job_container(
        "uploader",
        "quay.io/minio/mc:latest",
        make_script_command(scripts.upload.as_str()),
        no_args(),
        upload,
        false,
        make_backup_mounts(),
    );
    frame_job(
        name.as_str(),
        ns,
        Some(1800),
        Some(instance_name),
        make_backup_volumes(),
        one_container(writer),
        one_container(uploader),
    )
}

// ── Laws ─────────────────────────────────────────────────────────────────────

/// An upgrade job always names something to do.
pub proof fn law_upgrade_has_work(db: Seq<char>, modules: Seq<Seq<char>>, install: Seq<Seq<char>>)
    ensures
        upgrade_args(db, modules, install).len() >= 6,
        upgrade_args(db, modules, install)[4] == "-u"@ || upgrade_args(db, modules, install)[4]
            == "-i"@,
{
}

// ── What jobs are for ────────────────────────────────────────────────────────

/// The variables of the jobs are told apart.
proof fn lemma_variable_names()
    ensures
        "S3_BUCKET"@.len() == 9,
        "S3_KEY"@.len() == 6,
        "S3_ENDPOINT"@.len() == 11,
        "S3_INSECURE"@.len() == 11,
        "MC_CONFIG_DIR"@.len() == 13,
        "AWS_ACCESS_KEY_ID"@.len() == 17,
        "AWS_SECRET_ACCESS_KEY"@.len() == 21,
        "OUTPUT_FILE"@.len() == 11,
        "ODOO_URL"@.len() == 8,
        "SOURCE_DB"@.len() == 9,
        "MASTER_PASSWORD"@.len() == 15,
        "BACKUP_FORMAT"@.len() == 13,
        "INSTANCE_NAME"@.len() == 13,
        "DB_NAME"@.len() == 7,
        "BACKUP_WITH_FILESTORE"@.len() == 21,
        "LOCAL_FILENAME"@.len() == 14,
        "NEUTRALIZE"@.len() == 10,
        "HOST"@.len() == 4,
        "PORT"@.len() == 4,
        "USER"@.len() == 4,
        "PASSWORD"@.len() == 8,
        "S3_INSECURE"@[3] == 'I',
        "S3_ENDPOINT"@[3] == 'E',
        "OUTPUT_FILE"@[0] == 'O',
        "S3_ENDPOINT"@[0] == 'S',
        "S3_INSECURE"@[0] == 'S',
        "SOURCE_DB"@[1] == 'O',
        "S3_BUCKET"@[1] == '3',
        "BACKUP_FORMAT"@[0] == 'B',
        "MC_CONFIG_DIR"@[0] == 'M',
        "INSTANCE_NAME"@[0] == 'I',
        "BACKUP_WITH_FILESTORE"@[0] == 'B',
        "AWS_SECRET_ACCESS_KEY"@[0] == 'A',
        "PORT"@[0] == 'P',
        "HOST"@[0] == 'H',
        "USER"@[0] == 'U',
        "PASSWORD"@[0] == 'P',
        "ODOO_URL"@[0] == 'O',
{
    reveal_strlit("S3_BUCKET");
    reveal_strlit("S3_KEY");
    reveal_strlit("S3_ENDPOINT");
    reveal_strlit("S3_INSECURE");
    reveal_strlit("MC_CONFIG_DIR");
    reveal_strlit("AWS_ACCESS_KEY_ID");
    reveal_strlit("AWS_SECRET_ACCESS_KEY");
    reveal_strlit("OUTPUT_FILE");
    reveal_strlit("ODOO_URL");
    reveal_strlit("SOURCE_DB");
    reveal_strlit("MASTER_PASSWORD");
    reveal_strlit("BACKUP_FORMAT");
    reveal_strlit("INSTANCE_NAME");
    reveal_strlit("DB_NAME");
    reveal_strlit("BACKUP_WITH_FILESTORE");
    reveal_strlit("LOCAL_FILENAME");
    reveal_strlit("NEUTRALIZE");
    reveal_strlit("HOST");
    reveal_strlit("PORT");
    reveal_strlit("USER");
    reveal_strlit("PASSWORD");
}

/// A backup reaches its place.  The container that uploads it knows the bucket, the
/// key and the endpoint of the destination, and, where the access to the object store
/// is given, carries it; without one it carries none.
pub proof fn law_backups_reach_their_destination(
    job: &OdooBackupJob,
    ns: &str,
    instance: &OdooInstance,
    credentials: &Option<S3Credentials>,
    scripts: &BackupScripts,
    r: JobManifest,
)
    requires
        call_ensures(build_backup_work, (job, ns, instance, credentials, scripts), r),
    ensures
        r@.containers.len() == 1,
        ({
            let env = r@.containers[0].env;
            let dest = job.spec.destination;
            &&& sees_value(env, "S3_BUCKET"@, dest.bucket@)
            &&& sees_value(env, "S3_KEY"@, dest.object_key@)
            &&& sees_value(env, "S3_ENDPOINT"@, dest.endpoint@)
            &&& sees_value(
                env,
                "S3_INSECURE"@,
                if dest.insecure {
                    "true"@
                } else {
                    "false"@
                },
            )
            &&& sees_value(env, "MC_CONFIG_DIR"@, "/tmp/.mc"@)
            &&& *credentials matches Some(c) ==> {
                &&& sees_value(env, "AWS_ACCESS_KEY_ID"@, c.access_key@)
                &&& sees_value(env, "AWS_SECRET_ACCESS_KEY"@, c.secret_key@)
            }
            &&& *credentials is None ==> {
                &&& sees_no(env, "AWS_ACCESS_KEY_ID"@)
                &&& sees_no(env, "AWS_SECRET_ACCESS_KEY"@)
            }
        }),
        r@.containers[0].command == seq!["/bin/sh"@, "-c"@, scripts.upload@],
{
    lemma_variable_names();
    let env = r@.containers[0].env;
    assert(env[0].name == "S3_BUCKET"@);
    assert(env[1].name == "S3_KEY"@);
    assert(env[2].name == "S3_ENDPOINT"@);
    assert(env[3].name == "S3_INSECURE"@);
    assert(env[4].name == "MC_CONFIG_DIR"@);
    if let Some(c) = *credentials {
        assert(env.len() == 7);
        assert(env[5].name == "AWS_ACCESS_KEY_ID"@);
        assert(env[6].name == "AWS_SECRET_ACCESS_KEY"@);
    } else {
        assert(env.len() == 5);
    }
}

/// A backup is made of the instance.  Before the upload a container with the image of
/// the instance writes the backup of its database, in the format and with or without
/// the filestore, as the job says, to a volume that both containers share; it runs
/// where the instance runs and reaches its database as the instance does.
pub proof fn law_backups_are_made_of_the_instance(
    job: &OdooBackupJob,
    ns: &str,
    instance: &OdooInstance,
    credentials: &Option<S3Credentials>,
    scripts: &BackupScripts,
    r: JobManifest,
)
    requires
        call_ensures(build_backup_work, (job, ns, instance, credentials, scripts), r),
    ensures
        r@.init_containers.len() == 1,
        r@.containers.len() == 1,
        r@.run_beside == Some(instance.metadata.name_text()),
        r@.odoo_frame,
        r@.namespace == ns@,
        r@.generate_name == job.metadata.name_text() + "-"@,
        r@.active_deadline_seconds == Some(1800i64),
        instance.spec.image matches Some(i) ==> r@.init_containers[0].image == i@,
        instance.spec.image is None ==> r@.init_containers[0].image == "odoo:18.0"@,
        r@.init_containers[0].odoo_mounts,
        r@.init_containers[0].command == seq!["/bin/sh"@, "-c"@, scripts.backup@],
        sees_value(r@.init_containers[0].env, "INSTANCE_NAME"@, instance.metadata.name_text()),
        sees_value(r@.init_containers[0].env, "DB_NAME"@, db_name_text(*instance)),
        sees_value(
            r@.init_containers[0].env,
            "BACKUP_FORMAT"@,
            match job.spec.format {
                BackupFormat::Zip => "zip"@,
                BackupFormat::Sql => "sql"@,
                BackupFormat::Dump => "dump"@,
            },
        ),
        sees_value(
            r@.init_containers[0].env,
            "BACKUP_WITH_FILESTORE"@,
            if job.spec.with_filestore {
                "true"@
            } else {
                "false"@
            },
        ),
        sees_value(
            r@.init_containers[0].env,
            "LOCAL_FILENAME"@,
            local_file_text(job.spec.destination.object_key@, instance.metadata.name_text()),
        ),
        sees(
            r@.init_containers[0].env,
            "HOST"@,
            EnvSourceView::ConfigMapKey {
                name: instance.metadata.name_text() + "-odoo-conf"@,
                key: "db_host"@,
            },
        ),
        sees(
            r@.init_containers[0].env,
            "PORT"@,
            EnvSourceView::ConfigMapKey {
                name: instance.metadata.name_text() + "-odoo-conf"@,
                key: "db_port"@,
            },
        ),
        sees(
            r@.init_containers[0].env,
            "USER"@,
            EnvSourceView::ConfigMapKey {
                name: instance.metadata.name_text() + "-odoo-conf"@,
                key: "db_user"@,
            },
        ),
        sees(
            r@.init_containers[0].env,
            "PASSWORD"@,
            EnvSourceView::ConfigMapKey {
                name: instance.metadata.name_text() + "-odoo-conf"@,
                key: "db_password"@,
            },
        ),
        finds_at(
            r@.volumes,
            r@.init_containers[0],
            "/mnt/backup"@,
            VolumeSourceView::EmptyDir,
            true,
        ),
        finds_at(r@.volumes, r@.containers[0], "/mnt/backup"@, VolumeSourceView::EmptyDir, true),
{
    lemma_variable_names();
    let env = r@.init_containers[0].env;
    assert(env.len() == 9);
    assert(env[5].name == "HOST"@);
    assert(env[6].name == "PORT"@);
    assert(env[7].name == "USER"@);
    assert(env[8].name == "PASSWORD"@);
    assert(env[0].name == "INSTANCE_NAME"@);
    assert(env[1].name == "DB_NAME"@);
    assert(env[2].name == "BACKUP_FORMAT"@);
    assert(env[3].name == "BACKUP_WITH_FILESTORE"@);
    assert(env[4].name == "LOCAL_FILENAME"@);
    assert(r@.volumes[0].name == "backup"@);
    assert(r@.init_containers[0].volume_mounts[0].mount_path == "/mnt/backup"@);
    assert(r@.containers[0].volume_mounts[0].mount_path == "/mnt/backup"@);
}

/// A backup from an object store is fetched from the place that the job names, with
/// the access to the store where one is given, to a file of the format of the job on
/// the volume that the restore reads.
pub proof fn law_restores_fetch_from_the_object_store(
    job: &OdooRestoreJob,
    ns: &str,
    instance: &OdooInstance,
    credentials: &Option<S3Credentials>,
    scripts: &RestoreScripts,
    r: JobManifest,
)
    requires
        call_ensures(build_restore_work, (job, ns, instance, credentials, scripts), r),
        job.spec.source.source_type == RestoreSourceType::S3,
        job.spec.source.s3 is Some,
    ensures
        r@.init_containers.len() == 1,
        ({
            let env = r@.init_containers[0].env;
            let source = job.spec.source.s3->0;
            &&& sees_value(env, "S3_BUCKET"@, source.bucket@)
            &&& sees_value(env, "S3_KEY"@, source.object_key@)
            &&& sees_value(env, "S3_ENDPOINT"@, source.endpoint@)
            &&& sees_value(
                env,
                "S3_INSECURE"@,
                if source.insecure {
                    "true"@
                } else {
                    "false"@
                },
            )
            &&& sees_value(env, "MC_CONFIG_DIR"@, "/tmp/.mc"@)
            &&& sees_value(
                env,
                "OUTPUT_FILE"@,
                match job.spec.format {
                    BackupFormat::Dump => "/mnt/backup/dump.dump"@,
                    BackupFormat::Sql => "/mnt/backup/dump.sql"@,
                    BackupFormat::Zip => "/mnt/backup/backup.zip"@,
                },
            )
            &&& *credentials matches Some(c) ==> {
                &&& sees_value(env, "AWS_ACCESS_KEY_ID"@, c.access_key@)
                &&& sees_value(env, "AWS_SECRET_ACCESS_KEY"@, c.secret_key@)
            }
            &&& *credentials is None ==> {
                &&& sees_no(env, "AWS_ACCESS_KEY_ID"@)
                &&& sees_no(env, "AWS_SECRET_ACCESS_KEY"@)
            }
        }),
        r@.init_containers[0].command == seq!["/bin/sh"@, "-c"@, scripts.s3_download@],
        finds_at(
            r@.volumes,
            r@.init_containers[0],
            "/mnt/backup"@,
            VolumeSourceView::EmptyDir,
            true,
        ),
{
    lemma_variable_names();
    let env = r@.init_containers[0].env;
    assert(env[0].name == "S3_BUCKET"@);
    assert(env[1].name == "S3_KEY"@);
    assert(env[2].name == "S3_ENDPOINT"@);
    assert(env[3].name == "S3_INSECURE"@);
    assert(env[4].name == "OUTPUT_FILE"@);
    assert(env[5].name == "MC_CONFIG_DIR"@);
    if let Some(c) = *credentials {
        assert(env.len() == 8);
        assert(env[6].name == "AWS_ACCESS_KEY_ID"@);
        assert(env[7].name == "AWS_SECRET_ACCESS_KEY"@);
    } else {
        assert(env.len() == 6);
    }
    assert(r@.volumes[0].name == "backup"@);
    assert(r@.init_containers[0].volume_mounts[0].mount_path == "/mnt/backup"@);
}

/// A backup from another installation is asked for at its address, with its master
/// password, as a database dump unless the job wants an archive.
pub proof fn law_restores_fetch_from_an_installation(
    job: &OdooRestoreJob,
    ns: &str,
    instance: &OdooInstance,
    credentials: &Option<S3Credentials>,
    scripts: &RestoreScripts,
    r: JobManifest,
)
    requires
        call_ensures(build_restore_work, (job, ns, instance, credentials, scripts), r),
        job.spec.source.source_type == RestoreSourceType::Odoo,
        job.spec.source.odoo is Some,
    ensures
        r@.init_containers.len() == 1,
        ({
            let env = r@.init_containers[0].env;
            let source = job.spec.source.odoo->0;
            &&& sees_value(env, "ODOO_URL"@, source.url@)
            &&& source.source_database matches Some(d) ==> sees_value(env, "SOURCE_DB"@, d@)
            &&& source.master_password matches Some(p) ==> sees_value(
                env,
                "MASTER_PASSWORD"@,
                p@,
            )
            &&& sees_value(
                env,
                "BACKUP_FORMAT"@,
                if job.spec.format == BackupFormat::Zip {
                    "zip"@
                } else {
                    "dump"@
                },
            )
            &&& sees_value(
                env,
                "OUTPUT_FILE"@,
                match job.spec.format {
                    BackupFormat::Dump => "/mnt/backup/dump.dump"@,
                    BackupFormat::Sql => "/mnt/backup/dump.sql"@,
                    BackupFormat::Zip => "/mnt/backup/backup.zip"@,
                },
            )
        }),
        r@.init_containers[0].command == seq!["/bin/sh"@, "-c"@, scripts.odoo_download@],
        finds_at(
            r@.volumes,
            r@.init_containers[0],
            "/mnt/backup"@,
            VolumeSourceView::EmptyDir,
            true,
        ),
{
    lemma_variable_names();
    let env = r@.init_containers[0].env;
    assert(env.len() == 5);
    assert(env[0].name == "ODOO_URL"@);
    assert(env[1].name == "SOURCE_DB"@);
    assert(env[2].name == "MASTER_PASSWORD"@);
    assert(env[3].name == "BACKUP_FORMAT"@);
    assert(env[4].name == "OUTPUT_FILE"@);
    assert(r@.volumes[0].name == "backup"@);
    assert(r@.init_containers[0].volume_mounts[0].mount_path == "/mnt/backup"@);
}

/// A restore goes into the database of the instance, is neutralised exactly where the
/// job says so, runs with the image of the instance and reads the volume that the
/// backup was fetched to.  A source that is not described is not fetched.
pub proof fn law_restores_go_into_the_instance(
    job: &OdooRestoreJob,
    ns: &str,
    instance: &OdooInstance,
    credentials: &Option<S3Credentials>,
    scripts: &RestoreScripts,
    r: JobManifest,
)
    requires
        call_ensures(build_restore_work, (job, ns, instance, credentials, scripts), r),
    ensures
        r@.containers.len() == 1,
        r@.namespace == ns@,
        r@.generate_name == job.metadata.name_text() + "-"@,
        r@.odoo_frame,
        r@.active_deadline_seconds == Some(3600i64),
        instance.spec.image matches Some(i) ==> r@.containers[0].image == i@,
        instance.spec.image is None ==> r@.containers[0].image == "odoo:18.0"@,
        r@.containers[0].odoo_mounts,
        r@.containers[0].command == seq!["/bin/sh"@, "-c"@, scripts.restore@],
        sees_value(r@.containers[0].env, "DB_NAME"@, db_name_text(*instance)),
        sees_value(
            r@.containers[0].env,
            "NEUTRALIZE"@,
            if job.spec.neutralize {
                "True"@
            } else {
                "False"@
            },
        ),
        sees(
            r@.containers[0].env,
            "HOST"@,
            EnvSourceView::ConfigMapKey {
                name: instance.metadata.name_text() + "-odoo-conf"@,
                key: "db_host"@,
            },
        ),
        sees(
            r@.containers[0].env,
            "PORT"@,
            EnvSourceView::ConfigMapKey {
                name: instance.metadata.name_text() + "-odoo-conf"@,
                key: "db_port"@,
            },
        ),
        sees(
            r@.containers[0].env,
            "USER"@,
            EnvSourceView::ConfigMapKey {
                name: instance.metadata.name_text() + "-odoo-conf"@,
                key: "db_user"@,
            },
        ),
        sees(
            r@.containers[0].env,
            "PASSWORD"@,
            EnvSourceView::ConfigMapKey {
                name: instance.metadata.name_text() + "-odoo-conf"@,
                key: "db_password"@,
            },
        ),
        finds_at(r@.volumes, r@.containers[0], "/mnt/backup"@, VolumeSourceView::EmptyDir, true),
        job.spec.source.source_type == RestoreSourceType::S3 && job.spec.source.s3 is None
            ==> r@.init_containers.len() == 0,
        job.spec.source.source_type == RestoreSourceType::Odoo && job.spec.source.odoo is None
            ==> r@.init_containers.len() == 0,
{
    lemma_variable_names();
    let env = r@.containers[0].env;
    assert(env.len() == 6);
    assert(env[2].name == "HOST"@);
    assert(env[3].name == "PORT"@);
    assert(env[4].name == "USER"@);
    assert(env[5].name == "PASSWORD"@);
    assert(env[0].name == "DB_NAME"@);
    assert(env[1].name == "NEUTRALIZE"@);
    assert(r@.volumes[0].name == "backup"@);
    assert(r@.containers[0].volume_mounts[0].mount_path == "/mnt/backup"@);
}

/// An init job installs the modules that it names, or `base`, into the database of the
/// instance, with its image, and ends then.
pub proof fn law_init_jobs_install_their_modules(
    job: &OdooInitJob,
    ns: &str,
    instance: &OdooInstance,
    r: JobManifest,
)
    requires
        call_ensures(build_init_work, (job, ns, instance), r),
    ensures
        r@.containers.len() == 1,
        r@.init_containers.len() == 0,
        r@.namespace == ns@,
        r@.generate_name == job.metadata.name_text() + "-"@,
        r@.odoo_frame,
        r@.containers[0].odoo_mounts,
        instance.spec.image matches Some(i) ==> r@.containers[0].image == i@,
        instance.spec.image is None ==> r@.containers[0].image == "odoo:18.0"@,
        r@.containers[0].command == seq!["/entrypoint.sh"@, "odoo"@],
        follows(r@.containers[0].args, "-d"@, db_name_text(*instance)),
        job.spec.modules@.len() > 0 ==> follows(
            r@.containers[0].args,
            "-i"@,
            joined(texts(job.spec.modules@), ","@),
        ),
        job.spec.modules@.len() == 0 ==> follows(r@.containers[0].args, "-i"@, "base"@),
        r@.containers[0].args.contains("--stop-after-init"@),
        r@.containers[0].args.contains("--no-http"@),
{
    let args = r@.containers[0].args;
    assert(args[0] == "-i"@);
    assert(args[2] == "-d"@);
    assert(args[4] == "--no-http"@);
    assert(args[5] == "--stop-after-init"@);
    if job.spec.modules@.len() == 0 {
        assert(texts(job.spec.modules@).len() == 0);
        assert(joined(seq!["base"@], ","@) =~= "base"@);
    } else {
        assert(texts(job.spec.modules@).len() > 0);
    }
}

/// Whether an option of a command line has a value behind it.
pub open spec fn follows(args: Seq<Seq<char>>, option: Seq<char>, value: Seq<char>) -> bool {
    exists|i: int|
        0 <= i && i + 1 < args.len() && #[trigger] args[i] == option && args[i + 1] == value
}

/// An upgrade job upgrades the modules that it names and installs those that it names
/// for that, in the database of the instance; where it names neither it upgrades all.
pub proof fn law_upgrade_jobs_upgrade_their_modules(
    job: &OdooUpgradeJob,
    ns: &str,
    instance: &OdooInstance,
    r: JobManifest,
)
    requires
        call_ensures(build_upgrade_work, (job, ns, instance), r),
    ensures
        r@.containers.len() == 1,
        r@.init_containers.len() == 0,
        r@.namespace == ns@,
        r@.generate_name == job.metadata.name_text() + "-"@,
        r@.odoo_frame,
        r@.active_deadline_seconds == Some(3600i64),
        r@.containers[0].odoo_mounts,
        instance.spec.image matches Some(i) ==> r@.containers[0].image == i@,
        instance.spec.image is None ==> r@.containers[0].image == "odoo:18.0"@,
        r@.containers[0].command == seq!["/entrypoint.sh"@, "odoo"@],
        follows(r@.containers[0].args, "-d"@, db_name_text(*instance)),
        job.spec.modules@.len() > 0 ==> follows(
            r@.containers[0].args,
            "-u"@,
            joined(texts(job.spec.modules@), ","@),
        ),
        job.spec.modules_install@.len() > 0 ==> follows(
            r@.containers[0].args,
            "-i"@,
            joined(texts(job.spec.modules_install@), ","@),
        ),
        job.spec.modules@.len() == 0 && job.spec.modules_install@.len() == 0 ==> follows(
            r@.containers[0].args,
            "-u"@,
            "all"@,
        ),
        r@.containers[0].args.len() == 4 + if job.spec.modules@.len() > 0
            && job.spec.modules_install@.len() > 0 {
            4int
        } else {
            2int
        },
        r@.containers[0].args.contains("--stop-after-init"@),
        r@.containers[0].args.contains("--no-http"@),
{
    let args = r@.containers[0].args;
    let modules = texts(job.spec.modules@);
    let install = texts(job.spec.modules_install@);
    assert(modules.len() == job.spec.modules@.len());
    assert(install.len() == job.spec.modules_install@.len());
    assert(args[0] == "-d"@ && args[1] == db_name_text(*instance));
    assert(args[2] == "--no-http"@);
    assert(args[3] == "--stop-after-init"@);
    if modules.len() > 0 {
        assert(args[4] == "-u"@ && args[5] == joined(modules, ","@));
        if install.len() > 0 {
            assert(args[6] == "-i"@ && args[7] == joined(install, ","@));
        }
    } else if install.len() > 0 {
        assert(args[4] == "-i"@ && args[5] == joined(install, ","@));
    } else {
        assert(args[4] == "-u"@ && args[5] == "all"@);
    }
}

/// The access to an object store is read from the Secret that a reference names, in
/// its namespace, or in that of the job where it names none.
pub proof fn law_access_is_read_where_the_reference_says(
    reference: &Option<SecretReference>,
    ns: &str,
    r: Option<(String, String)>,
)
    requires
        call_ensures(credentials_secret, (reference, ns), r),
    ensures
        r is Some <==> *reference is Some,
        *reference matches Some(s) ==> r matches Some((name, namespace)) ==> {
            &&& s.name matches Some(n) ==> name@ == n@
            &&& s.namespace matches Some(n) ==> namespace@ == n@
            &&& s.namespace is None ==> namespace@ == ns@
        },
{
}

/// A backup is written to a file named like the last part of the key of its object,
/// whatever comes before it.
pub proof fn law_backup_files_are_named_like_the_object(
    object_key: &str,
    instance_name: &str,
    directory: Seq<char>,
    file: Seq<char>,
    r: String,
)
    requires
        call_ensures(local_file_name, (object_key, instance_name), r),
        object_key@ == directory + file,
        directory.len() == 0 || directory.last() == '/',
        file.len() > 0,
        !file.contains('/'),
        file != "."@,
        file != ".."@,
    ensures
        r@ == file,
{
    let s = object_key@;
    let from = directory.len() as int;
    assert forall|i: int| from <= i < s.len() implies #[trigger] s[i] != '/' by {
        assert(s[i] == file[i - from]);
        assert(file.contains(file[i - from]));
    }
    lemma_last_segment(s, from);
    assert(s.skip(from) =~= file);
}

/// A backup without a name for its object is named after the instance.
pub proof fn law_nameless_backups_are_named_after_the_instance(
    object_key: &str,
    instance_name: &str,
    r: String,
)
    requires
        call_ensures(local_file_name, (object_key, instance_name), r),
        object_key@.len() == 0,
    ensures
        r@ == instance_name@ + "-backup"@,
{
}

/// Whether a job runs in the standard frame of jobs, in a namespace and named after its
/// resource.
pub open spec fn is_framed(r: JobManifestView, resource: Seq<char>, ns: Seq<char>) -> bool {
    &&& r.generate_name == resource + "-"@
    &&& r.namespace == ns
    &&& r.odoo_frame
    &&& r.app_label is None
    &&& r.backoff_limit is None
    &&& r.ttl_seconds_after_finished is None
    &&& r.restart_policy is None
    &&& r.image_pull_secret is None
}

/// The jobs of an instance run in the standard frame, named after their resources, in the
/// namespace that they are made for; an init job may take as long as it takes.
pub proof fn law_jobs_run_in_the_standard_frame(
    init: &OdooInitJob,
    upgrade: &OdooUpgradeJob,
    restore: &OdooRestoreJob,
    backup: &OdooBackupJob,
    ns: &str,
    instance: &OdooInstance,
    credentials: &Option<S3Credentials>,
    restore_scripts: &RestoreScripts,
    backup_scripts: &BackupScripts,
    i: JobManifest,
    u: JobManifest,
    r: JobManifest,
    b: JobManifest,
)
    requires
        call_ensures(build_init_work, (init, ns, instance), i),
        call_ensures(build_upgrade_work, (upgrade, ns, instance), u),
        call_ensures(
            build_restore_work,
            (restore, ns, instance, credentials, restore_scripts),
            r,
        ),
        call_ensures(build_backup_work, (backup, ns, instance, credentials, backup_scripts), b),
    ensures
        is_framed(i@, init.metadata.name_text(), ns@),
        is_framed(u@, upgrade.metadata.name_text(), ns@),
        is_framed(r@, restore.metadata.name_text(), ns@),
        is_framed(b@, backup.metadata.name_text(), ns@),
        i@.active_deadline_seconds is None,
        i@.run_beside is None,
        u@.run_beside is None,
        r@.run_beside is None,
        i@.volumes.len() == 0,
        u@.volumes.len() == 0,
        r@.volumes.len() == 1,
        b@.volumes.len() == 1,
        i@.containers[0].name == "init"@,
        u@.containers[0].name == "odoo-upgrade"@,
        r@.containers[0].name == "restore"@,
        b@.init_containers[0].name == "backup"@,
        b@.containers[0].name == "uploader"@,
{
}

/// The object store is reached with its own client, and another installation over HTTP.
pub proof fn law_the_right_client_is_used(
    restore: &OdooRestoreJob,
    backup: &OdooBackupJob,
    ns: &str,
    instance: &OdooInstance,
    credentials: &Option<S3Credentials>,
    restore_scripts: &RestoreScripts,
    backup_scripts: &BackupScripts,
    r: JobManifest,
    b: JobManifest,
)
    requires
        call_ensures(
            build_restore_work,
            (restore, ns, instance, credentials, restore_scripts),
            r,
        ),
        call_ensures(build_backup_work, (backup, ns, instance, credentials, backup_scripts), b),
    ensures
        b@.containers[0].image == "quay.io/minio/mc:latest"@,
        !b@.containers[0].odoo_mounts,
        restore.spec.source.source_type == RestoreSourceType::S3 && restore.spec.source.s3 is Some
            ==> r@.init_containers[0].image == b@.containers[0].image
            && !r@.init_containers[0].odoo_mounts && r@.init_containers[0].name == "download"@,
        restore.spec.source.source_type == RestoreSourceType::Odoo && restore.spec.source.odoo
            is Some ==> r@.init_containers[0].image == "curlimages/curl:latest"@
            && !r@.init_containers[0].odoo_mounts && r@.init_containers[0].name == "download"@,
        restore.spec.source.source_type == RestoreSourceType::S3 && restore.spec.source.s3 is None
            ==> r@.init_containers.len() == 0,
        restore.spec.source.source_type == RestoreSourceType::Odoo && restore.spec.source.odoo
            is None ==> r@.init_containers.len() == 0,
{
}

/// An init job is made for its resource, namespace, image, database and modules, and the
/// arguments of an upgrade name its database.
pub proof fn law_jobs_are_made_for_their_arguments(
    cr_name: &str,
    ns: &str,
    image: &str,
    db: &str,
    modules: &Vec<String>,
    install: &Vec<String>,
    r: JobManifest,
    args: Vec<String>,
)
    requires
        call_ensures(build_init_job, (cr_name, ns, image, db, modules), r),
        call_ensures(build_upgrade_args, (db, modules, install), args),
    ensures
        is_framed(r@, cr_name@, ns@),
        r@.containers.len() == 1,
        r@.containers[0].image == image@,
        r@.containers[0].args == seq![
            "-i"@,
            joined(texts(modules@), ","@),
            "-d"@,
            db@,
            "--no-http"@,
            "--stop-after-init"@,
        ],
        args@.len() >= 6,
        args@[0]@ == "-d"@ && args@[1]@ == db@,
{
    let all = texts(args@);
    assert(all.len() == args@.len());
    assert(all[0] == args@[0]@ && all[1] == args@[1]@);
}

} // verus!
