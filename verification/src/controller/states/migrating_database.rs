//! Moving the database of an instance to another PostgreSQL cluster.

use vstd::prelude::*;

use crate::controller::helpers::{controller_owner_ref, owner_of};
use crate::controller::manifests::{
    cm_env, cm_env_of, container_views, env, env_of, env_views, job_container, make_job_container,
    holds_entry, secret_env, secret_env_of, sees, sees_value, volume_views, EnvSourceView, EnvVar,
    EnvVarView, JobManifest, JobManifestView, SecretManifest,
};
use crate::controller::states::steady::{all_down, Scaling};
use crate::crd::meta::{clone_opt, opt_text};
use crate::crd::odoo_instance::OdooInstance;
use crate::error::Error;
use crate::options::pair_texts;
use crate::postgres::PostgresClusterConfig;
use crate::text::{concat2, concat4, int_text, int_to_string, same_text, texts};

verus! {

/// The short-lived Secret with the two administrator passwords that a migration
/// job needs.
pub open spec fn migration_creds_text(instance_name: Seq<char>) -> Seq<char> {
    instance_name + "-migrate-db-creds"@
}

/// The short-lived Secret with the two administrator passwords that a migration
/// job needs.
pub fn migration_creds_secret_name(inst_name: &str) -> (r: String)
    ensures
        r@ == migration_creds_text(inst_name@),
{
    concat2(inst_name, "-migrate-db-creds")
}

/// Moving the database: the instance and its scheduled actions are down.
pub struct MigratingDatabase;

impl MigratingDatabase {
    /// The outputs of the phase.
    pub fn ensure(&self) -> (r: Scaling)
        ensures
            r == all_down(),
    {
        Scaling { web: Some(0), cron: Some(0) }
    }
}

/// The cluster that holds the database, as the status records.
pub open spec fn active_cluster(instance: OdooInstance) -> Option<String> {
    match instance.status {
        Some(s) => s.active_cluster,
        None => None,
    }
}

/// The cluster that a migration starts from.
pub fn source_cluster(instance: &OdooInstance) -> (r: Result<String, Error>)
    ensures
        match active_cluster(*instance) {
            Some(c) => r == Ok::<String, Error>(c),
            None => r matches Err(e) && e is Config && e.detail()
                == "cannot begin database migration: activeCluster not set"@,
        },
{
    let active = match &instance.status {
        Some(s) => clone_opt(&s.active_cluster),
        None => None,
    };
    match active {
        Some(c) => Ok(c),
        None => Err(Error::config("cannot begin database migration: activeCluster not set")),
    }
}

/// The entries of the Secret with the administrator passwords.
pub fn migration_credentials(
    old_pg: &PostgresClusterConfig,
    new_pg: &PostgresClusterConfig,
) -> (r: Vec<(String, String)>)
    ensures
        pair_texts(r@) == seq![
            ("SRC_ADMIN_PASSWORD"@, old_pg.admin_password@),
            ("DST_ADMIN_PASSWORD"@, new_pg.admin_password@),
        ],
{
    let r = vec![
        ("SRC_ADMIN_PASSWORD".to_owned(), old_pg.admin_password.clone()),
        ("DST_ADMIN_PASSWORD".to_owned(), new_pg.admin_password.clone()),
    ];
    assert(pair_texts(r@) =~= seq![
        ("SRC_ADMIN_PASSWORD"@, old_pg.admin_password@),
        ("DST_ADMIN_PASSWORD"@, new_pg.admin_password@),
    ]);
    r
}

/// Builds the Secret with the administrator passwords, which belongs to the
/// instance.
pub fn build_credentials_secret(
    instance: &OdooInstance,
    old_pg: &PostgresClusterConfig,
    new_pg: &PostgresClusterConfig,
) -> (r: SecretManifest)
    ensures
        r@.name == migration_creds_text(instance.metadata.name_text()),
        r@.namespace == instance.metadata.namespace_text(),
        r@.owner == owner_of(*instance),
        r@.string_data == seq![
            ("SRC_ADMIN_PASSWORD"@, old_pg.admin_password@),
            ("DST_ADMIN_PASSWORD"@, new_pg.admin_password@),
        ],
{
    let name = instance.metadata.name_any();
    SecretManifest {
        name: migration_creds_secret_name(name.as_str()),
        namespace: instance.metadata.namespace_or_default(),
        owner: controller_owner_ref(instance),
        string_data: migration_credentials(old_pg, new_pg),
    }
}

/// The environment of a migration job: the two clusters, the role of the
/// instance and the database.  The administrator passwords are read from the
/// Secret and never written out.
pub open spec fn migration_env(
    old_pg: PostgresClusterConfig,
    new_pg: PostgresClusterConfig,
    conf: Seq<char>,
    db: Seq<char>,
    secret: Seq<char>,
) -> Seq<EnvVarView> {
    seq![
        env_of("SRC_HOST"@, old_pg.host@),
        env_of("SRC_PORT"@, int_text(old_pg.port as int)),
        env_of("SRC_ADMIN_USER"@, old_pg.admin_user@),
        secret_env_of("SRC_ADMIN_PASSWORD"@, secret, "SRC_ADMIN_PASSWORD"@),
        env_of("DST_HOST"@, new_pg.host@),
        env_of("DST_PORT"@, int_text(new_pg.port as int)),
        env_of("DST_ADMIN_USER"@, new_pg.admin_user@),
        secret_env_of("DST_ADMIN_PASSWORD"@, secret, "DST_ADMIN_PASSWORD"@),
        cm_env_of("DB_USER"@, conf, "db_user"@),
        cm_env_of("DB_PASSWORD"@, conf, "db_password"@),
        env_of("DB_NAME"@, db),
    ]
}

/// Builds the environment of a migration job.
pub fn build_migration_env(
    old_pg: &PostgresClusterConfig,
    new_pg: &PostgresClusterConfig,
    odoo_conf_name: &str,
    db_name: &str,
    creds_secret: &str,
) -> (r: Vec<EnvVar>)
    ensures
        env_views(r@) == migration_env(
            *old_pg,
            *new_pg,
            odoo_conf_name@,
            db_name@,
            creds_secret@,
        ),
{
    let r = vec![
        env("SRC_HOST", old_pg.host.as_str()),
        env("SRC_PORT", int_to_string(old_pg.port as i64).as_str()),
        env("SRC_ADMIN_USER", old_pg.admin_user.as_str()),
        secret_env("SRC_ADMIN_PASSWORD", creds_secret, "SRC_ADMIN_PASSWORD"),
        env("DST_HOST", new_pg.host.as_str()),
        env("DST_PORT", int_to_string(new_pg.port as i64).as_str()),
        env("DST_ADMIN_USER", new_pg.admin_user.as_str()),
        secret_env("DST_ADMIN_PASSWORD", creds_secret, "DST_ADMIN_PASSWORD"),
        cm_env("DB_USER", odoo_conf_name, "db_user"),
        cm_env("DB_PASSWORD", odoo_conf_name, "db_password"),
        env("DB_NAME", db_name),
    ];
    assert(env_views(r@) =~= migration_env(
        *old_pg,
        *new_pg,
        odoo_conf_name@,
        db_name@,
        creds_secret@,
    ));
    r
}

/// The job that copies a database to another cluster.
pub open spec fn migration_job(
    instance_name: Seq<char>,
    ns: Seq<char>,
    instance: OdooInstance,
    image: Seq<char>,
    env: Seq<EnvVarView>,
    script: Seq<char>,
) -> JobManifestView {
    JobManifestView {
        generate_name: instance_name + "-migrate-db-"@,
        namespace: ns,
        app_label: Some(instance_name),
        backoff_limit: Some(0),
        active_deadline_seconds: Some(7200),
        ttl_seconds_after_finished: Some(300),
        restart_policy: Some("Never"@),
        odoo_frame: false,
        image_pull_secret: opt_text(instance.spec.image_pull_secret),
        run_beside: None,
        volumes: Seq::empty(),
        init_containers: Seq::empty(),
        containers: seq![
            job_container(
                "migrate-db"@,
                image,
                seq!["/bin/sh"@, "-c"@],
                seq![script],
                env,
                false,
                Seq::empty(),
            ),
        ],
    }
}

/// Builds the job that copies a database to another cluster.
pub fn build_migration_job(
    inst_name: &str,
    ns: &str,
    instance: &OdooInstance,
    image: &str,
    env_vars: Vec<EnvVar>,
    script: &str,
) -> (r: JobManifest)
    ensures
        r@ == migration_job(
            inst_name@,
            ns@,
            *instance,
            image@,
            env_views(env_vars@),
            script@,
        ),
{
    let command = vec!["/bin/sh".to_owned(), "-c".to_owned()];
    let args = vec![script.to_owned()];
    assert(texts(command@) =~= seq!["/bin/sh"@, "-c"@]);
    assert(texts(args@) =~= seq![script@]);
    let ghost vars = env_views(env_vars@);
    let container = make_job_container(
        "migrate-db",
        image,
        command,
        args,
        env_vars,
        false,
        Vec::new(),
    );
    assert(container@.volume_mounts =~= Seq::empty());
    let r = JobManifest {
        generate_name: concat2(inst_name, "-migrate-db-"),
        namespace: ns.to_owned(),
        app_label: Some(inst_name.to_owned()),
        backoff_limit: Some(0),
        active_deadline_seconds: Some(7200),
        ttl_seconds_after_finished: Some(300),
        restart_policy: Some("Never".to_owned()),
        odoo_frame: false,
        image_pull_secret: clone_opt(&instance.spec.image_pull_secret),
        run_beside: None,
        volumes: Vec::new(),
        init_containers: Vec::new(),
        containers: vec![container],
    };
    proof {
        let want = migration_job(inst_name@, ns@, *instance, image@, vars, script@);
        assert(volume_views(r.volumes@) =~= want.volumes);
        assert(container_views(r.init_containers@) =~= want.init_containers);
        assert(container_views(r.containers@) =~= want.containers);
    }
    r
}

/// The version of the client tools that can read from one server and write to
/// another: the later one.
pub fn tools_major(source: u32, destination: u32) -> (r: u32)
    ensures
        r >= source,
        r >= destination,
        r == source || r == destination,
{
    if source < destination {
        destination
    } else {
        source
    }
}

/// The image with the client tools that can read from one server and write to
/// another: that of the later version.
pub fn tools_image(source: u32, destination: u32) -> (r: String)
    ensures
        r@ == "postgres:"@ + int_text(
            if source < destination {
                destination as int
            } else {
                source as int
            },
        ),
{
    let major: u32 = tools_major(source, destination);
    concat2("postgres:", int_to_string(major as i64).as_str())
}

/// A stage of the beginning of a migration: what is due.
#[derive(Clone, Copy, Debug, PartialEq, Eq, Structural)]
pub enum BeginStage {
    /// Scale the Deployment of the instance down.
    ScaleWeb,
    /// Scale the Deployment that runs scheduled actions down.
    ScaleCron,
    /// Wait until the pods of both are gone: a pod that is still there holds
    /// connections, and a database with connections cannot be dropped.
    AwaitPods,
    /// Read the configuration of the cluster that holds the database.
    LoadSource,
    /// Read the configuration of the cluster that the spec asks for.
    LoadTarget,
    /// Write the Secret with the administrator passwords.
    StoreCredentials,
    /// Ask the source for its version.
    DetectSource,
    /// Ask the target for its version.
    DetectTarget,
    /// Create the job that copies the database.
    CreateJob,
    /// Write the name of the job to the status.
    Record,
    /// The migration has begun.
    Begun,
    /// What was done last failed; the next reconciliation begins anew.
    Failed,
}

/// How long the pods may take to go: 120 seconds, in nanoseconds.
pub const POD_TERMINATION_NANOS: u128 = 120_000_000_000;

/// The stage that follows another one.
pub open spec fn begin_after(stage: BeginStage, done: bool) -> BeginStage {
    match stage {
        BeginStage::Begun => stage,
        BeginStage::Failed => stage,
        _ => if !done {
            BeginStage::Failed
        } else {
            match stage {
                BeginStage::ScaleWeb => BeginStage::ScaleCron,
                BeginStage::ScaleCron => BeginStage::AwaitPods,
                BeginStage::AwaitPods => BeginStage::LoadSource,
                BeginStage::LoadSource => BeginStage::LoadTarget,
                BeginStage::LoadTarget => BeginStage::StoreCredentials,
                BeginStage::StoreCredentials => BeginStage::DetectSource,
                BeginStage::DetectSource => BeginStage::DetectTarget,
                BeginStage::DetectTarget => BeginStage::CreateJob,
                BeginStage::CreateJob => BeginStage::Record,
                _ => BeginStage::Begun,
            }
        },
    }
}

/// Goes on to the stage that follows.
pub fn advance_begin(stage: BeginStage, done: bool) -> (r: BeginStage)
    ensures
        r == begin_after(stage, done),
{
    match stage {
        BeginStage::Begun => stage,
        BeginStage::Failed => stage,
        _ => if !done {
            BeginStage::Failed
        } else {
            match stage {
                BeginStage::ScaleWeb => BeginStage::ScaleCron,
                BeginStage::ScaleCron => BeginStage::AwaitPods,
                BeginStage::AwaitPods => BeginStage::LoadSource,
                BeginStage::LoadSource => BeginStage::LoadTarget,
                BeginStage::LoadTarget => BeginStage::StoreCredentials,
                BeginStage::StoreCredentials => BeginStage::DetectSource,
                BeginStage::DetectSource => BeginStage::DetectTarget,
                BeginStage::DetectTarget => BeginStage::CreateJob,
                BeginStage::CreateJob => BeginStage::Record,
                _ => BeginStage::Begun,
            }
        },
    }
}

/// How far the beginning of a migration has come.
pub open spec fn begin_rank(stage: BeginStage) -> int {
    match stage {
        BeginStage::ScaleWeb => 0,
        BeginStage::ScaleCron => 1,
        BeginStage::AwaitPods => 2,
        BeginStage::LoadSource => 3,
        BeginStage::LoadTarget => 4,
        BeginStage::StoreCredentials => 5,
        BeginStage::DetectSource => 6,
        BeginStage::DetectTarget => 7,
        BeginStage::CreateJob => 8,
        BeginStage::Record => 9,
        BeginStage::Begun => 10,
        BeginStage::Failed => -1,
    }
}

/// The job is created only when everything before it was done, the wait for the
/// pods among it: each stage follows only the one before it.
pub proof fn law_the_job_waits_for_the_pods(stage: BeginStage, done: bool)
    ensures
        ({
            let next = begin_after(stage, done);
            &&& begin_rank(next) > 0 && next != stage ==> done && begin_rank(stage) == begin_rank(
                next,
            ) - 1
            &&& begin_rank(BeginStage::AwaitPods) < begin_rank(BeginStage::CreateJob)
        }),
{
}

/// What the status of an instance says once its migration has begun.
#[derive(Clone, Debug)]
pub struct DatabaseMigrationRecord {
    pub job_name: String,
    pub previous_cluster: String,
    pub message: String,
}

/// What the status says once the job that copies the database has been created.
pub fn begin_database_migration(job_name: &str, old_cluster: &str, new_cluster: &str) -> (r:
    DatabaseMigrationRecord)
    ensures
        r.job_name@ == job_name@,
        r.previous_cluster@ == old_cluster@,
        r.message@ == "Migrating database from cluster "@ + old_cluster@ + " to "@ + new_cluster@,
{
    DatabaseMigrationRecord {
        job_name: job_name.to_owned(),
        previous_cluster: old_cluster.to_owned(),
        message: concat4("Migrating database from cluster ", old_cluster, " to ", new_cluster),
    }
}

/// What a rollback does: it deletes the job and the Secret, writes the previous
/// cluster back to the spec where it is known, and clears the migration from the
/// status, which then holds the message.
#[derive(Clone, Debug)]
pub struct DatabaseRollback {
    pub job: Option<String>,
    pub creds_secret: String,
    pub revert_cluster: Option<String>,
    pub message: String,
}

/// The cluster that the status remembers.
pub open spec fn remembered_cluster(instance: OdooInstance) -> Seq<char> {
    match instance.status {
        Some(s) => match s.migration_previous_cluster {
            Some(c) => c@,
            None => "unknown"@,
        },
        None => "unknown"@,
    }
}

/// The migration job that the status names.
pub open spec fn db_migration_job(instance: OdooInstance) -> Option<String> {
    match instance.status {
        Some(s) => s.db_migration_job_name,
        None => None,
    }
}

/// Plans a rollback.
pub fn rollback_database_migration(instance: &OdooInstance) -> (r: DatabaseRollback)
    ensures
        r.job == db_migration_job(*instance),
        r.creds_secret@ == migration_creds_text(instance.metadata.name_text()),
        opt_text(r.revert_cluster) == if remembered_cluster(*instance) != "unknown"@ {
            Some(remembered_cluster(*instance))
        } else {
            None
        },
        r.message@ == "Database migration rolled back to cluster "@ + remembered_cluster(
            *instance,
        ),
{
    let name = instance.metadata.name_any();
    let previous = match &instance.status {
        Some(s) => match &s.migration_previous_cluster {
            Some(c) => c.clone(),
            None => "unknown".to_owned(),
        },
        None => "unknown".to_owned(),
    };
    let job = match &instance.status {
        Some(s) => clone_opt(&s.db_migration_job_name),
        None => None,
    };
    let message = concat2("Database migration rolled back to cluster ", previous.as_str());
    let revert_cluster = if same_text(previous.as_str(), "unknown") {
        None
    } else {
        Some(previous)
    };
    DatabaseRollback {
        job,
        creds_secret: migration_creds_secret_name(name.as_str()),
        revert_cluster,
        message,
    }
}

/// A stage of a rollback: the call that is due.
#[derive(Clone, Copy, Debug, PartialEq, Eq, Structural)]
pub enum DatabaseRollbackStage {
    /// Delete the job.
    DeleteJob,
    /// Delete the Secret with the administrator passwords.
    DeleteSecret,
    /// Write the previous cluster back to the spec.
    RevertSpec,
    /// Clear the migration from the status and write the message.
    ClearStatus,
    /// Everything is done.
    Finished,
    /// The rollback cannot go on for now.
    Failed,
}

/// Where a rollback starts.
pub open spec fn rollback_start(plan: DatabaseRollback) -> DatabaseRollbackStage {
    if plan.job is Some {
        DatabaseRollbackStage::DeleteJob
    } else {
        DatabaseRollbackStage::DeleteSecret
    }
}

/// The stage that follows a call.  Whether the job and the Secret could be deleted
/// does not matter; the spec and the status have to be written.
pub open spec fn rollback_after(
    stage: DatabaseRollbackStage,
    done: bool,
    plan: DatabaseRollback,
) -> DatabaseRollbackStage {
    match stage {
        DatabaseRollbackStage::DeleteJob => DatabaseRollbackStage::DeleteSecret,
        DatabaseRollbackStage::DeleteSecret => if plan.revert_cluster is Some {
            DatabaseRollbackStage::RevertSpec
        } else {
            DatabaseRollbackStage::ClearStatus
        },
        DatabaseRollbackStage::RevertSpec => if done {
            DatabaseRollbackStage::ClearStatus
        } else {
            DatabaseRollbackStage::Failed
        },
        DatabaseRollbackStage::ClearStatus => if done {
            DatabaseRollbackStage::Finished
        } else {
            DatabaseRollbackStage::Failed
        },
        DatabaseRollbackStage::Finished => DatabaseRollbackStage::Finished,
        DatabaseRollbackStage::Failed => DatabaseRollbackStage::Failed,
    }
}

/// Starts a rollback.
pub fn start_rollback(plan: &DatabaseRollback) -> (r: DatabaseRollbackStage)
    ensures
        r == rollback_start(*plan),
{
    if plan.job.is_some() {
        DatabaseRollbackStage::DeleteJob
    } else {
        DatabaseRollbackStage::DeleteSecret
    }
}

/// Goes on to the stage that follows a call.
pub fn advance_rollback(stage: DatabaseRollbackStage, done: bool, plan: &DatabaseRollback) -> (r:
    DatabaseRollbackStage)
    ensures
        r == rollback_after(stage, done, *plan),
{
    match stage {
        DatabaseRollbackStage::DeleteJob => DatabaseRollbackStage::DeleteSecret,
        DatabaseRollbackStage::DeleteSecret => if plan.revert_cluster.is_some() {
            DatabaseRollbackStage::RevertSpec
        } else {
            DatabaseRollbackStage::ClearStatus
        },
        DatabaseRollbackStage::RevertSpec => if done {
            DatabaseRollbackStage::ClearStatus
        } else {
            DatabaseRollbackStage::Failed
        },
        DatabaseRollbackStage::ClearStatus => if done {
            DatabaseRollbackStage::Finished
        } else {
            DatabaseRollbackStage::Failed
        },
        DatabaseRollbackStage::Finished => DatabaseRollbackStage::Finished,
        DatabaseRollbackStage::Failed => DatabaseRollbackStage::Failed,
    }
}

/// A rollback only fails where the spec or the status cannot be written, it forgets
/// the migration last, and only after the spec is written where that is due.
pub proof fn law_rollback_forgets_the_migration_last(
    stage: DatabaseRollbackStage,
    done: bool,
    plan: DatabaseRollback,
)
    ensures
        rollback_after(stage, done, plan) == DatabaseRollbackStage::Failed ==> {
            ||| stage == DatabaseRollbackStage::Failed
            ||| !done && (stage == DatabaseRollbackStage::RevertSpec || stage
                == DatabaseRollbackStage::ClearStatus)
        },
        rollback_after(stage, done, plan) == DatabaseRollbackStage::Finished ==> stage
            == DatabaseRollbackStage::Finished || (stage == DatabaseRollbackStage::ClearStatus
            && done),
        rollback_after(stage, done, plan) == DatabaseRollbackStage::ClearStatus
            && plan.revert_cluster is Some ==> stage == DatabaseRollbackStage::RevertSpec && done,
{
}

/// No administrator password is written out in the environment of a migration
/// job: both variables are read from the Secret.
pub proof fn law_admin_passwords_stay_secret(
    old_pg: PostgresClusterConfig,
    new_pg: PostgresClusterConfig,
    conf: Seq<char>,
    db: Seq<char>,
    secret: Seq<char>,
)
    ensures
        migration_env(old_pg, new_pg, conf, db, secret)[3] == secret_env_of(
            "SRC_ADMIN_PASSWORD"@,
            secret,
            "SRC_ADMIN_PASSWORD"@,
        ),
        migration_env(old_pg, new_pg, conf, db, secret)[7] == secret_env_of(
            "DST_ADMIN_PASSWORD"@,
            secret,
            "DST_ADMIN_PASSWORD"@,
        ),
        forall|a: PostgresClusterConfig, b: PostgresClusterConfig|
            a.host == old_pg.host && a.port == old_pg.port && a.admin_user == old_pg.admin_user
                && b.host == new_pg.host && b.port == new_pg.port && b.admin_user
                == new_pg.admin_user ==> #[trigger] migration_env(a, b, conf, db, secret)
                == migration_env(old_pg, new_pg, conf, db, secret),
{
}

/// The variables of a migration job are told apart.
proof fn lemma_variable_names()
    ensures
        "SRC_HOST"@.len() == 8,
        "SRC_PORT"@.len() == 8,
        "SRC_ADMIN_USER"@.len() == 14,
        "SRC_ADMIN_PASSWORD"@.len() == 18,
        "DST_HOST"@.len() == 8,
        "DST_PORT"@.len() == 8,
        "DST_ADMIN_USER"@.len() == 14,
        "DST_ADMIN_PASSWORD"@.len() == 18,
        "DB_USER"@.len() == 7,
        "DB_PASSWORD"@.len() == 11,
        "DB_NAME"@.len() == 7,
        "SRC_PORT"@[4] == 'P',
        "SRC_HOST"@[4] == 'H',
        "DST_HOST"@[0] == 'D',
        "SRC_HOST"@[0] == 'S',
        "SRC_PORT"@[0] == 'S',
        "DST_PORT"@[0] == 'D',
        "DST_PORT"@[4] == 'P',
        "DST_HOST"@[4] == 'H',
        "DST_ADMIN_USER"@[0] == 'D',
        "SRC_ADMIN_USER"@[0] == 'S',
        "DST_ADMIN_PASSWORD"@[0] == 'D',
        "SRC_ADMIN_PASSWORD"@[0] == 'S',
        "DB_NAME"@[3] == 'N',
        "DB_USER"@[3] == 'U',
{
    reveal_strlit("SRC_HOST");
    reveal_strlit("SRC_PORT");
    reveal_strlit("SRC_ADMIN_USER");
    reveal_strlit("SRC_ADMIN_PASSWORD");
    reveal_strlit("DST_HOST");
    reveal_strlit("DST_PORT");
    reveal_strlit("DST_ADMIN_USER");
    reveal_strlit("DST_ADMIN_PASSWORD");
    reveal_strlit("DB_USER");
    reveal_strlit("DB_PASSWORD");
    reveal_strlit("DB_NAME");
}

/// The copy goes from the old cluster to the new one.  Every `SRC_` variable of the
/// job tells about the cluster that holds the database, every `DST_` variable about
/// the one that it moves to; the passwords come from the Secret, the role from the
/// ConfigMap of the instance, and the database is the one that is named.
pub proof fn law_the_copy_goes_from_old_to_new(
    old_pg: &PostgresClusterConfig,
    new_pg: &PostgresClusterConfig,
    odoo_conf_name: &str,
    db_name: &str,
    creds_secret: &str,
    r: Vec<EnvVar>,
)
    requires
        call_ensures(
            build_migration_env,
            (old_pg, new_pg, odoo_conf_name, db_name, creds_secret),
            r,
        ),
    ensures
        sees_value(env_views(r@), "SRC_HOST"@, old_pg.host@),
        sees_value(env_views(r@), "SRC_PORT"@, int_text(old_pg.port as int)),
        sees_value(env_views(r@), "SRC_ADMIN_USER"@, old_pg.admin_user@),
        sees_value(env_views(r@), "DST_HOST"@, new_pg.host@),
        sees_value(env_views(r@), "DST_PORT"@, int_text(new_pg.port as int)),
        sees_value(env_views(r@), "DST_ADMIN_USER"@, new_pg.admin_user@),
        sees(
            env_views(r@),
            "SRC_ADMIN_PASSWORD"@,
            EnvSourceView::SecretKey { name: creds_secret@, key: "SRC_ADMIN_PASSWORD"@ },
        ),
        sees(
            env_views(r@),
            "DST_ADMIN_PASSWORD"@,
            EnvSourceView::SecretKey { name: creds_secret@, key: "DST_ADMIN_PASSWORD"@ },
        ),
        sees(
            env_views(r@),
            "DB_USER"@,
            EnvSourceView::ConfigMapKey { name: odoo_conf_name@, key: "db_user"@ },
        ),
        sees(
            env_views(r@),
            "DB_PASSWORD"@,
            EnvSourceView::ConfigMapKey { name: odoo_conf_name@, key: "db_password"@ },
        ),
        sees_value(env_views(r@), "DB_NAME"@, db_name@),
{
    lemma_variable_names();
    let e = env_views(r@);
    assert(e.len() == 11);
    assert(e[0].name == "SRC_HOST"@);
    assert(e[1].name == "SRC_PORT"@);
    assert(e[2].name == "SRC_ADMIN_USER"@);
    assert(e[3].name == "SRC_ADMIN_PASSWORD"@);
    assert(e[4].name == "DST_HOST"@);
    assert(e[5].name == "DST_PORT"@);
    assert(e[6].name == "DST_ADMIN_USER"@);
    assert(e[7].name == "DST_ADMIN_PASSWORD"@);
    assert(e[8].name == "DB_USER"@);
    assert(e[9].name == "DB_PASSWORD"@);
    assert(e[10].name == "DB_NAME"@);
}

/// The Secret of a migration belongs to the instance and holds, under the keys that
/// the job reads, the administrator password of the old cluster and that of the new
/// one.
pub proof fn law_the_job_finds_its_passwords(
    instance: &OdooInstance,
    old_pg: &PostgresClusterConfig,
    new_pg: &PostgresClusterConfig,
    r: SecretManifest,
)
    requires
        call_ensures(build_credentials_secret, (instance, old_pg, new_pg), r),
    ensures
        r@.name == instance.metadata.name_text() + "-migrate-db-creds"@,
        r@.namespace == instance.metadata.namespace_text(),
        r@.owner.name == instance.metadata.name_text(),
        r@.owner.kind == "OdooInstance"@,
        r@.owner.controller == Some(true),
        holds_entry(r@.string_data, "SRC_ADMIN_PASSWORD"@, old_pg.admin_password@),
        holds_entry(r@.string_data, "DST_ADMIN_PASSWORD"@, new_pg.admin_password@),
{
    lemma_variable_names();
    assert(r@.string_data[0].0 == "SRC_ADMIN_PASSWORD"@);
    assert(r@.string_data[1].0 == "DST_ADMIN_PASSWORD"@);
}

/// The job of a migration runs the script once, with the image and the variables that
/// it is given, and is not tried again.
pub proof fn law_the_script_runs_once(
    inst_name: &str,
    ns: &str,
    instance: &OdooInstance,
    image: &str,
    env_vars: Vec<EnvVar>,
    script: &str,
    r: JobManifest,
)
    requires
        call_ensures(
            build_migration_job,
            (inst_name, ns, instance, image, env_vars, script),
            r,
        ),
    ensures
        r@.namespace == ns@,
        r@.generate_name == inst_name@ + "-migrate-db-"@,
        r@.app_label == Some(inst_name@),
        r@.backoff_limit == Some(0i32),
        r@.restart_policy == Some("Never"@),
        r@.active_deadline_seconds == Some(7200i64),
        instance.spec.image_pull_secret matches Some(s) ==> r@.image_pull_secret == Some(s@),
        r@.init_containers.len() == 0,
        r@.containers.len() == 1,
        r@.containers[0].image == image@,
        r@.containers[0].env == env_views(env_vars@),
        r@.containers[0].command == seq!["/bin/sh"@, "-c"@],
        r@.containers[0].args == seq![script@],
{
}

/// The tools of a migration are those of the later of the two servers, whichever it
/// is.
pub proof fn law_tools_are_those_of_the_later_server(
    source: u32,
    destination: u32,
    r: String,
    swapped: String,
)
    requires
        call_ensures(tools_image, (source, destination), r),
        call_ensures(tools_image, (destination, source), swapped),
    ensures
        r@ == swapped@,
        source >= destination ==> r@ == "postgres:"@ + int_text(source as int),
{
}

/// A migration starts from the cluster that the status calls active.
pub proof fn law_migrations_start_from_the_active_cluster(
    instance: &OdooInstance,
    r: Result<String, Error>,
)
    requires
        call_ensures(source_cluster, (instance,), r),
    ensures
        (instance.status matches Some(s) && s.active_cluster is Some) <==> r is Ok,
        instance.status matches Some(s) ==> s.active_cluster matches Some(c) ==> (r matches Ok(x)
            && x@ == c@),
        r matches Err(e) ==> e is Config,
{
}

/// A rollback undoes what the beginning has recorded: it deletes the job that was
/// created and the Secret that was written, and gives the spec the cluster that the
/// database was moved away from.
pub proof fn law_rollbacks_undo_the_beginning(
    job_name: &str,
    old_cluster: &str,
    new_cluster: &str,
    record: DatabaseMigrationRecord,
    instance: &OdooInstance,
    old_pg: &PostgresClusterConfig,
    new_pg: &PostgresClusterConfig,
    secret: SecretManifest,
    r: DatabaseRollback,
)
    requires
        call_ensures(begin_database_migration, (job_name, old_cluster, new_cluster), record),
        call_ensures(build_credentials_secret, (instance, old_pg, new_pg), secret),
        instance.status matches Some(s) && s.db_migration_job_name == Some(record.job_name)
            && s.migration_previous_cluster == Some(record.previous_cluster),
        old_cluster@ != "unknown"@,
        call_ensures(rollback_database_migration, (instance,), r),
    ensures
        r.job matches Some(j) && j@ == job_name@,
        r.creds_secret@ == secret@.name,
        r.revert_cluster matches Some(c) && c@ == old_cluster@,
        r.message@ == "Database migration rolled back to cluster "@ + old_cluster@,
{
}

/// Where the status remembers no cluster, a rollback leaves the one of the spec alone.
pub proof fn law_unknown_clusters_are_not_restored(instance: &OdooInstance, r: DatabaseRollback)
    requires
        call_ensures(rollback_database_migration, (instance,), r),
        instance.status matches Some(s) ==> s.migration_previous_cluster is None,
    ensures
        r.revert_cluster is None,
{
}

/// A rollback removes everything: the job, if there is one, then the Secret, then the
/// cluster from the spec, if one is remembered, then the migration from the status.
pub proof fn law_rollbacks_leave_nothing_behind(plan: &DatabaseRollback, done: bool)
    ensures
        rollback_start(*plan) == if plan.job is Some {
            DatabaseRollbackStage::DeleteJob
        } else {
            DatabaseRollbackStage::DeleteSecret
        },
        rollback_after(DatabaseRollbackStage::DeleteJob, done, *plan)
            == DatabaseRollbackStage::DeleteSecret,
        plan.revert_cluster is Some ==> rollback_after(
            DatabaseRollbackStage::DeleteSecret,
            done,
            *plan,
        ) == DatabaseRollbackStage::RevertSpec,
        plan.revert_cluster is None ==> rollback_after(
            DatabaseRollbackStage::DeleteSecret,
            done,
            *plan,
        ) == DatabaseRollbackStage::ClearStatus,
        rollback_after(DatabaseRollbackStage::RevertSpec, true, *plan)
            == DatabaseRollbackStage::ClearStatus,
        rollback_after(DatabaseRollbackStage::ClearStatus, true, *plan)
            == DatabaseRollbackStage::Finished,
{
}

/// A migration that nothing keeps from beginning goes on stage by stage: both
/// Deployments go down, the pods go, the clusters are read, the passwords are stored,
/// the versions are asked for, the job is created and recorded.
pub proof fn law_beginnings_reach_their_end()
    ensures
        begin_after(BeginStage::ScaleWeb, true) == BeginStage::ScaleCron,
        begin_after(BeginStage::ScaleCron, true) == BeginStage::AwaitPods,
        begin_after(BeginStage::AwaitPods, true) == BeginStage::LoadSource,
        begin_after(BeginStage::LoadSource, true) == BeginStage::LoadTarget,
        begin_after(BeginStage::LoadTarget, true) == BeginStage::StoreCredentials,
        begin_after(BeginStage::StoreCredentials, true) == BeginStage::DetectSource,
        begin_after(BeginStage::DetectSource, true) == BeginStage::DetectTarget,
        begin_after(BeginStage::DetectTarget, true) == BeginStage::CreateJob,
        begin_after(BeginStage::CreateJob, true) == BeginStage::Record,
        begin_after(BeginStage::Record, true) == BeginStage::Begun,
        forall|stage: BeginStage|
            stage != BeginStage::Begun ==> #[trigger] begin_after(stage, false)
                == BeginStage::Failed,
{
}

/// While its database moves, neither the instance nor its scheduled actions run.
pub proof fn law_nothing_runs_while_the_database_moves(phase: &MigratingDatabase, r: Scaling)
    requires
        call_ensures(MigratingDatabase::ensure, (phase,), r),
    ensures
        r.web == Some(0i32),
        r.cron == Some(0i32),
{
}

/// A rollback goes from stage to stage: the job goes, then the Secret, then the spec is
/// reverted if the cluster is known, then the migration is forgotten.  Only the spec and the
/// status have to be written.
pub proof fn law_rollbacks_go_on(
    stage: DatabaseRollbackStage,
    done: bool,
    plan: &DatabaseRollback,
    r: DatabaseRollbackStage,
)
    requires
        call_ensures(advance_rollback, (stage, done, plan), r),
    ensures
        stage == DatabaseRollbackStage::DeleteJob ==> r == DatabaseRollbackStage::DeleteSecret,
        stage == DatabaseRollbackStage::DeleteSecret && plan.revert_cluster is Some ==> r
            == DatabaseRollbackStage::RevertSpec,
        stage == DatabaseRollbackStage::DeleteSecret && plan.revert_cluster is None ==> r
            == DatabaseRollbackStage::ClearStatus,
        stage == DatabaseRollbackStage::RevertSpec && done ==> r
            == DatabaseRollbackStage::ClearStatus,
        stage == DatabaseRollbackStage::ClearStatus && done ==> r
            == DatabaseRollbackStage::Finished,
        !done && (stage == DatabaseRollbackStage::RevertSpec || stage
            == DatabaseRollbackStage::ClearStatus) ==> r == DatabaseRollbackStage::Failed,
        stage == DatabaseRollbackStage::Finished || stage == DatabaseRollbackStage::Failed ==> r
            == stage,
{
}

/// The tools are those of the later of the two servers, in whichever order they are given.
pub proof fn law_the_later_server_decides(a: u32, b: u32, r: u32, swapped: u32)
    requires
        call_ensures(tools_major, (a, b), r),
        call_ensures(tools_major, (b, a), swapped),
    ensures
        r == swapped,
        r == if a < b {
            b
        } else {
            a
        },
{
}

/// A migration says from where to where it goes, and one without a source says that.
pub proof fn law_migrations_say_what_they_do(
    job_name: &str,
    old_cluster: &str,
    new_cluster: &str,
    record: DatabaseMigrationRecord,
    instance: &OdooInstance,
    source: Result<String, Error>,
)
    requires
        call_ensures(begin_database_migration, (job_name, old_cluster, new_cluster), record),
        call_ensures(source_cluster, (instance,), source),
    ensures
        record.job_name@ == job_name@,
        record.previous_cluster@ == old_cluster@,
        record.message@ == "Migrating database from cluster "@ + old_cluster@ + " to "@
            + new_cluster@,
        source matches Err(e) ==> e.detail()
            == "cannot begin database migration: activeCluster not set"@,
{
}

/// The copy runs alone in one container, leaves five minutes after its end, and needs no
/// volumes.
pub proof fn law_the_copy_runs_alone(
    inst_name: &str,
    ns: &str,
    instance: &OdooInstance,
    image: &str,
    env_vars: Vec<EnvVar>,
    script: &str,
    r: JobManifest,
)
    requires
        call_ensures(build_migration_job, (inst_name, ns, instance, image, env_vars, script), r),
    ensures
        r@.containers.len() == 1,
        r@.init_containers.len() == 0,
        r@.volumes.len() == 0,
        r@.containers[0].name == "migrate-db"@,
        r@.containers[0].image == image@,
        r@.containers[0].env == env_views(env_vars@),
        r@.ttl_seconds_after_finished == Some(300i32),
        r@.run_beside is None,
        !r@.odoo_frame,
        !r@.containers[0].odoo_mounts,
        r@.generate_name == inst_name@ + "-migrate-db-"@,
        r@.namespace == ns@,
        instance.spec.image_pull_secret is None ==> r@.image_pull_secret is None,
{
}

} // verus!
