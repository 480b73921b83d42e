//! The batch jobs that do an instance's work.

use odoo_operator::controller::job_manifests::{
    build_backup_work, build_init_job, build_init_work, build_restore_work, build_upgrade_args,
    build_upgrade_work, credentials_secret, file_name, local_file_name, BackupScripts,
    RestoreScripts, S3Credentials,
};
use odoo_operator::controller::manifests::{Container, EnvSource, VolumeSource};
use odoo_operator::crd::meta::ObjectMeta;
use odoo_operator::crd::odoo_backup_job::{BackupDestination, OdooBackupJob, OdooBackupJobSpec};
use odoo_operator::crd::odoo_init_job::{default_modules, OdooInitJob, OdooInitJobSpec};
use odoo_operator::crd::odoo_instance::{OdooInstance, OdooInstanceSpec};
use odoo_operator::crd::odoo_restore_job::{
    OdooLiveSource, OdooRestoreJob, OdooRestoreJobSpec, RestoreSource, RestoreSourceType,
};
use odoo_operator::crd::odoo_upgrade_job::{OdooUpgradeJob, OdooUpgradeJobSpec};
use odoo_operator::crd::shared::{BackupFormat, OdooInstanceRef, S3Config, SecretReference};

fn instance() -> OdooInstance {
    let spec = OdooInstanceSpec::minimal("admin", 1, vec!["a.example.com".to_string()]);
    let mut inst = OdooInstance::new("prod", spec);
    inst.metadata.namespace = Some("erp".to_string());
    inst.metadata.uid = Some("U-1".to_string());
    inst
}

fn reference() -> OdooInstanceRef {
    OdooInstanceRef { name: "prod".to_string(), namespace: None }
}

fn texts(v: &[&str]) -> Vec<String> {
    v.iter().map(|s| s.to_string()).collect()
}

fn env_of(c: &Container) -> Vec<(String, String)> {
    c.env
        .iter()
        .map(|e| {
            let value = match &e.source {
                EnvSource::Value(v) => v.clone(),
                EnvSource::ConfigMapKey { name, key } => format!("cm:{}/{}", name, key),
                EnvSource::SecretKey { name, key } => format!("secret:{}/{}", name, key),
            };
            (e.name.clone(), value)
        })
        .collect()
}

fn pairs(v: &[(&str, &str)]) -> Vec<(String, String)> {
    v.iter().map(|(a, b)| (a.to_string(), b.to_string())).collect()
}

fn restore(source: RestoreSource, format: BackupFormat) -> OdooRestoreJob {
    OdooRestoreJob {
        metadata: ObjectMeta::named("back"),
        spec: OdooRestoreJobSpec {
            odoo_instance_ref: reference(),
            source,
            format,
            neutralize: true,
            webhook: None,
        },
        status: None,
    }
}

fn restore_scripts() -> RestoreScripts {
    RestoreScripts {
        s3_download: "s3".to_string(),
        odoo_download: "odoo".to_string(),
        restore: "restore".to_string(),
    }
}

fn backup(key: &str) -> OdooBackupJob {
    OdooBackupJob {
        metadata: ObjectMeta::named("nightly"),
        spec: OdooBackupJobSpec {
            odoo_instance_ref: reference(),
            destination: BackupDestination {
                bucket: "bucket".to_string(),
                object_key: key.to_string(),
                endpoint: "https://s3".to_string(),
                region: None,
                insecure: true,
                s3_credentials_secret_ref: None,
            },
            format: BackupFormat::Dump,
            with_filestore: false,
            webhook: None,
        },
        status: None,
    }
}

#[test]
fn init_jobs_install_modules() {
    let job = build_init_job("i", "erp", "odoo:17", "odoo_x", &texts(&["base", "sale"]));
    assert_eq!(job.generate_name, "i-");
    assert_eq!(job.namespace, "erp");
    assert!(job.odoo_frame);
    assert_eq!(job.active_deadline_seconds, None);
    let c = &job.containers[0];
    assert_eq!(c.name, "init");
    assert_eq!(c.image, "odoo:17");
    assert_eq!(c.command, texts(&["/entrypoint.sh", "odoo"]));
    assert_eq!(
        c.args,
        texts(&["-i", "base,sale", "-d", "odoo_x", "--no-http", "--stop-after-init"])
    );
    assert!(c.odoo_mounts);
}

#[test]
fn init_jobs_fall_back_to_base() {
    let job = OdooInitJob {
        metadata: ObjectMeta::named("first"),
        spec: OdooInitJobSpec {
            odoo_instance_ref: reference(),
            modules: vec![],
            demo: false,
            webhook: None,
        },
        status: None,
    };
    let work = build_init_work(&job, "erp", &instance());
    assert_eq!(work.generate_name, "first-");
    assert_eq!(work.containers[0].image, "odoo:18.0");
    assert_eq!(work.containers[0].args[1], "base");
    assert_eq!(work.containers[0].args[3], "odoo___1");
    assert_eq!(default_modules(), texts(&["base"]));
}

#[test]
fn upgrades_have_work() {
    let flags = ["-d", "db", "--no-http", "--stop-after-init"];
    let all = build_upgrade_args("db", &vec![], &vec![]);
    assert_eq!(all, texts(&[&flags[..], &["-u", "all"]].concat()));
    let both = build_upgrade_args("db", &texts(&["sale", "crm"]), &texts(&["web"]));
    assert_eq!(both, texts(&[&flags[..], &["-u", "sale,crm", "-i", "web"]].concat()));
    let install = build_upgrade_args("db", &vec![], &texts(&["web"]));
    assert_eq!(install, texts(&[&flags[..], &["-i", "web"]].concat()));
}

#[test]
fn upgrade_jobs_are_bounded() {
    let job = OdooUpgradeJob {
        metadata: ObjectMeta::named("up"),
        spec: OdooUpgradeJobSpec {
            odoo_instance_ref: reference(),
            modules: texts(&["sale"]),
            modules_install: vec![],
            scheduled_time: None,
            webhook: None,
        },
        status: None,
    };
    let work = build_upgrade_work(&job, "erp", &instance());
    assert_eq!(work.active_deadline_seconds, Some(3600));
    assert_eq!(work.containers[0].name, "odoo-upgrade");
    assert_eq!(work.containers[0].args[1], "odoo___1");
}

#[test]
fn restores_download_from_object_storage() {
    let source = RestoreSource {
        source_type: RestoreSourceType::S3,
        s3: Some(S3Config {
            bucket: "b".to_string(),
            object_key: "k".to_string(),
            endpoint: "e".to_string(),
            region: None,
            insecure: false,
            s3_credentials_secret_ref: None,
        }),
        odoo: None,
    };
    let credentials = Some(S3Credentials {
        access_key: "ak".to_string(),
        secret_key: "sk".to_string(),
    });
    let job = restore(source, BackupFormat::Zip);
    let work = build_restore_work(&job, "erp", &instance(), &credentials, &restore_scripts());
    assert_eq!(work.active_deadline_seconds, Some(3600));
    let dl = &work.init_containers[0];
    assert_eq!(dl.name, "download");
    assert_eq!(dl.image, "quay.io/minio/mc:latest");
    assert_eq!(dl.command, texts(&["/bin/sh", "-c", "s3"]));
    assert_eq!(
        env_of(dl),
        pairs(&[
            ("S3_BUCKET", "b"),
            ("S3_KEY", "k"),
            ("S3_ENDPOINT", "e"),
            ("S3_INSECURE", "false"),
            ("OUTPUT_FILE", "/mnt/backup/backup.zip"),
            ("MC_CONFIG_DIR", "/tmp/.mc"),
            ("AWS_ACCESS_KEY_ID", "ak"),
            ("AWS_SECRET_ACCESS_KEY", "sk"),
        ])
    );
    assert!(!dl.odoo_mounts);
    assert_eq!(dl.volume_mounts[0].mount_path, "/mnt/backup");
    let main = &work.containers[0];
    assert_eq!(main.name, "restore");
    assert_eq!(main.command, texts(&["/bin/sh", "-c", "restore"]));
    assert_eq!(
        env_of(main),
        pairs(&[
            ("DB_NAME", "odoo___1"),
            ("NEUTRALIZE", "True"),
            ("HOST", "cm:prod-odoo-conf/db_host"),
            ("PORT", "cm:prod-odoo-conf/db_port"),
            ("USER", "cm:prod-odoo-conf/db_user"),
            ("PASSWORD", "cm:prod-odoo-conf/db_password"),
        ])
    );
    assert!(main.odoo_mounts);
    assert!(matches!(work.volumes[0].source, VolumeSource::EmptyDir));
}

#[test]
fn restores_download_from_a_live_server() {
    let source = RestoreSource {
        source_type: RestoreSourceType::Odoo,
        s3: None,
        odoo: Some(OdooLiveSource {
            url: "https://old".to_string(),
            source_database: None,
            master_password: Some("m".to_string()),
        }),
    };
    let job = restore(source, BackupFormat::Sql);
    let work = build_restore_work(&job, "erp", &instance(), &None, &restore_scripts());
    let dl = &work.init_containers[0];
    assert_eq!(dl.image, "curlimages/curl:latest");
    assert_eq!(
        env_of(dl),
        pairs(&[
            ("ODOO_URL", "https://old"),
            ("SOURCE_DB", ""),
            ("MASTER_PASSWORD", "m"),
            ("BACKUP_FORMAT", "dump"),
            ("OUTPUT_FILE", "/mnt/backup/dump.sql"),
        ])
    );
}

#[test]
fn restores_without_a_source_download_nothing() {
    let source = RestoreSource { source_type: RestoreSourceType::S3, s3: None, odoo: None };
    let mut job = restore(source, BackupFormat::Dump);
    job.spec.neutralize = false;
    let work = build_restore_work(&job, "erp", &instance(), &None, &restore_scripts());
    assert!(work.init_containers.is_empty());
    assert_eq!(env_of(&work.containers[0])[1].1, "False");
}

#[test]
fn backups_are_dumped_and_uploaded() {
    let scripts = BackupScripts { backup: "dump".to_string(), upload: "up".to_string() };
    let job = backup("daily/prod.dump");
    let work = build_backup_work(&job, "erp", &instance(), &None, &scripts);
    assert_eq!(work.active_deadline_seconds, Some(1800));
    assert_eq!(work.run_beside.as_deref(), Some("prod"));
    let first = &work.init_containers[0];
    assert_eq!(first.name, "backup");
    assert_eq!(
        env_of(first),
        pairs(&[
            ("INSTANCE_NAME", "prod"),
            ("DB_NAME", "odoo___1"),
            ("BACKUP_FORMAT", "dump"),
            ("BACKUP_WITH_FILESTORE", "false"),
            ("LOCAL_FILENAME", "prod.dump"),
            ("HOST", "cm:prod-odoo-conf/db_host"),
            ("PORT", "cm:prod-odoo-conf/db_port"),
            ("USER", "cm:prod-odoo-conf/db_user"),
            ("PASSWORD", "cm:prod-odoo-conf/db_password"),
        ])
    );
    let second = &work.containers[0];
    assert_eq!(second.name, "uploader");
    assert_eq!(
        env_of(second),
        pairs(&[
            ("S3_BUCKET", "bucket"),
            ("S3_KEY", "daily/prod.dump"),
            ("S3_ENDPOINT", "https://s3"),
            ("S3_INSECURE", "true"),
            ("MC_CONFIG_DIR", "/tmp/.mc"),
        ])
    );
}

#[test]
fn file_names_are_those_of_paths() {
    let long = "x".repeat(40);
    for path in [
        "", "/", "a", "a/b", "a/b/", "a//b//", "..", "a/..", "a/.", "./", ".", "/.", "a/./.",
        "../a", "a/../b", ".hidden", "a/...", "é/ü", "a/.. ", long.as_str(),
    ] {
        let expected =
            std::path::Path::new(path).file_name().map(|f| f.to_string_lossy().to_string());
        assert_eq!(file_name(path), expected, "{:?}", path);
    }
    assert_eq!(local_file_name("", "prod"), "prod-backup");
    assert_eq!(local_file_name("a/..", "prod"), "prod-backup");
    assert_eq!(local_file_name("a/b.zip", "prod"), "b.zip");
}

#[test]
fn credentials_are_looked_up_near_the_instance() {
    let named = |name: Option<&str>, ns: Option<&str>| {
        Some(SecretReference {
            name: name.map(|n| n.to_string()),
            namespace: ns.map(|n| n.to_string()),
        })
    };
    assert_eq!(credentials_secret(&None, "erp"), None);
    assert_eq!(
        credentials_secret(&named(Some("s"), None), "erp"),
        Some(("s".to_string(), "erp".to_string()))
    );
    assert_eq!(
        credentials_secret(&named(None, Some("x")), "erp"),
        Some(("".to_string(), "x".to_string()))
    );
}
