use linkmerge::cli::{Args, LogLevel};
use linkmerge::config::{link_pairs, Config, Folder, OnMissing, PartialSettings, Settings};
use linkmerge::util::{check_dir, dir_check, get_dir, get_path, SyncError};

#[test]
fn merge_without_override_keeps_defaults() {
    let defaults = Settings {
        on_missing: OnMissing::Warn,
        retry_delay: 30,
        liveness_interval: Some(60),
    };
    let merged = defaults.apply_partial(&None);
    assert_eq!(merged.on_missing, OnMissing::Warn);
    assert_eq!(merged.retry_delay, 30);
    assert_eq!(merged.liveness_interval, Some(60));
}

#[test]
fn merge_takes_each_present_field() {
    let defaults = Settings {
        on_missing: OnMissing::Warn,
        retry_delay: 30,
        liveness_interval: None,
    };
    let partial = PartialSettings {
        on_missing: Some(OnMissing::Retry),
        retry_delay: Some(5),
        liveness_interval: Some(120),
    };
    let merged = defaults.apply_partial(&Some(partial));
    assert_eq!(merged.on_missing, OnMissing::Retry);
    assert_eq!(merged.retry_delay, 5);
    assert_eq!(merged.liveness_interval, Some(120));
}

#[test]
fn merge_of_empty_override_keeps_defaults() {
    let defaults = Settings {
        on_missing: OnMissing::Ignore,
        retry_delay: 7,
        liveness_interval: Some(15),
    };
    let partial = PartialSettings {
        on_missing: None,
        retry_delay: None,
        liveness_interval: None,
    };
    let merged = defaults.apply_partial(&Some(partial));
    assert_eq!(merged.on_missing, OnMissing::Ignore);
    assert_eq!(merged.retry_delay, 7);
    assert_eq!(merged.liveness_interval, Some(15));
}

#[test]
fn default_arguments() {
    let args = Args::default();
    assert_eq!(args.log_level, LogLevel::Info);
    assert!(!args.dry_run);
    assert!(!args.once);
    assert_eq!(args.config, "./config.yaml");
}

#[test]
fn pairs_flatten_every_input_under_its_destination() {
    let settings = Settings {
        on_missing: OnMissing::Warn,
        retry_delay: 30,
        liveness_interval: None,
    };
    let config = Config {
        settings,
        folders: vec![
            (
                "/mnt/all".to_string(),
                Folder {
                    inputs: vec!["~/music".to_string(), "~/video".to_string()],
                    settings: Some(PartialSettings {
                        on_missing: Some(OnMissing::Retry),
                        retry_delay: Some(5),
                        liveness_interval: None,
                    }),
                },
            ),
            (
                "/mnt/docs".to_string(),
                Folder {
                    inputs: vec!["~/papers".to_string()],
                    settings: None,
                },
            ),
        ],
    };
    let pairs = link_pairs(&config);
    assert_eq!(pairs.len(), 3);
    assert_eq!(pairs[0].source, "~/music");
    assert_eq!(pairs[0].dest, "/mnt/all");
    assert_eq!(pairs[0].settings.on_missing, OnMissing::Retry);
    assert_eq!(pairs[0].settings.retry_delay, 5);
    assert_eq!(pairs[1].source, "~/video");
    assert_eq!(pairs[1].dest, "/mnt/all");
    assert_eq!(pairs[1].settings.retry_delay, 5);
    assert_eq!(pairs[2].source, "~/papers");
    assert_eq!(pairs[2].dest, "/mnt/docs");
    assert_eq!(pairs[2].settings.on_missing, OnMissing::Warn);
    assert_eq!(pairs[2].settings.retry_delay, 30);
}

#[test]
fn pairs_of_empty_config_are_empty() {
    let config = Config {
        settings: Settings {
            on_missing: OnMissing::Error,
            retry_delay: 0,
            liveness_interval: None,
        },
        folders: Vec::new(),
    };
    assert!(link_pairs(&config).is_empty());
}

#[test]
fn resolving_the_root_is_canonical() {
    // Canonicalization really normalizes: if the probe handed its argument
    // back unchanged, the trailing dot would survive.
    let resolved = get_path("/.").expect("the root directory always resolves");
    assert_eq!(resolved, "/");
    assert_eq!(get_path("/").expect("the root directory always resolves"), "/");
}

#[test]
fn resolving_a_missing_path_names_it() {
    let missing = "/this-path-is-not-expected-to-exist-anywhere/at-all";
    match get_path(missing) {
        Err(SyncError::PathResolution { path }) => assert_eq!(path, missing),
        other => panic!("expected a path-resolution failure, got {other:?}"),
    }
}

#[test]
fn directory_check_accepts_the_root() {
    assert!(check_dir("/").is_ok());
    assert!(get_dir("/").is_ok());
}

#[test]
fn directory_check_rejects_a_missing_path() {
    let missing = "/this-path-is-not-expected-to-exist-anywhere/at-all";
    match check_dir(missing) {
        Err(SyncError::NotADirectory { path }) => assert_eq!(path, missing),
        other => panic!("expected a not-a-directory failure, got {other:?}"),
    }
    match get_dir(missing) {
        Err(SyncError::PathResolution { path }) => assert_eq!(path, missing),
        other => panic!("expected a path-resolution failure, got {other:?}"),
    }
}

#[test]
fn directory_verdict_follows_the_probe() {
    assert!(dir_check(true, "/anywhere").is_ok());
    match dir_check(false, "/somewhere") {
        Err(SyncError::NotADirectory { path }) => assert_eq!(path, "/somewhere"),
        other => panic!("expected a not-a-directory failure, got {other:?}"),
    }
}

#[test]
fn every_error_kind_carries_its_path() {
    let errors = vec![
        SyncError::PathResolution {
            path: "/a".to_string(),
        },
        SyncError::NotADirectory {
            path: "/b".to_string(),
        },
        SyncError::Reconciliation {
            path: "/c".to_string(),
            detail: "no space left".to_string(),
        },
        SyncError::WatchSetup {
            path: "/d".to_string(),
            detail: "too many watches".to_string(),
        },
    ];
    let mut paths = Vec::new();
    for e in &errors {
        match e {
            SyncError::PathResolution { path } => paths.push(path.clone()),
            SyncError::NotADirectory { path } => paths.push(path.clone()),
            SyncError::Reconciliation { path, .. } => paths.push(path.clone()),
            SyncError::WatchSetup { path, .. } => paths.push(path.clone()),
        }
    }
    assert_eq!(paths, vec!["/a", "/b", "/c", "/d"]);
}
