use kybe_config::{
    resolve_folder, Config, ConfigError, DocProbe, FolderProbe, LoadProbe, DEFAULT_TIMEOUT_SECS,
};

fn dir_probe(user: DocProbe, generated: DocProbe) -> LoadProbe {
    LoadProbe {
        folder: FolderProbe::IsDir,
        user,
        generated,
    }
}

#[test]
fn bootstrap_yields_documented_defaults() {
    let probe = LoadProbe {
        folder: FolderProbe::Missing,
        user: DocProbe::Missing,
        generated: DocProbe::Missing,
    };
    let outcome = Config::load("/cfg".to_string(), probe).unwrap();
    assert_eq!(outcome.config.user.api.base_url, "https://kybe.xyz");
    assert_eq!(outcome.config.user.api.timeout_secs, 5);
    assert_eq!(outcome.config.generated.last_launch, None);
    assert_eq!(outcome.config.config_folder, "/cfg");
}

#[test]
fn partial_user_doc_takes_default_timeout() {
    let text = "[api]\nbase_url = \"https://example.test\"\n".to_string();
    let probe = dir_probe(DocProbe::Content(text), DocProbe::Missing);
    let outcome = Config::load("/cfg".to_string(), probe).unwrap();
    assert_eq!(outcome.config.user.api.base_url, "https://example.test");
    assert_eq!(outcome.config.user.api.timeout_secs, DEFAULT_TIMEOUT_SECS);
}

#[test]
fn unknown_keys_are_ignored() {
    let text = "stray = \"value\"\n[api]\ntimeout_secs = 9\nextra = 1\n[other]\nx = 2\n".to_string();
    let probe = dir_probe(DocProbe::Content(text), DocProbe::Missing);
    let outcome = Config::load("/cfg".to_string(), probe).unwrap();
    assert_eq!(outcome.config.user.api.timeout_secs, 9);
    assert_eq!(outcome.config.user.api.base_url, "https://kybe.xyz");
}

#[test]
fn negative_timeout_is_rejected() {
    let text = "[api]\ntimeout_secs = -3\n".to_string();
    let probe = dir_probe(DocProbe::Content(text), DocProbe::Missing);
    let err = Config::load("/cfg".to_string(), probe).unwrap_err();
    assert_eq!(err, ConfigError::Parse);
}

#[test]
fn wrong_type_base_url_is_rejected() {
    let text = "[api]\nbase_url = 17\n".to_string();
    let probe = dir_probe(DocProbe::Content(text), DocProbe::Missing);
    let err = Config::load("/cfg".to_string(), probe).unwrap_err();
    assert_eq!(err, ConfigError::Parse);
}

#[test]
fn wrong_type_api_section_is_rejected() {
    let text = "api = \"not a table\"\n".to_string();
    let probe = dir_probe(DocProbe::Content(text), DocProbe::Missing);
    let err = Config::load("/cfg".to_string(), probe).unwrap_err();
    assert_eq!(err, ConfigError::Parse);
}

#[test]
fn unreadable_user_file_is_io_error() {
    let probe = dir_probe(DocProbe::ReadFailed, DocProbe::Missing);
    let err = Config::load("/cfg".to_string(), probe).unwrap_err();
    assert_eq!(err, ConfigError::Io);
}

#[test]
fn folder_held_by_file_is_conflict_error() {
    let probe = LoadProbe {
        folder: FolderProbe::IsFile,
        user: DocProbe::Missing,
        generated: DocProbe::Missing,
    };
    let err = Config::load("/cfg".to_string(), probe).unwrap_err();
    assert_eq!(err, ConfigError::Conflict);
}

#[test]
fn user_document_error_wins_over_generated() {
    let probe = dir_probe(DocProbe::IsDir, DocProbe::ReadFailed);
    let err = Config::load("/cfg".to_string(), probe).unwrap_err();
    assert_eq!(err, ConfigError::Conflict);
}

#[test]
fn stored_timestamp_is_read_back() {
    let text = "last_launch = 7\n".to_string();
    let probe = dir_probe(DocProbe::Missing, DocProbe::Content(text));
    let outcome = Config::load("/cfg".to_string(), probe).unwrap();
    assert_eq!(outcome.config.generated.last_launch, Some(7));
}

#[test]
fn wrong_type_last_launch_is_rejected() {
    let text = "last_launch = \"yesterday\"\n".to_string();
    let probe = dir_probe(DocProbe::Missing, DocProbe::Content(text));
    let err = Config::load("/cfg".to_string(), probe).unwrap_err();
    assert_eq!(err, ConfigError::Parse);
}

#[test]
fn save_carries_the_stamped_launch() {
    let probe = LoadProbe {
        folder: FolderProbe::Missing,
        user: DocProbe::Missing,
        generated: DocProbe::Missing,
    };
    let outcome = Config::load("/cfg".to_string(), probe).unwrap();
    let mut cfg = outcome.config;
    cfg.set_last_launch(1_234_567);
    let req = cfg.save();
    assert_eq!(req.path, "/cfg/generated.toml");
    assert_eq!(req.contents, "last_launch = 1234567\n");
}

#[test]
fn reload_discards_unsaved_changes() {
    let probe = LoadProbe {
        folder: FolderProbe::Missing,
        user: DocProbe::Missing,
        generated: DocProbe::Missing,
    };
    let outcome = Config::load("/cfg".to_string(), probe).unwrap();
    let mut cfg = outcome.config;
    let user_text = outcome.write_user.unwrap();
    let generated_text = outcome.write_generated.unwrap();
    cfg.set_last_launch(42);
    cfg.reload(
        DocProbe::Content(user_text),
        DocProbe::Content(generated_text),
    )
    .unwrap();
    assert_eq!(cfg.generated.last_launch, None);
}

#[test]
fn resolve_folder_override_wins() {
    let r = resolve_folder(Some("/somewhere/else".to_string()));
    assert_eq!(r.unwrap(), "/somewhere/else");
}

#[test]
fn stamp_launch_records_a_time() {
    let probe = LoadProbe {
        folder: FolderProbe::Missing,
        user: DocProbe::Missing,
        generated: DocProbe::Missing,
    };
    let outcome = Config::load("/cfg".to_string(), probe).unwrap();
    let mut cfg = outcome.config;
    assert_eq!(cfg.generated.last_launch, None);
    cfg.stamp_launch();
    assert!(cfg.generated.last_launch.is_some());
}
