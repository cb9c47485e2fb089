use kybe_config::{Config, ConfigError, DocProbe, FolderProbe, LoadProbe};

fn empty_dir_probe() -> LoadProbe {
    LoadProbe {
        folder: FolderProbe::Missing,
        user: DocProbe::Missing,
        generated: DocProbe::Missing,
    }
}

/// Loads against an empty directory and returns the configuration together
/// with the two texts the load asked to be written.
fn bootstrap() -> (Config, String, String) {
    let outcome = Config::load("/cfg".to_string(), empty_dir_probe()).unwrap();
    let user_text = outcome.write_user.unwrap();
    let generated_text = outcome.write_generated.unwrap();
    (outcome.config, user_text, generated_text)
}

#[test]
fn create_default_config_if_missing() {
    let outcome = Config::load("/cfg".to_string(), empty_dir_probe()).unwrap();
    assert!(outcome.write_user.is_some());
    assert_eq!(outcome.config.user_file, "/cfg/config.toml");
}

#[test]
fn save_and_reload_roundtrip() {
    let (mut cfg, user_text, _generated_text) = bootstrap();
    let req = cfg.save();
    let original = cfg.clone();
    cfg.reload(DocProbe::Content(user_text), DocProbe::Content(req.contents))
        .unwrap();
    assert_eq!(cfg, original);
}

#[test]
fn reload_fails_if_file_missing() {
    let (mut cfg, user_text, _generated_text) = bootstrap();
    let before = cfg.clone();
    let r = cfg.reload(DocProbe::Content(user_text), DocProbe::Missing);
    assert!(r.is_err());
    assert_eq!(cfg, before);
}

#[test]
fn invalid_toml_fails() {
    let probe = LoadProbe {
        folder: FolderProbe::IsDir,
        user: DocProbe::Content("not = valid = toml".to_string()),
        generated: DocProbe::Missing,
    };
    let err = Config::load("/cfg".to_string(), probe).unwrap_err();
    assert_eq!(err, ConfigError::Parse);
}

#[test]
fn creates_config_folder_if_missing() {
    let outcome = Config::load("/cfg".to_string(), empty_dir_probe()).unwrap();
    assert!(outcome.create_folder);
    let probe = LoadProbe {
        folder: FolderProbe::IsDir,
        user: DocProbe::Missing,
        generated: DocProbe::Missing,
    };
    let outcome2 = Config::load("/cfg".to_string(), probe).unwrap();
    assert!(!outcome2.create_folder);
}

#[test]
fn creates_user_and_generated_configs_if_missing() {
    let outcome = Config::load("/cfg".to_string(), empty_dir_probe()).unwrap();
    assert!(outcome.write_user.is_some());
    assert!(outcome.write_generated.is_some());
    assert_eq!(outcome.config.user_file, "/cfg/config.toml");
    assert_eq!(outcome.config.generated_file, "/cfg/generated.toml");
}

#[test]
fn rejects_config_path_that_is_a_file() {
    let probe = LoadProbe {
        folder: FolderProbe::IsFile,
        user: DocProbe::Missing,
        generated: DocProbe::Missing,
    };
    let err = Config::load("/cfg/fake".to_string(), probe);
    assert!(err.is_err())
}

#[test]
fn loads_existing_config_files() {
    let (_cfg, user_text, generated_text) = bootstrap();
    let probe = LoadProbe {
        folder: FolderProbe::IsDir,
        user: DocProbe::Content(user_text),
        generated: DocProbe::Content(generated_text),
    };
    let outcome = Config::load("/cfg".to_string(), probe).unwrap();
    assert!(outcome.write_user.is_none());
    assert!(outcome.write_generated.is_none());
}

#[test]
fn rejects_user_config_path_that_is_directory() {
    let probe = LoadProbe {
        folder: FolderProbe::IsDir,
        user: DocProbe::IsDir,
        generated: DocProbe::Missing,
    };
    let err = Config::load("/cfg".to_string(), probe);
    assert!(err.is_err());
}

#[test]
fn rejects_generated_config_path_that_is_directory() {
    let probe = LoadProbe {
        folder: FolderProbe::IsDir,
        user: DocProbe::Missing,
        generated: DocProbe::IsDir,
    };
    let err = Config::load("/cfg".to_string(), probe);
    assert!(err.is_err());
}

#[test]
fn rejects_invalid_user_config_toml() {
    let probe = LoadProbe {
        folder: FolderProbe::IsDir,
        user: DocProbe::Content("this = = invalid".to_string()),
        generated: DocProbe::Missing,
    };
    let err = Config::load("/cfg".to_string(), probe);
    assert!(err.is_err());
}

#[test]
fn rejects_invalid_generated_config_toml() {
    let (_cfg, user_text, _generated_text) = bootstrap();
    let probe = LoadProbe {
        folder: FolderProbe::IsDir,
        user: DocProbe::Content(user_text),
        generated: DocProbe::Content("not = toml = {".to_string()),
    };
    let err = Config::load("/cfg".to_string(), probe);
    assert!(err.is_err());
}

#[test]
fn save_writes_generated_config_to_disk() {
    let (mut cfg, user_text, _generated_text) = bootstrap();
    let original = cfg.save().contents;
    cfg.set_last_launch(1_700_000_000);
    let updated = cfg.save().contents;
    assert_ne!(
        original, updated,
        "generated config should differ after mutation"
    );
    let mut reread = cfg.clone();
    reread
        .reload(DocProbe::Content(user_text), DocProbe::Content(updated))
        .expect("failed to read generated config");
    assert_eq!(reread, cfg);
}
