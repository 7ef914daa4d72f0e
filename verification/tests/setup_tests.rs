use passop::paths::SetupFiles;
use passop::setup::{
    dependency_missing, setup_accepts, setup_advance, setup_start, sops_config_yaml, SetupEvent,
    SetupNote, SetupRequest, SetupStage, SetupStep,
};

fn files() -> SetupFiles {
    SetupFiles::for_home(&Some("/home/u".to_string()))
}

fn go(f: &SetupFiles, st: SetupStep, ev: SetupEvent) -> SetupStep {
    assert!(setup_accepts(&st.stage, &ev));
    setup_advance(f, false, st.stage, ev)
}

fn failed_with(st: &SetupStep) -> Option<String> {
    match &st.request {
        SetupRequest::Finish(Err(e)) => Some(e.clone()),
        _ => None,
    }
}

#[test]
fn sops_config_names_the_key() {
    assert_eq!(
        sops_config_yaml("age1xyz"),
        "creation_rules:\n  - path_regex: .*\\.enc\\.yaml$\n    age: \"age1xyz\"\n"
    );
}

#[test]
fn missing_dependency_message() {
    assert_eq!(
        dependency_missing("sops", "Please install SOPS: https://github.com/getsops/sops"),
        "Dependency missing: 'sops' was not found in your PATH.\nPlease install SOPS: https://github.com/getsops/sops"
    );
}

#[test]
fn setup_files_under_home_and_without_home() {
    let f = files();
    assert_eq!(f.passop_dir, "/home/u/.config/passop");
    assert_eq!(f.age_dir, "/home/u/.config/sops/age");
    assert_eq!(f.key_file, "/home/u/.config/sops/age/keys.txt");
    assert_eq!(f.config_file, "/home/u/.config/passop/.sops.yaml");
    assert_eq!(f.secrets_file, "/home/u/.config/passop/secrets.enc.yaml");
    let g = SetupFiles::for_home(&None);
    assert_eq!(g.passop_dir, "./.config/passop");
    assert_eq!(g.key_file, "./.config/sops/age/keys.txt");
}

#[test]
fn fresh_setup_creates_everything() {
    let f = files();
    let st = setup_start(false);
    assert!(matches!(st.notes.as_slice(), [SetupNote::Welcome]));
    match &st.request {
        SetupRequest::CheckDependency { probe, program } => {
            assert_eq!(probe, "which");
            assert_eq!(program, "sops");
        }
        _ => panic!("expected a dependency check"),
    }
    let st = go(&f, st, SetupEvent::Found(true));
    match &st.request {
        SetupRequest::CheckDependency { program, .. } => assert_eq!(program, "age-keygen"),
        _ => panic!("expected a dependency check"),
    }
    let st = go(&f, st, SetupEvent::Found(true));
    match &st.request {
        SetupRequest::CreateDirs { dirs } => {
            assert_eq!(dirs, &vec![f.passop_dir.clone(), f.age_dir.clone()])
        }
        _ => panic!("expected directories"),
    }
    let st = go(&f, st, SetupEvent::Done);
    match &st.request {
        SetupRequest::PathExists { path } => assert_eq!(path, &f.key_file),
        _ => panic!("expected a key check"),
    }
    let st = go(&f, st, SetupEvent::Found(false));
    assert!(matches!(st.notes.as_slice(), [SetupNote::GeneratingKey]));
    match &st.request {
        SetupRequest::RunKeygen { args } => assert_eq!(args, &vec!["-o".to_string(), f.key_file.clone()]),
        _ => panic!("expected key generation"),
    }
    let st = go(&f, st, SetupEvent::Ran { success: true, stderr: vec![] });
    assert!(matches!(st.request, SetupRequest::ReadFile { .. }));
    let st = go(&f, st, SetupEvent::Read("# public key: age1k\nAGE-SECRET-KEY-1\n".to_string()));
    match &st.request {
        SetupRequest::SetEnv { name, value } => {
            assert_eq!(name, "SOPS_AGE_KEY_FILE");
            assert_eq!(value, &f.key_file);
        }
        _ => panic!("expected the environment to be set"),
    }
    let st = go(&f, st, SetupEvent::Done);
    match &st.request {
        SetupRequest::PathExists { path } => assert_eq!(path, &f.config_file),
        _ => panic!("expected a config check"),
    }
    let st = go(&f, st, SetupEvent::Found(false));
    assert!(matches!(st.notes.as_slice(), [SetupNote::CreatingConfig]));
    match &st.request {
        SetupRequest::WriteFile { path, contents } => {
            assert_eq!(path, &f.config_file);
            assert_eq!(contents, &sops_config_yaml("age1k"));
        }
        _ => panic!("expected the config to be written"),
    }
    let st = go(&f, st, SetupEvent::Done);
    match &st.request {
        SetupRequest::PathExists { path } => assert_eq!(path, &f.secrets_file),
        _ => panic!("expected a vault check"),
    }
    let st = go(&f, st, SetupEvent::Found(false));
    assert!(matches!(st.notes.as_slice(), [SetupNote::InitializingVault]));
    match &st.request {
        SetupRequest::EncryptVault { args, input } => {
            assert_eq!(input, "{}");
            assert_eq!(args[0], "--encrypt");
            assert_eq!(args[2], f.config_file);
            assert_eq!(args[8], f.secrets_file);
            assert_eq!(args.len(), 10);
        }
        _ => panic!("expected the vault to be encrypted"),
    }
    let st = go(&f, st, SetupEvent::Ran { success: true, stderr: vec![] });
    match &st.request {
        SetupRequest::WriteEncryptedVault { path } => assert_eq!(path, &f.secrets_file),
        _ => panic!("expected the vault to be written"),
    }
    let st = go(&f, st, SetupEvent::Done);
    assert!(matches!(st.stage, SetupStage::Finished));
    assert!(matches!(st.request, SetupRequest::Finish(Ok(()))));
    match st.notes.as_slice() {
        [SetupNote::Ready { vault, key }] => {
            assert_eq!(vault, &f.secrets_file);
            assert_eq!(key, &f.key_file);
        }
        _ => panic!("expected the ready note"),
    }
}

#[test]
fn existing_files_are_kept() {
    let f = files();
    let st = setup_start(true);
    match &st.request {
        SetupRequest::CheckDependency { probe, .. } => assert_eq!(probe, "where"),
        _ => panic!("expected a dependency check"),
    }
    let st = go(&f, st, SetupEvent::Found(true));
    let st = go(&f, st, SetupEvent::Found(true));
    let st = go(&f, st, SetupEvent::Done);
    let st = go(&f, st, SetupEvent::Found(true));
    assert!(matches!(st.notes.as_slice(), [SetupNote::ExistingKey]));
    assert!(matches!(st.request, SetupRequest::ReadFile { .. }));
    let st = go(&f, st, SetupEvent::Read("# public key: age1k\n".to_string()));
    let st = go(&f, st, SetupEvent::Done);
    let st = go(&f, st, SetupEvent::Found(true));
    assert!(st.notes.is_empty());
    assert!(matches!(st.request, SetupRequest::PathExists { .. }));
    let st = go(&f, st, SetupEvent::Found(true));
    assert!(matches!(st.request, SetupRequest::Finish(Ok(()))));
}

#[test]
fn missing_sops_stops_setup() {
    let f = files();
    let st = go(&f, setup_start(false), SetupEvent::Found(false));
    assert_eq!(
        failed_with(&st),
        Some("Dependency missing: 'sops' was not found in your PATH.\nPlease install SOPS: https://github.com/getsops/sops".to_string())
    );
}

#[test]
fn missing_age_stops_setup() {
    let f = files();
    let st = go(&f, setup_start(false), SetupEvent::Found(true));
    let st = go(&f, st, SetupEvent::Found(false));
    assert_eq!(
        failed_with(&st),
        Some("Dependency missing: 'age-keygen' was not found in your PATH.\nPlease install age: https://github.com/FiloSottile/age".to_string())
    );
}

fn at_key_check(f: &SetupFiles) -> SetupStep {
    let st = go(f, setup_start(false), SetupEvent::Found(true));
    let st = go(f, st, SetupEvent::Found(true));
    go(f, st, SetupEvent::Done)
}

#[test]
fn failed_keygen_stops_setup() {
    let f = files();
    let st = go(&f, at_key_check(&f), SetupEvent::Found(false));
    let st = go(&f, st, SetupEvent::Ran { success: false, stderr: b"oops".to_vec() });
    assert_eq!(failed_with(&st), Some("Failed to execute age-keygen. Is it installed?".to_string()));
}

#[test]
fn key_file_without_public_key_stops_setup() {
    let f = files();
    let st = go(&f, at_key_check(&f), SetupEvent::Found(true));
    let st = go(&f, st, SetupEvent::Read("AGE-SECRET-KEY-1\n".to_string()));
    assert_eq!(failed_with(&st), Some("Could not find public key in keys.txt".to_string()));
}

#[test]
fn failed_vault_encryption_stops_setup() {
    let f = files();
    let st = go(&f, at_key_check(&f), SetupEvent::Found(true));
    let st = go(&f, st, SetupEvent::Read("# public key: k\n".to_string()));
    let st = go(&f, st, SetupEvent::Done);
    let st = go(&f, st, SetupEvent::Found(true));
    let st = go(&f, st, SetupEvent::Found(false));
    let st = go(&f, st, SetupEvent::Ran { success: false, stderr: b"no key".to_vec() });
    assert_eq!(failed_with(&st), Some("SOPS failed to encrypt the database: no key".to_string()));
}

#[test]
fn setup_refuses_answers_that_do_not_fit() {
    let st = setup_start(false);
    assert!(!setup_accepts(&st.stage, &SetupEvent::Done));
    assert!(setup_accepts(&st.stage, &SetupEvent::Found(false)));
}
