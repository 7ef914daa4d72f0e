use passop::backend::{encryption_outcome, secrets_from_decryption, sops_encrypt_args, vault_yaml, SopsBackend, VaultError};
use passop::vault::Vault;

fn s(x: &str) -> String {
    x.to_string()
}

#[test]
fn backend_paths() {
    let b = SopsBackend::in_home("/home/u");
    assert_eq!(b.dir(), "/home/u/.config/passop");
    assert_eq!(b.db_path(), "/home/u/.config/passop/secrets.enc.yaml");
    assert_eq!(b.config_path(), "/home/u/.config/passop/.sops.yaml");
    let c = SopsBackend::in_home("/home/u/");
    assert_eq!(c.db_path(), "/home/u/.config/passop/secrets.enc.yaml");
}

#[test]
fn sops_arguments() {
    let b = SopsBackend::in_home("/h");
    assert_eq!(
        b.decrypt_args(),
        vec![s("--decrypt"), s("--config"), s("/h/.config/passop/.sops.yaml"), s("/h/.config/passop/secrets.enc.yaml")]
    );
    assert_eq!(
        b.encrypt_args(),
        vec![
            s("--encrypt"), s("--config"), s("/h/.config/passop/.sops.yaml"), s("--input-type"), s("yaml"),
            s("--output-type"), s("yaml"), s("--filename-override"), s("/h/.config/passop/secrets.enc.yaml"), s("/dev/stdin"),
        ]
    );
    assert_eq!(b.encrypt_args(), sops_encrypt_args("/h/.config/passop/.sops.yaml", "/h/.config/passop/secrets.enc.yaml"));
}

#[test]
fn decrypted_yaml_becomes_the_vault() {
    let v = secrets_from_decryption(true, b"github: hunter2\nmail: 'p: w'\n", b"").ok().unwrap();
    assert_eq!(v.len(), 2);
    assert_eq!(v.get(&s("github")), Some(&s("hunter2")));
    assert_eq!(v.get(&s("mail")), Some(&s("p: w")));
}

#[test]
fn empty_yaml_map() {
    let v = secrets_from_decryption(true, b"{}", b"").ok().unwrap();
    assert!(v.is_empty());
}

#[test]
fn failed_decryption_reports_stderr() {
    match secrets_from_decryption(false, b"github: x\n", b"could not decrypt") {
        Err(e) => {
            assert!(matches!(e, VaultError::DecryptionFailed { .. }));
            assert_eq!(e.message(), "SOPS decryption failed: could not decrypt");
        }
        Ok(_) => panic!("expected an error"),
    }
}

#[test]
fn yaml_that_is_not_a_map_is_refused() {
    match secrets_from_decryption(true, b"- a\n- b\n", b"") {
        Err(e) => assert!(matches!(e, VaultError::Format { .. })),
        Ok(_) => panic!("expected an error"),
    }
}

#[test]
fn written_yaml_reads_back() {
    let mut v = Vault::new();
    v.insert(s("github"), s("hunter2"));
    v.insert(s("odd: name"), s("with 'quotes' and #hash"));
    let text = vault_yaml(&v).ok().unwrap();
    assert!(text.contains("github"));
    let back = secrets_from_decryption(true, text.as_bytes(), b"").ok().unwrap();
    assert_eq!(back.len(), 2);
    assert_eq!(back.get(&s("github")), Some(&s("hunter2")));
    assert_eq!(back.get(&s("odd: name")), Some(&s("with 'quotes' and #hash")));
}

#[test]
fn encryption_outcomes() {
    assert!(encryption_outcome(true, b"ignored").is_ok());
    match encryption_outcome(false, b"bad \xff bytes") {
        Err(e) => assert_eq!(e.message(), "SOPS encryption failed: bad \u{fffd} bytes"),
        Ok(_) => panic!("expected an error"),
    }
}

#[test]
fn error_messages() {
    assert_eq!(VaultError::Io { detail: s("disk") }.message(), "disk");
    assert_eq!(VaultError::Format { detail: s("bad yaml") }.message(), "bad yaml");
    assert_eq!(VaultError::EncryptionFailed { stderr: s("e") }.message(), "SOPS encryption failed: e");
}
