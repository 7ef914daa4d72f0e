use passop::backend::vault_if_absent;
use passop::paths::{setup_complete_from, setup_complete_with, SetupFiles};
use passop::cli::{plan, Command, Plan};
use passop::paths::{join_path, passop_dir_for, age_key_dir_for};
use passop::password::generate_password;
use passop::session::Kind;
use passop::two_factor::{leaves_enrolment, KeyRead, enrolment_qr, enrolment_url, otpauth_url, qr_text, secret_key};

#[test]
fn path_joining() {
    assert_eq!(join_path("/home/u", ".config/passop"), "/home/u/.config/passop");
    assert_eq!(join_path("/home/u/", ".config/passop"), "/home/u/.config/passop");
    assert_eq!(join_path("", "x"), "x");
    assert_eq!(passop_dir_for(&None), "./.config/passop");
    assert_eq!(age_key_dir_for(&Some("/r".to_string())), "/r/.config/sops/age");
}

#[test]
fn generated_password_is_twenty_alphanumerics() {
    let p = generate_password();
    assert_eq!(p.chars().count(), 20);
    assert!(p.chars().all(|c| c.is_ascii_alphanumeric()));
    let q = generate_password();
    assert_ne!(p, q);
}

#[test]
fn enrolment_url_is_exact() {
    assert_eq!(
        enrolment_url(),
        "otpauth://totp/PASSop:user@domain.com?secret=JBSWY3DPEHPK3PXP&issuer=PASSop"
    );
    assert_eq!(otpauth_url("I", "a@b", "S"), "otpauth://totp/I:a@b?secret=S&issuer=I");
    assert_eq!(secret_key(), "JBSWY3DPEHPK3PXP");
}

#[test]
fn enrolment_qr_is_drawn() {
    let qr = enrolment_qr().unwrap();
    assert!(qr.lines().count() > 10);
    assert!(qr.chars().any(|c| c == '█' || c == '▀' || c == '▄'));
    assert_ne!(qr, enrolment_url());
}

#[test]
fn too_long_data_has_no_qr() {
    let long = "x".repeat(10000);
    assert!(qr_text(&long).is_none());
    assert!(qr_text("hello").is_some());
}

#[test]
fn plans() {
    assert!(matches!(plan(false, None, None), Plan::AutoSetup));
    assert!(matches!(plan(false, Some(Command::TwoFactor), None), Plan::AutoSetup));
    assert!(matches!(plan(false, Some(Command::Setup), None), Plan::Setup));
    assert!(matches!(plan(true, Some(Command::Setup), None), Plan::Setup));
    assert!(matches!(plan(true, Some(Command::TwoFactor), None), Plan::TwoFactor));
    match plan(true, None, Some("x".to_string())) {
        Plan::Session { kind: Kind::Call, name } => assert_eq!(name, Some("x".to_string())),
        _ => panic!("expected a call session"),
    }
    match plan(true, Some(Command::Add { name: "n".to_string() }), Some("ignored".to_string())) {
        Plan::Session { kind: Kind::Add, name } => assert_eq!(name, Some("n".to_string())),
        _ => panic!("expected an add session"),
    }
    match plan(true, Some(Command::Remove { name: None }), None) {
        Plan::Session { kind: Kind::Remove, name } => assert_eq!(name, None),
        _ => panic!("expected a remove session"),
    }
    match plan(true, Some(Command::Edit { name: Some("e".to_string()) }), None) {
        Plan::Session { kind: Kind::Edit, name } => assert_eq!(name, Some("e".to_string())),
        _ => panic!("expected an edit session"),
    }
}

#[test]
fn qr_text_is_the_render_of_the_url() {
    let url = enrolment_url();
    assert_eq!(enrolment_qr(), qr_text(&url));
    assert_ne!(qr_text("a"), qr_text("b"));
}

#[test]
fn setup_completion() {
    let f = SetupFiles::for_home(&Some("/home/u".to_string()));
    assert_eq!(
        f.completion_paths(),
        vec![
            "/home/u/.config/sops/age/keys.txt".to_string(),
            "/home/u/.config/passop/secrets.enc.yaml".to_string(),
            "/home/u/.config/passop/.sops.yaml".to_string(),
        ]
    );
    assert!(setup_complete_from(true, true, true));
    assert!(!setup_complete_from(true, true, false));
    assert!(!setup_complete_from(false, true, true));
    assert!(setup_complete_with(&f, |_p: &String| true));
    assert!(!setup_complete_with(&f, |p: &String| !p.ends_with(".sops.yaml")));
    assert!(!setup_complete_with(&f, |p: &String| !p.ends_with("keys.txt")));
}

#[test]
fn missing_vault_file_reads_as_empty() {
    assert!(vault_if_absent(false).unwrap().is_empty());
    assert!(vault_if_absent(true).is_none());
}

#[test]
fn only_escape_leaves_the_enrolment_screen() {
    assert!(leaves_enrolment(&KeyRead::Escape));
    assert!(!leaves_enrolment(&KeyRead::Other));
    assert!(!leaves_enrolment(&KeyRead::Failed));
}
