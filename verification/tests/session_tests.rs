use passop::backend::VaultError;
use passop::session::{accepts, advance, start, Event, Kind, Line, Request, Stage, Step};
use passop::vault::Vault;

fn s(x: &str) -> String {
    x.to_string()
}

fn out(step: &Step) -> Vec<String> {
    step.lines
        .iter()
        .map(|l| match l {
            Line::Stdout(t) => format!("out:{}", t),
            Line::Stderr(t) => format!("err:{}", t),
        })
        .collect()
}

fn vault_of(pairs: &[(&str, &str)]) -> Vault {
    Vault::from_pairs(pairs.iter().map(|(a, b)| (s(a), s(b))).collect())
}

fn step(prev: Step, event: Event) -> Step {
    assert!(accepts(&prev.stage, &event));
    advance(prev.stage, event)
}

fn is_finish(step: &Step) -> bool {
    matches!(step.request, Request::Finish) && matches!(step.stage, Stage::Finished)
}

#[test]
fn a_session_first_loads_the_vault() {
    let st = start(Kind::Call, None);
    assert!(matches!(st.request, Request::LoadVault));
    assert!(st.lines.is_empty());
}

#[test]
fn call_on_empty_vault_says_so() {
    let st = start(Kind::Call, Some(s("github")));
    let st = step(st, Event::Loaded(Ok(Vault::new())));
    assert!(is_finish(&st));
    assert_eq!(out(&st), vec![s("out:Your password vault is currently empty.")]);
}

#[test]
fn unreadable_vault_counts_as_empty() {
    for kind in [Kind::Call, Kind::Remove, Kind::Edit] {
        let st = start(kind, None);
        let st = step(st, Event::Loaded(Err(VaultError::Io { detail: s("no such file") })));
        assert!(is_finish(&st));
        assert_eq!(out(&st), vec![s("out:Your password vault is currently empty.")]);
    }
}

#[test]
fn call_by_name_shows_the_password() {
    let st = start(Kind::Call, Some(s("github")));
    let st = step(st, Event::Loaded(Ok(vault_of(&[("github", "hunter2")]))));
    assert!(is_finish(&st));
    assert_eq!(out(&st), vec![s("out:\n🔑 \x1b[1mgithub\x1b[0m: \x1b[36mhunter2\x1b[0m")]);
}

#[test]
fn call_by_unknown_name_says_not_found() {
    let st = start(Kind::Call, Some(s("gitlab")));
    let st = step(st, Event::Loaded(Ok(vault_of(&[("github", "hunter2")]))));
    assert!(is_finish(&st));
    assert_eq!(out(&st), vec![s("out:\x1b[31mNo entry found for 'gitlab'.\x1b[0m")]);
}

#[test]
fn call_without_name_offers_the_names() {
    let st = start(Kind::Call, None);
    let st = step(st, Event::Loaded(Ok(vault_of(&[("a", "1"), ("b", "2")]))));
    match &st.request {
        Request::Select { prompt, items } => {
            assert_eq!(prompt, "Search for a password");
            assert_eq!(items, &vec![s("a"), s("b")]);
        }
        _ => panic!("expected a selection"),
    }
    let st = step(st, Event::Selected(Some(1)));
    assert!(is_finish(&st));
    assert_eq!(out(&st), vec![s("out:\n🔑 \x1b[1mb\x1b[0m: \x1b[36m2\x1b[0m")]);
}

#[test]
fn abandoned_selection_ends_quietly() {
    let st = start(Kind::Remove, None);
    let st = step(st, Event::Loaded(Ok(vault_of(&[("a", "1")]))));
    match &st.request {
        Request::Select { prompt, .. } => assert_eq!(prompt, "Select password to remove"),
        _ => panic!("expected a selection"),
    }
    let st = step(st, Event::Selected(None));
    assert!(is_finish(&st));
    assert!(st.lines.is_empty());
}

#[test]
fn add_with_generated_password() {
    let st = start(Kind::Add, Some(s("mail")));
    let st = step(st, Event::Loaded(Ok(Vault::new())));
    match &st.request {
        Request::Confirm { prompt, default_yes } => {
            assert_eq!(prompt, "Generate password?");
            assert!(*default_yes);
        }
        _ => panic!("expected a confirmation"),
    }
    let st = step(st, Event::Answered(true));
    assert!(matches!(st.request, Request::GeneratePassword));
    let st = step(st, Event::Generated(s("Abc123")));
    assert_eq!(out(&st), vec![s("out:\nGenerated password: \x1b[33mAbc123\x1b[0m")]);
    match &st.request {
        Request::Save(v) => {
            assert_eq!(v.get(&s("mail")), Some(&s("Abc123")));
            assert_eq!(v.len(), 1);
        }
        _ => panic!("expected a save"),
    }
    let st = step(st, Event::Saved(Ok(())));
    assert!(is_finish(&st));
    assert_eq!(out(&st), vec![s("out:\x1b[32m✔ Password for 'mail' was saved successfully!\x1b[0m")]);
}

#[test]
fn add_with_typed_password_into_non_empty_vault() {
    let st = start(Kind::Add, Some(s("mail")));
    let st = step(st, Event::Loaded(Ok(vault_of(&[("bank", "x"), ("mail", "old")]))));
    let st = step(st, Event::Answered(false));
    match &st.request {
        Request::AskPassword { prompt } => assert_eq!(prompt, "Enter password"),
        _ => panic!("expected a password prompt"),
    }
    let st = step(st, Event::Entered(s("typed")));
    assert!(st.lines.is_empty());
    match &st.request {
        Request::Save(v) => {
            assert_eq!(v.get(&s("mail")), Some(&s("typed")));
            assert_eq!(v.get(&s("bank")), Some(&s("x")));
            assert_eq!(v.keys(), vec![s("bank"), s("mail")]);
        }
        _ => panic!("expected a save"),
    }
    let st = step(st, Event::Saved(Err(VaultError::EncryptionFailed { stderr: s("boom") })));
    assert!(is_finish(&st));
    assert_eq!(out(&st), vec![s("err:Error saving secrets to SOPS: SOPS encryption failed: boom")]);
}

#[test]
fn remove_after_confirmation() {
    let st = start(Kind::Remove, Some(s("a")));
    let st = step(st, Event::Loaded(Ok(vault_of(&[("a", "1"), ("b", "2")]))));
    match &st.request {
        Request::Confirm { prompt, default_yes } => {
            assert_eq!(prompt, "Are you sure you want to remove your password for a?");
            assert!(!*default_yes);
        }
        _ => panic!("expected a confirmation"),
    }
    let st = step(st, Event::Answered(true));
    match &st.request {
        Request::Save(v) => {
            assert!(!v.contains_key(&s("a")));
            assert_eq!(v.keys(), vec![s("b")]);
        }
        _ => panic!("expected a save"),
    }
    let st = step(st, Event::Saved(Ok(())));
    assert_eq!(out(&st), vec![s("out:\x1b[32mPassword for 'a' has been removed.\x1b[0m")]);
}

#[test]
fn remove_declined_is_canceled() {
    let st = start(Kind::Remove, Some(s("a")));
    let st = step(st, Event::Loaded(Ok(vault_of(&[("a", "1")]))));
    let st = step(st, Event::Answered(false));
    assert!(is_finish(&st));
    assert_eq!(out(&st), vec![s("out:Canceled.")]);
}

#[test]
fn remove_of_unknown_name_says_not_found() {
    let st = start(Kind::Remove, Some(s("zz")));
    let st = step(st, Event::Loaded(Ok(vault_of(&[("a", "1")]))));
    assert!(is_finish(&st));
    assert_eq!(out(&st), vec![s("out:\x1b[31mNo entry found for 'zz'.\x1b[0m")]);
}

#[test]
fn remove_save_failure_is_reported() {
    let st = start(Kind::Remove, None);
    let st = step(st, Event::Loaded(Ok(vault_of(&[("a", "1")]))));
    let st = step(st, Event::Selected(Some(0)));
    let st = step(st, Event::Answered(true));
    let st = step(st, Event::Saved(Err(VaultError::Io { detail: s("disk full") })));
    assert_eq!(out(&st), vec![s("err:Error saving changes: disk full")]);
}

#[test]
fn edit_after_confirmation() {
    let st = start(Kind::Edit, None);
    let st = step(st, Event::Loaded(Ok(vault_of(&[("a", "1"), ("b", "2")]))));
    match &st.request {
        Request::Select { prompt, .. } => assert_eq!(prompt, "Select password to edit"),
        _ => panic!("expected a selection"),
    }
    let st = step(st, Event::Selected(Some(0)));
    match &st.request {
        Request::AskText { prompt } => {
            assert_eq!(prompt, "What do you want to change the password for 'a' to?")
        }
        _ => panic!("expected a text prompt"),
    }
    let st = step(st, Event::Entered(s("new")));
    match &st.request {
        Request::Confirm { prompt, default_yes } => {
            assert_eq!(prompt, "Do you want to change the password to 'new'?");
            assert!(*default_yes);
        }
        _ => panic!("expected a confirmation"),
    }
    let st = step(st, Event::Answered(true));
    match &st.request {
        Request::Save(v) => {
            assert_eq!(v.get(&s("a")), Some(&s("new")));
            assert_eq!(v.get(&s("b")), Some(&s("2")));
            assert_eq!(v.len(), 2);
        }
        _ => panic!("expected a save"),
    }
    let st = step(st, Event::Saved(Ok(())));
    assert_eq!(out(&st), vec![s("out:\x1b[32mPassword changed successfully!\x1b[0m")]);
}

#[test]
fn edit_declined_is_canceled() {
    let st = start(Kind::Edit, Some(s("a")));
    let st = step(st, Event::Loaded(Ok(vault_of(&[("a", "1")]))));
    let st = step(st, Event::Entered(s("new")));
    let st = step(st, Event::Answered(false));
    assert!(is_finish(&st));
    assert_eq!(out(&st), vec![s("out:\x1b[33mChange canceled!\x1b[0m")]);
}

#[test]
fn edit_of_unknown_name_suggests_add() {
    let st = start(Kind::Edit, Some(s("zz")));
    let st = step(st, Event::Loaded(Ok(vault_of(&[("a", "1")]))));
    assert!(is_finish(&st));
    assert_eq!(out(&st), vec![s("out:\x1b[31mNo entry found for 'zz'. Use 'add' instead.\x1b[0m")]);
}

#[test]
fn edit_save_failure_is_reported() {
    let st = start(Kind::Edit, Some(s("a")));
    let st = step(st, Event::Loaded(Ok(vault_of(&[("a", "1")]))));
    let st = step(st, Event::Entered(s("new")));
    let st = step(st, Event::Answered(true));
    let st = step(
        st,
        Event::Saved(Err(VaultError::DecryptionFailed { stderr: s("bad key") })),
    );
    assert_eq!(out(&st), vec![s("err:Error: SOPS decryption failed: bad key")]);
}

#[test]
fn call_shows_what_add_saved() {
    let st = start(Kind::Add, Some(s("site")));
    let st = step(st, Event::Loaded(Ok(vault_of(&[("other", "o")]))));
    let st = step(st, Event::Answered(false));
    let st = step(st, Event::Entered(s("secret")));
    let saved = match st.request {
        Request::Save(v) => v,
        _ => panic!("expected a save"),
    };
    let st = start(Kind::Call, Some(s("site")));
    let st = step(st, Event::Loaded(Ok(saved)));
    assert_eq!(out(&st), vec![s("out:\n🔑 \x1b[1msite\x1b[0m: \x1b[36msecret\x1b[0m")]);
}

#[test]
fn answers_that_do_not_fit_are_refused() {
    let st = start(Kind::Call, None);
    assert!(!accepts(&st.stage, &Event::Answered(true)));
    assert!(accepts(&st.stage, &Event::Loaded(Ok(Vault::new()))));
    let st = step(st, Event::Loaded(Ok(vault_of(&[("a", "1")]))));
    assert!(!accepts(&st.stage, &Event::Selected(Some(1))));
    assert!(accepts(&st.stage, &Event::Selected(Some(0))));
    let fin = step(st, Event::Selected(None));
    assert!(!accepts(&fin.stage, &Event::Saved(Ok(()))));
}
