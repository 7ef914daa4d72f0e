use passop::vault::Vault;

fn s(x: &str) -> String {
    x.to_string()
}

#[test]
fn new_vault_is_empty() {
    let v = Vault::new();
    assert!(v.is_empty());
    assert_eq!(v.len(), 0);
    assert!(v.keys().is_empty());
    assert!(v.get(&s("github")).is_none());
}

#[test]
fn get_after_insert_gives_the_password() {
    let mut v = Vault::new();
    v.insert(s("github"), s("hunter2"));
    assert_eq!(v.get(&s("github")), Some(&s("hunter2")));
    assert!(v.contains_key(&s("github")));
    assert!(!v.contains_key(&s("gitlab")));
    assert!(!v.is_empty());
    assert_eq!(v.len(), 1);
}

#[test]
fn insert_replaces_and_keeps_order() {
    let mut v = Vault::new();
    v.insert(s("a"), s("1"));
    v.insert(s("b"), s("2"));
    v.insert(s("c"), s("3"));
    v.insert(s("b"), s("20"));
    assert_eq!(v.keys(), vec![s("a"), s("b"), s("c")]);
    assert_eq!(v.get(&s("b")), Some(&s("20")));
    assert_eq!(v.len(), 3);
}

#[test]
fn remove_forgets_only_that_name() {
    let mut v = Vault::new();
    v.insert(s("a"), s("1"));
    v.insert(s("b"), s("2"));
    v.insert(s("c"), s("3"));
    v.remove(&s("b"));
    assert!(v.get(&s("b")).is_none());
    assert_eq!(v.get(&s("a")), Some(&s("1")));
    assert_eq!(v.get(&s("c")), Some(&s("3")));
    assert_eq!(v.keys(), vec![s("a"), s("c")]);
    v.remove(&s("zzz"));
    assert_eq!(v.len(), 2);
}

#[test]
fn remove_undoes_insert_of_new_name() {
    let mut v = Vault::new();
    v.insert(s("a"), s("1"));
    v.insert(s("b"), s("2"));
    v.remove(&s("b"));
    assert_eq!(v.keys(), vec![s("a")]);
    assert_eq!(v.get(&s("a")), Some(&s("1")));
}

#[test]
fn from_pairs_keeps_the_last_password() {
    let v = Vault::from_pairs(vec![(s("x"), s("1")), (s("y"), s("2")), (s("x"), s("3"))]);
    assert_eq!(v.len(), 2);
    assert_eq!(v.get(&s("x")), Some(&s("3")));
    assert_eq!(v.get(&s("y")), Some(&s("2")));
    assert_eq!(v.keys(), vec![s("x"), s("y")]);
}

#[test]
fn entries_hold_each_name_once() {
    let mut v = Vault::new();
    v.insert(s("a"), s("1"));
    v.insert(s("a"), s("2"));
    assert_eq!(v.entries(), &vec![(s("a"), s("2"))]);
}
