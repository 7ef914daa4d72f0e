//! Where PASSop keeps its files.
use vstd::prelude::*;
use vstd::string::*;
use crate::text::join3;

verus! {

/// A relative path appended to a base directory, as `PathBuf::push` does it
/// on Unix: a `/` goes in between unless the base is empty or already ends
/// with one.
pub open spec fn path_join(base: Seq<char>, rel: Seq<char>) -> Seq<char> {
    if base.len() == 0 || base.last() == '/' {
        base + rel
    } else {
        base + seq!['/'] + rel
    }
}

/// The base directory used when the home directory is known or not: the
/// home directory, or `.`.
pub open spec fn base_dir(home: Option<Seq<char>>) -> Seq<char> {
    match home {
        Some(h) => h,
        None => seq!['.'],
    }
}

/// `base` joined with the relative path `rel`.
pub fn join_path(base: &str, rel: &str) -> (r: String)
    ensures
        r@ == path_join(base@, rel@),
{
    let n = base.unicode_len();
    if n == 0 || base.get_char(n - 1) == '/' {
        let mut r = String::from_str(base);
        r.append(rel);
        r
    } else {
        let r = join3(base, "/", rel);
        proof {
            reveal_strlit("/");
            assert("/"@ =~= seq!['/']);
        }
        r
    }
}

/// The home directory of the user, from `dirs::home_dir`, as a string
/// (characters that are not valid UTF-8 are replaced, as
/// `Path::to_string_lossy` does). The result depends on the environment and
/// the system, so the contract states nothing of it.
#[verifier::external_body]
pub(crate) fn home_dir() -> (r: Option<String>) {
    dirs::home_dir().map(|p| p.to_string_lossy().into_owned())
}

/// `home` is an answer that `home_dir` can give (as a string view).
pub closed spec fn home_answer(home: Option<Seq<char>>) -> bool {
    exists|s: Option<String>| call_ensures(home_dir, (), s) && opt_view(&s) == home
}

/// An answer `home_dir` gave is one it can give.
pub(crate) proof fn lemma_home_answer(s: Option<String>)
    requires
        call_ensures(home_dir, (), s),
    ensures
        home_answer(opt_view(&s)),
{
}

/// Whether a file or directory exists at `path`, from `Path::exists`. The
/// answer depends on the disk, so the contract states nothing of it.
#[verifier::external_body]
pub(crate) fn path_exists(path: &String) -> (r: bool) {
    std::path::Path::new(path.as_str()).exists()
}

/// `.config/passop`, where the vault and its SOPS configuration live.
pub open spec fn passop_rel() -> Seq<char> {
    ".config/passop"@
}

/// `.config/sops/age`, where the age key lives.
pub open spec fn age_rel() -> Seq<char> {
    ".config/sops/age"@
}

/// The PASSop directory under `home`, or under `.` when there is no home.
pub fn passop_dir_for(home: &Option<String>) -> (r: String)
    ensures
        r@ == path_join(base_dir(opt_view(home)), passop_rel()),
{
    match home {
        Some(h) => join_path(h.as_str(), ".config/passop"),
        None => {
            let r = join_path(".", ".config/passop");
            proof {
                reveal_strlit(".");
                assert("."@ =~= seq!['.']);
            }
            r
        },
    }
}

/// The age key directory under `home`, or under `.` when there is no home.
pub fn age_key_dir_for(home: &Option<String>) -> (r: String)
    ensures
        r@ == path_join(base_dir(opt_view(home)), age_rel()),
{
    match home {
        Some(h) => join_path(h.as_str(), ".config/sops/age"),
        None => {
            let r = join_path(".", ".config/sops/age");
            proof {
                reveal_strlit(".");
                assert("."@ =~= seq!['.']);
            }
            r
        },
    }
}

/// The view of an optional string.
pub open spec fn opt_view(s: &Option<String>) -> Option<Seq<char>> {
    match s {
        Some(x) => Some(x@),
        None => None,
    }
}

/// The PASSop directory: `.config/passop` under the home directory, or
/// under `.` when the home directory cannot be found.
pub fn get_passop_dir() -> (r: String)
    ensures
        exists|home: Option<Seq<char>>|
            home_answer(home) && r@ == path_join(base_dir(home), passop_rel()),
{
    let home = home_dir();
    let r = passop_dir_for(&home);
    proof {
        assert(home_answer(opt_view(&home)));
    }
    r
}

/// The age key directory: `.config/sops/age` under the home directory, or
/// under `.` when the home directory cannot be found.
pub fn get_age_key_dir() -> (r: String)
    ensures
        exists|home: Option<Seq<char>>|
            home_answer(home) && r@ == path_join(base_dir(home), age_rel()),
{
    let home = home_dir();
    let r = age_key_dir_for(&home);
    proof {
        assert(home_answer(opt_view(&home)));
    }
    r
}

/// The files that a finished setup leaves behind.
pub struct SetupFiles {
    pub passop_dir: String,
    pub age_dir: String,
    pub key_file: String,
    pub config_file: String,
    pub secrets_file: String,
}

/// The setup files for a home directory (or `.` when there is none).
pub open spec fn setup_files_ok(f: &SetupFiles, home: Option<Seq<char>>) -> bool {
    &&& f.passop_dir@ == path_join(base_dir(home), passop_rel())
    &&& f.age_dir@ == path_join(base_dir(home), age_rel())
    &&& f.key_file@ == path_join(f.age_dir@, "keys.txt"@)
    &&& f.config_file@ == path_join(f.passop_dir@, ".sops.yaml"@)
    &&& f.secrets_file@ == path_join(f.passop_dir@, "secrets.enc.yaml"@)
}

impl SetupFiles {
    /// The setup files under `home`, or under `.` when there is no home.
    pub fn for_home(home: &Option<String>) -> (r: SetupFiles)
        ensures
            setup_files_ok(&r, opt_view(home)),
    {
        let passop_dir = passop_dir_for(home);
        let age_dir = age_key_dir_for(home);
        let key_file = join_path(age_dir.as_str(), "keys.txt");
        let config_file = join_path(passop_dir.as_str(), ".sops.yaml");
        let secrets_file = join_path(passop_dir.as_str(), "secrets.enc.yaml");
        SetupFiles { passop_dir, age_dir, key_file, config_file, secrets_file }
    }

    /// The setup files of this user.
    pub fn locate() -> (r: SetupFiles)
        ensures
            exists|home: Option<Seq<char>>| home_answer(home) && setup_files_ok(&r, home),
    {
        let home = home_dir();
        let r = SetupFiles::for_home(&home);
        proof {
            assert(home_answer(opt_view(&home)));
        }
        r
    }
}

/// The three files whose presence means that setup is complete: the age
/// key, the encrypted vault and the SOPS configuration, in this order.
pub open spec fn completion_files(f: &SetupFiles) -> Seq<Seq<char>> {
    seq![f.key_file@, f.secrets_file@, f.config_file@]
}

impl SetupFiles {
    /// The three files whose presence means that setup is complete, in the
    /// order in which they are looked for.
    pub fn completion_paths(&self) -> (r: Vec<String>)
        ensures
            r.deep_view() == completion_files(self),
    {
        let mut r: Vec<String> = Vec::new();
        r.push(self.key_file.clone());
        r.push(self.secrets_file.clone());
        r.push(self.config_file.clone());
        assert(r.deep_view() =~= completion_files(self));
        r
    }
}

/// Setup is complete when the key, the vault and the configuration are all
/// there.
pub fn setup_complete_from(key: bool, vault: bool, config: bool) -> (r: bool)
    ensures
        r == (key && vault && config),
{
    key && vault && config
}

/// Whether setup is complete for `files`, asking `probe` about each of its
/// three files: the result is true exactly when `probe` answered true for
/// the key file, the vault file and the configuration file.
pub fn setup_complete_with<F: Fn(&String) -> bool>(files: &SetupFiles, probe: F) -> (r: bool)
    requires
        forall|p: &String| call_requires(probe, (p,)),
    ensures
        exists|key: bool, vault: bool, config: bool|
            call_ensures(probe, (&files.key_file,), key) && call_ensures(
                probe,
                (&files.secrets_file,),
                vault,
            ) && call_ensures(probe, (&files.config_file,), config) && r == (key && vault
                && config),
{
    let key = probe(&files.key_file);
    let vault = probe(&files.secrets_file);
    let config = probe(&files.config_file);
    setup_complete_from(key, vault, config)
}

/// `answer` is one that `path_exists` can give about `path`.
pub closed spec fn exists_answer(path: &String, answer: bool) -> bool {
    call_ensures(path_exists, (path,), answer)
}

/// Whether setup has left its three files behind: the age key, the encrypted
/// vault and the SOPS configuration under the home directory (or `.`). Each
/// answer of `path_exists` depends on the disk at the moment it is asked, so
/// the contract fixes which paths are asked about and how the answers are
/// combined, not the answers.
pub fn is_setup_complete() -> (r: bool)
    ensures
        exists|files: SetupFiles, home: Option<Seq<char>>, key: bool, vault: bool, config: bool|
            home_answer(home) && setup_files_ok(&files, home) && exists_answer(&files.key_file, key) && exists_answer(
                &files.secrets_file,
                vault,
            ) && exists_answer(&files.config_file, config) && r == (key && vault && config),
{
    let files = SetupFiles::locate();
    let r = setup_complete_with(&files, path_exists);
    proof {
        let home = choose|home: Option<Seq<char>>| home_answer(home) && setup_files_ok(&files, home);
        let (key, vault, config) = choose|key: bool, vault: bool, config: bool|
            call_ensures(path_exists, (&files.key_file,), key) && call_ensures(
                path_exists,
                (&files.secrets_file,),
                vault,
            ) && call_ensures(path_exists, (&files.config_file,), config) && r == (key && vault
                && config);
        assert(home_answer(home) && setup_files_ok(&files, home) && exists_answer(&files.key_file, key)
            && exists_answer(&files.secrets_file, vault) && exists_answer(&files.config_file, config)
            && r == (key && vault && config));
    }
    r
}

} // verus!
