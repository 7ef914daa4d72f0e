//! The SOPS backend: where the encrypted vault lives, how SOPS is asked to
//! decrypt and encrypt it, and what its answers mean.
use vstd::prelude::*;
use vstd::string::*;
use crate::paths::{join_path, path_join, home_dir, home_answer, lemma_home_answer, opt_view, passop_rel};
use crate::text::join2;
use crate::vault::Vault;
use crate::yaml::{parse_string_map, emit_string_map, yaml_read_string_map, yaml_write_string_map};

verus! {

/// Why the vault could not be read or written.
pub enum VaultError {
    /// SOPS did not decrypt the vault; what it wrote on its error stream.
    DecryptionFailed { stderr: String },
    /// SOPS did not encrypt the vault; what it wrote on its error stream.
    EncryptionFailed { stderr: String },
    /// The YAML text could not be read or written; the error's text.
    Format { detail: String },
    /// A file or process operation failed; the error's text.
    Io { detail: String },
}

impl VaultError {
    /// The text shown for the error.
    pub open spec fn text(&self) -> Seq<char> {
        match self {
            VaultError::DecryptionFailed { stderr } => "SOPS decryption failed: "@ + stderr@,
            VaultError::EncryptionFailed { stderr } => "SOPS encryption failed: "@ + stderr@,
            VaultError::Format { detail } => detail@,
            VaultError::Io { detail } => detail@,
        }
    }

    /// The text shown for the error.
    pub fn message(&self) -> (r: String)
        ensures
            r@ == self.text(),
    {
        match self {
            VaultError::DecryptionFailed { stderr } => join2(
                "SOPS decryption failed: ",
                stderr.as_str(),
            ),
            VaultError::EncryptionFailed { stderr } => join2(
                "SOPS encryption failed: ",
                stderr.as_str(),
            ),
            VaultError::Format { detail } => detail.clone(),
            VaultError::Io { detail } => detail.clone(),
        }
    }
}

/// The text that `String::from_utf8_lossy` makes of `bytes`.
pub uninterp spec fn lossy_text(bytes: Seq<u8>) -> Seq<char>;

/// Calls `String::from_utf8_lossy`: the contract claims that the result is
/// the text `lossy_text` names for these bytes.
#[verifier::external_body]
pub(crate) fn utf8_lossy(bytes: &[u8]) -> (r: String)
    ensures
        r@ == lossy_text(bytes@),
{
    String::from_utf8_lossy(bytes).into_owned()
}

/// The arguments with which `sops` encrypts YAML read from its standard
/// input for the file `db`, under the configuration `config`.
pub open spec fn encrypt_args_spec(config: Seq<char>, db: Seq<char>) -> Seq<Seq<char>> {
    seq![
        "--encrypt"@,
        "--config"@,
        config,
        "--input-type"@,
        "yaml"@,
        "--output-type"@,
        "yaml"@,
        "--filename-override"@,
        db,
        "/dev/stdin"@,
    ]
}

/// The arguments with which `sops` encrypts YAML read from its standard
/// input for the file `db`, under the configuration `config`.
pub fn sops_encrypt_args(config: &str, db: &str) -> (r: Vec<String>)
    ensures
        r.deep_view() == encrypt_args_spec(config@, db@),
{
    let mut r: Vec<String> = Vec::new();
    r.push(String::from_str("--encrypt"));
    r.push(String::from_str("--config"));
    r.push(String::from_str(config));
    r.push(String::from_str("--input-type"));
    r.push(String::from_str("yaml"));
    r.push(String::from_str("--output-type"));
    r.push(String::from_str("yaml"));
    r.push(String::from_str("--filename-override"));
    r.push(String::from_str(db));
    r.push(String::from_str("/dev/stdin"));
    assert(r.deep_view() =~= encrypt_args_spec(config@, db@));
    r
}

/// What `sops` decrypted, or why it failed: a failed run gives its error
/// stream; a successful run gives the vault its output holds as YAML.
pub open spec fn decryption_result(success: bool, stdout: Seq<u8>, stderr: Seq<u8>) -> Result<
    Map<Seq<char>, Seq<char>>,
    Seq<char>,
> {
    if !success {
        Err("SOPS decryption failed: "@ + lossy_text(stderr))
    } else {
        yaml_read_string_map(stdout)
    }
}

/// The view of a read outcome: the vault's content, or the error's text.
pub open spec fn read_view(r: &Result<Vault, VaultError>) -> Result<
    Map<Seq<char>, Seq<char>>,
    Seq<char>,
> {
    match r {
        Ok(v) => Ok(v@),
        Err(e) => Err(e.text()),
    }
}

/// The vault held by what `sops --decrypt` answered.
pub fn secrets_from_decryption(success: bool, stdout: &[u8], stderr: &[u8]) -> (r: Result<
    Vault,
    VaultError,
>)
    ensures
        read_view(&r) == decryption_result(success, stdout@, stderr@),
        r matches Err(e) ==> (success <==> e is Format),
{
    if !success {
        let text = utf8_lossy(stderr);
        return Err(VaultError::DecryptionFailed { stderr: text });
    }
    match parse_string_map(stdout) {
        Ok(entries) => Ok(Vault::from_distinct(entries)),
        Err(detail) => Err(VaultError::Format { detail }),
    }
}

/// The vault read when the vault file does not exist: an empty one, without
/// asking `sops`. Nothing when the file exists and must be decrypted.
pub fn vault_if_absent(db_exists: bool) -> (r: Option<Vault>)
    ensures
        r is Some <==> !db_exists,
        r matches Some(v) ==> v@ == Map::<Seq<char>, Seq<char>>::empty() && v.key_order()
            == Seq::<Seq<char>>::empty(),
{
    if db_exists {
        None
    } else {
        Some(Vault::new())
    }
}

/// The YAML text that holds the entries of `vault`, in its order.
pub fn vault_yaml(vault: &Vault) -> (r: Result<String, VaultError>)
    ensures
        match r {
            Ok(t) => yaml_write_string_map(vault.entry_seq()) == Ok::<Seq<char>, Seq<char>>(t@),
            Err(e) => e is Format && yaml_write_string_map(vault.entry_seq()) == Err::<
                Seq<char>,
                Seq<char>,
            >(e.text()),
        },
{
    let entries = vault.entries();
    match emit_string_map(entries) {
        Ok(t) => Ok(t),
        Err(detail) => Err(VaultError::Format { detail }),
    }
}

/// What `sops --encrypt` answered: nothing on success, its error stream
/// otherwise.
pub fn encryption_outcome(success: bool, stderr: &[u8]) -> (r: Result<(), VaultError>)
    ensures
        success <==> r is Ok,
        r matches Err(e) ==> e.text() == "SOPS encryption failed: "@ + lossy_text(stderr@),
{
    if success {
        Ok(())
    } else {
        let text = utf8_lossy(stderr);
        Err(VaultError::EncryptionFailed { stderr: text })
    }
}

/// Where the SOPS-encrypted vault and its SOPS configuration live.
pub struct SopsBackend {
    dir: String,
    db_path: String,
    config_path: String,
}

impl SopsBackend {
    /// The directory of the vault.
    pub closed spec fn dir_spec(&self) -> Seq<char> {
        self.dir@
    }

    /// The path of the encrypted vault.
    pub closed spec fn db_spec(&self) -> Seq<char> {
        self.db_path@
    }

    /// The path of the SOPS configuration.
    pub closed spec fn config_spec(&self) -> Seq<char> {
        self.config_path@
    }

    /// The backend for the files under `home`.
    pub fn in_home(home: &str) -> (r: SopsBackend)
        ensures
            r.dir_spec() == path_join(home@, passop_rel()),
            r.db_spec() == path_join(r.dir_spec(), "secrets.enc.yaml"@),
            r.config_spec() == path_join(r.dir_spec(), ".sops.yaml"@),
    {
        let dir = join_path(home, ".config/passop");
        let db_path = join_path(dir.as_str(), "secrets.enc.yaml");
        let config_path = join_path(dir.as_str(), ".sops.yaml");
        SopsBackend { dir, db_path, config_path }
    }

    /// The backend for the files under the home directory, or nothing when
    /// the home directory cannot be found.
    pub fn new() -> (r: Option<SopsBackend>)
        ensures
            exists|home: Option<Seq<char>>|
                home_answer(home) && (r is None <==> home is None) && (r matches Some(b) ==> (
                b.dir_spec() == path_join(home->0, passop_rel()) && b.db_spec() == path_join(
                    b.dir_spec(),
                    "secrets.enc.yaml"@,
                ) && b.config_spec() == path_join(b.dir_spec(), ".sops.yaml"@))),
    {
        let home = home_dir();
        let r = match &home {
            Some(h) => Some(SopsBackend::in_home(h.as_str())),
            None => None,
        };
        proof {
            lemma_home_answer(home);
        }
        r
    }

    /// The directory of the vault.
    pub fn dir(&self) -> (r: &String)
        ensures
            r@ == self.dir_spec(),
    {
        &self.dir
    }

    /// The path of the encrypted vault.
    pub fn db_path(&self) -> (r: &String)
        ensures
            r@ == self.db_spec(),
    {
        &self.db_path
    }

    /// The path of the SOPS configuration.
    pub fn config_path(&self) -> (r: &String)
        ensures
            r@ == self.config_spec(),
    {
        &self.config_path
    }

    /// The arguments with which `sops` decrypts the vault.
    pub fn decrypt_args(&self) -> (r: Vec<String>)
        ensures
            r.deep_view() == seq!["--decrypt"@, "--config"@, self.config_spec(), self.db_spec()],
    {
        let mut r: Vec<String> = Vec::new();
        r.push(String::from_str("--decrypt"));
        r.push(String::from_str("--config"));
        r.push(self.config_path.clone());
        r.push(self.db_path.clone());
        assert(r.deep_view() =~= seq![
            "--decrypt"@,
            "--config"@,
            self.config_spec(),
            self.db_spec(),
        ]);
        r
    }

    /// The arguments with which `sops` encrypts a vault read from its
    /// standard input.
    pub fn encrypt_args(&self) -> (r: Vec<String>)
        ensures
            r.deep_view() == encrypt_args_spec(self.config_spec(), self.db_spec()),
    {
        sops_encrypt_args(self.config_path.as_str(), self.db_path.as_str())
    }
}

} // verus!
