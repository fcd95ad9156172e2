//! Where the vault keeps its files. Paths are text, joined with `/`; nothing
//! here touches the disk.

use vstd::prelude::*;
use vstd::string::StringExecFns;

verus! {

/// `base` and `child` joined by one `/`.
pub open spec fn joined(base: Seq<char>, child: Seq<char>) -> Seq<char> {
    base + "/"@ + child
}

/// Joins two path parts with `/`.
pub fn join(base: &str, child: &str) -> (path: String)
    ensures
        path@ == joined(base@, child@),
{
    let mut path = String::from_str(base);
    path.append("/");
    path.append(child);
    path
}

/// The layout of the vault below one root directory.
#[derive(Clone, Debug)]
pub struct FileSystem {
    root: String,
}

impl FileSystem {
    /// The root directory, as text.
    pub closed spec fn root_view(self) -> Seq<char> {
        self.root@
    }

    /// Directory of one vault: `<root>/vaults/<name>.vault`.
    pub open spec fn vault_folder_view(self, vault_name: Seq<char>) -> Seq<char> {
        joined(joined(self.root_view(), "vaults"@), vault_name + ".vault"@)
    }

    /// File of one secret: `<vault folder>/<id>.enc`.
    pub open spec fn secret_path_view(self, vault_name: Seq<char>, id: Seq<char>) -> Seq<char> {
        joined(self.vault_folder_view(vault_name), id + ".enc"@)
    }

    /// A layout rooted at `root`.
    pub fn new(root: String) -> (fs: Self)
        ensures
            fs.root_view() == root@,
    {
        Self { root }
    }

    /// A layout rooted at `.vault` below a scratch directory.
    pub fn new_test(temp_dir: String) -> (fs: Self)
        ensures
            fs.root_view() == joined(temp_dir@, ".vault"@),
    {
        Self { root: join(temp_dir.as_str(), ".vault") }
    }

    /// The root directory.
    pub fn root(&self) -> (path: String)
        ensures
            path@ == self.root_view(),
    {
        self.root.clone()
    }

    /// `<root>/app-data`.
    pub fn app_data_directory(&self) -> (path: String)
        ensures
            path@ == joined(self.root_view(), "app-data"@),
    {
        join(self.root.as_str(), "app-data")
    }

    /// `<root>/vaults`.
    pub fn vaults_folder(&self) -> (path: String)
        ensures
            path@ == joined(self.root_view(), "vaults"@),
    {
        join(self.root.as_str(), "vaults")
    }

    /// `<root>/vaults/<name>.vault/private_key`.
    pub fn pk_for_vault(&self, vault_name: &str) -> (path: String)
        ensures
            path@ == joined(self.vault_folder_view(vault_name@), "private_key"@),
    {
        join(self.vault_folder(vault_name).as_str(), "private_key")
    }

    /// `<root>/master_password.enc`: the master-password record.
    pub fn master_password(&self) -> (path: String)
        ensures
            path@ == joined(self.root_view(), "master_password.enc"@),
    {
        join(self.root.as_str(), "master_password.enc")
    }

    /// `<root>/rsa_master_pk.enc`: the sealed private key.
    pub fn master_pk(&self) -> (path: String)
        ensures
            path@ == joined(self.root_view(), "rsa_master_pk.enc"@),
    {
        join(self.root.as_str(), "rsa_master_pk.enc")
    }

    /// `<root>/rsa_master_pub`: the public key, in the clear.
    pub fn master_pub(&self) -> (path: String)
        ensures
            path@ == joined(self.root_view(), "rsa_master_pub"@),
    {
        join(self.root.as_str(), "rsa_master_pub")
    }

    /// `<root>/yubikey_settings.json`: the bound hardware token.
    pub fn yubikey_settings(&self) -> (path: String)
        ensures
            path@ == joined(self.root_view(), "yubikey_settings.json"@),
    {
        join(self.root.as_str(), "yubikey_settings.json")
    }

    /// `<root>/vaults/<name>.vault`.
    pub fn vault_folder(&self, vault_name: &str) -> (path: String)
        ensures
            path@ == self.vault_folder_view(vault_name@),
    {
        let mut vault_folder = String::from_str(vault_name);
        vault_folder.append(".vault");
        join(self.vaults_folder().as_str(), vault_folder.as_str())
    }

    /// `<root>/vaults/<name>.vault/<id>.enc`.
    pub fn secret_path(&self, vault_name: &str, id: &str) -> (path: String)
        ensures
            path@ == self.secret_path_view(vault_name@, id@),
    {
        let mut file_name = String::from_str(id);
        file_name.append(".enc");
        join(self.vault_folder(vault_name).as_str(), file_name.as_str())
    }

    /// The directories that must exist before the vault is used: app data,
    /// the vaults folder and the default vault, in that order.
    pub fn init_directories(&self) -> (dirs: Vec<String>)
        ensures
            dirs@.len() == 3,
            dirs@[0]@ == joined(self.root_view(), "app-data"@),
            dirs@[1]@ == joined(self.root_view(), "vaults"@),
            dirs@[2]@ == self.vault_folder_view("default"@),
    {
        let mut dirs: Vec<String> = Vec::new();
        dirs.push(self.app_data_directory());
        dirs.push(self.vaults_folder());
        dirs.push(self.vault_folder("default"));
        dirs
    }
}

} // verus!
