//! A vault: a named folder of sealed secrets.

use vstd::prelude::*;
use vstd::string::StrSliceExecFns;
use crate::file_system::joined;
use crate::file_system::FileSystem;

verus! {

/// Whether a file name has the extension `enc`: it ends in `.enc` and
/// something stands before the dot.
pub open spec fn has_secret_extension(file_name: Seq<char>) -> bool {
    &&& file_name.len() > 4
    &&& file_name.subrange(file_name.len() - 4, file_name.len() as int) == seq!['.', 'e', 'n', 'c']
}

/// Whether a directory entry is a sealed secret: a file, not a directory,
/// whose name has the extension `enc`.
pub fn is_secret_file(file_name: &str, is_dir: bool) -> (yes: bool)
    ensures
        yes == (!is_dir && has_secret_extension(file_name@)),
{
    if is_dir {
        return false;
    }
    let n: usize = file_name.unicode_len();
    if n <= 4 {
        return false;
    }
    let matches = file_name.get_char(n - 4) == '.' && file_name.get_char(n - 3) == 'e'
        && file_name.get_char(n - 2) == 'n' && file_name.get_char(n - 1) == 'c';
    proof {
        let tail = file_name@.subrange(n - 4, n as int);
        if matches {
            assert(tail == seq!['.', 'e', 'n', 'c']);
        } else {
            assert(tail[0] == file_name@[n - 4]);
            assert(tail[1] == file_name@[n - 3]);
            assert(tail[2] == file_name@[n - 2]);
            assert(tail[3] == file_name@[n - 1]);
        }
    }
    matches
}

/// A named vault below a file layout.
pub struct Vault {
    pub name: String,
    pub fs: FileSystem,
}

impl Vault {
    /// The vault called `name` in `fs`.
    pub fn new(name: String, fs: FileSystem) -> (vault: Self)
        ensures
            vault.name == name,
            vault.fs == fs,
    {
        Self { name, fs }
    }

    /// The file layout.
    pub fn fs(&self) -> (fs: FileSystem)
        ensures
            fs.root_view() == self.fs.root_view(),
    {
        FileSystem::new(self.fs.root())
    }

    /// The vault's name.
    pub fn name(&self) -> (name: &String)
        ensures
            *name == self.name,
    {
        &self.name
    }

    /// The vault's folder.
    pub fn path(&self) -> (path: String)
        ensures
            path@ == self.fs.vault_folder_view(self.name@),
    {
        self.fs.vault_folder(self.name.as_str())
    }

    /// The file of the secret with a given id.
    pub fn secret_path(&self, id: &str) -> (path: String)
        ensures
            path@ == self.fs.secret_path_view(self.name@, id@),
    {
        self.fs.secret_path(self.name.as_str(), id)
    }

    /// The file of the vault's own private key.
    pub fn pk_path(&self) -> (path: String)
        ensures
            path@ == joined(self.fs.vault_folder_view(self.name@), "private_key"@),
    {
        self.fs.pk_for_vault(self.name.as_str())
    }
}

} // verus!
