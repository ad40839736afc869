//! Stored credentials (`auth.json`) and where they are kept.
use vstd::prelude::*;

use crate::auth::AuthMode;
use crate::text::clone_opt_string;

verus! {

/// The contents of `$CODEX_HOME/auth.json`.
#[derive(Debug, Clone, PartialEq)]
pub struct AuthDotJson {
    pub auth_mode: Option<AuthMode>,
    pub openai_api_key: Option<String>,
    pub access_token: Option<String>,
    pub refresh_token: Option<String>,
}

/// An exact copy of stored credentials.
pub fn copy_auth_dot_json(a: &AuthDotJson) -> (r: AuthDotJson)
    ensures
        r == *a,
{
    AuthDotJson {
        auth_mode: a.auth_mode,
        openai_api_key: clone_opt_string(&a.openai_api_key),
        access_token: clone_opt_string(&a.access_token),
        refresh_token: clone_opt_string(&a.refresh_token),
    }
}

/// A failure of a credential store.
#[derive(Debug, Clone)]
pub struct StorageError {
    pub message: String,
}

/// Where credentials are kept.
pub trait AuthStorageBackend {
    /// The stored credentials, if any.
    fn load(&self) -> Result<Option<AuthDotJson>, StorageError>;

    /// Replaces the stored credentials.
    fn save(&mut self, auth: &AuthDotJson) -> Result<(), StorageError>;

    /// Removes the stored credentials; whether there were any.
    fn delete(&mut self) -> Result<bool, StorageError>;
}

/// Credentials kept in a file under the codex home directory.
#[derive(Debug, Clone)]
pub struct FileAuthStorage {
    codex_home: String,
}

impl FileAuthStorage {
    /// The home directory, in specifications.
    pub closed spec fn spec_home(&self) -> Seq<char> {
        self.codex_home@
    }

    /// A store under `codex_home`.
    pub fn new(codex_home: String) -> (r: Self)
        ensures
            r.spec_home() == codex_home@,
    {
        FileAuthStorage { codex_home }
    }

    /// The credentials file: `auth.json` in the home directory.
    pub fn auth_file(&self) -> (r: String)
        ensures
            r@ == crate::git_info::resolved_path(self.spec_home(), "auth.json"@),
    {
        crate::git_info::resolve_path(self.codex_home.as_str(), "auth.json")
    }
}

/// Credentials kept in memory.
#[derive(Debug)]
pub struct MemoryAuthStorage {
    data: Option<AuthDotJson>,
}

impl MemoryAuthStorage {
    /// What is stored, in specifications.
    pub closed spec fn spec_data(&self) -> Option<AuthDotJson> {
        self.data
    }

    /// An empty store.
    pub fn new() -> (r: Self)
        ensures
            r.spec_data() is None,
    {
        MemoryAuthStorage { data: None }
    }
}

impl AuthStorageBackend for MemoryAuthStorage {
    fn load(&self) -> (r: Result<Option<AuthDotJson>, StorageError>)
        ensures
            r == loaded(self.spec_data()),
    {
        match &self.data {
            Some(a) => Ok(Some(copy_auth_dot_json(a))),
            None => Ok(None),
        }
    }

    fn save(&mut self, auth: &AuthDotJson) -> (r: Result<(), StorageError>)
        ensures
            r is Ok,
            final(self).spec_data() == saved(*auth),
    {
        self.data = Some(copy_auth_dot_json(auth));
        Ok(())
    }

    fn delete(&mut self) -> (r: Result<bool, StorageError>)
        ensures
            r == Ok::<bool, StorageError>(deleted(old(self).spec_data()).0),
            final(self).spec_data() == deleted(old(self).spec_data()).1,
    {
        let existed = self.data.is_some();
        self.data = None;
        Ok(existed)
    }
}

/// What loading from a memory store holding `data` returns.
pub open spec fn loaded(data: Option<AuthDotJson>) -> Result<Option<AuthDotJson>, StorageError> {
    Ok(data)
}

/// What a memory store holds after `auth` is saved.
pub open spec fn saved(auth: AuthDotJson) -> Option<AuthDotJson> {
    Some(auth)
}

/// Whether a delete found credentials, and what the store holds after it.
pub open spec fn deleted(data: Option<AuthDotJson>) -> (bool, Option<AuthDotJson>) {
    (data is Some, None)
}

/// A load after a save gives back what was saved; after a delete it gives
/// nothing, and a second delete finds nothing to remove.
pub proof fn law_memory_storage_roundtrip(data: Option<AuthDotJson>, auth: AuthDotJson)
    ensures
        loaded(saved(auth)) == Ok::<Option<AuthDotJson>, StorageError>(Some(auth)),
        loaded(deleted(data).1) == Ok::<Option<AuthDotJson>, StorageError>(None),
        deleted(saved(auth)).0,
        !deleted(deleted(data).1).0,
{
}

} // verus!
