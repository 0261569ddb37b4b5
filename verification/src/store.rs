//! The credential store: registration bytes and the project identifier,
//! with the decisions the on-disk store owes its callers.
//!
//! The store is modelled as the pair of persisted values; the caller maps
//! it onto files and reports back whether reads, writes and permission
//! hardening succeeded.

use vstd::prelude::*;
use crate::errors::CliError;
use crate::strutil::{trim, trim_spec};

verus! {

/// The persisted credential material: the provider-issued client
/// registration (opaque bytes) and the project identifier.
pub struct CredStore {
    pub registration: Option<Vec<u8>>,
    pub project_id: Option<String>,
}

impl CredStore {
    /// An empty store: nothing persisted yet.
    pub fn new() -> (r: CredStore)
        ensures
            r.registration is None,
            r.project_id is None,
    {
        CredStore { registration: None, project_id: None }
    }

    /// Records the registration bytes read from the given source together
    /// with the project identifier. An unreadable source is an
    /// `IoError`; if owner-only permissions could not be applied first,
    /// nothing is recorded and the failure is a `PermissionError` — no
    /// secret is ever persisted unhardened.
    pub fn init(&mut self, source: Option<Vec<u8>>, project_id: String, hardened: bool) -> (r:
        Result<(), CliError>)
        ensures
            source is None ==> r == Err::<(), CliError>(CliError::IoError)
                && *final(self) == *old(self),
            source is Some && !hardened ==> r == Err::<(), CliError>(CliError::PermissionError)
                && *final(self) == *old(self),
            source is Some && hardened ==> r is Ok && final(self).registration == source
                && final(self).project_id == Some(project_id),
    {
        match source {
            None => Err(CliError::IoError),
            Some(bytes) => {
                if !hardened {
                    Err(CliError::PermissionError)
                } else {
                    self.registration = Some(bytes);
                    self.project_id = Some(project_id);
                    Ok(())
                }
            },
        }
    }

    /// The persisted registration; without one the caller must log in.
    pub fn load_registration(&self) -> (r: Result<Vec<u8>, CliError>)
        ensures
            ({
                match self.registration {
                    None => r == Err::<Vec<u8>, CliError>(CliError::NotAuthenticated),
                    Some(b) => r is Ok && r->Ok_0@ == b@,
                }
            }),
    {
        match &self.registration {
            None => Err(CliError::NotAuthenticated),
            Some(bytes) => {
                let copy = bytes.clone();
                proof {
                    assert(copy@ =~= bytes@);
                }
                Ok(copy)
            },
        }
    }

    /// The persisted project identifier, trimmed of surrounding
    /// whitespace; without one the caller must log in.
    pub fn load_project_id(&self) -> (r: Result<String, CliError>)
        ensures
            ({
                match self.project_id {
                    None => r == Err::<String, CliError>(CliError::NotAuthenticated),
                    Some(p) => r is Ok && r->Ok_0@ == trim_spec(p@),
                }
            }),
    {
        match &self.project_id {
            None => Err(CliError::NotAuthenticated),
            Some(p) => Ok(trim(p.as_str())),
        }
    }
}

} // verus!
