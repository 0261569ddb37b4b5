//! Device addressing: the project scope and device-name resolution.
//!
//! The network calls themselves (list, get, execute) happen outside the
//! library; everything here is the naming logic they depend on.

use vstd::prelude::*;
use vstd::string::{StrSliceExecFns, StringExecFns};
use crate::errors::CliError;
use crate::strutil::{has_char, starts_with_spec, str_has_char, str_starts_with};

verus! {

/// A usable project identifier: non-empty and free of the path separator
/// used to build device names.
pub open spec fn valid_project_id(p: Seq<char>) -> bool {
    p.len() > 0 && !has_char(p, '/')
}

/// A device reference that already carries the `enterprises/` prefix is
/// used verbatim; any other is qualified under the given project.
pub open spec fn resolved_name(id: Seq<char>, project: Seq<char>) -> Seq<char> {
    if starts_with_spec(id, "enterprises/"@) {
        id
    } else {
        "enterprises/"@ + project + "/devices/"@ + id
    }
}

/// Resolves a device reference against a project identifier.
pub fn resolve(id: &str, project_id: &str) -> (r: String)
    ensures
        r@ == resolved_name(id@, project_id@),
{
    if str_starts_with(id, "enterprises/") {
        String::from_str(id)
    } else {
        let r = String::from_str("enterprises/").concat(project_id).concat("/devices/").concat(
            id,
        );
        proof {
            assert(r@ =~= "enterprises/"@ + project_id@ + "/devices/"@ + id@);
        }
        r
    }
}

/// The device scope of one project. Stateless beyond the identifier; the
/// caller owns the transport that carries the calls.
pub struct Client {
    pub project_id: String,
}

impl Client {
    /// Accepts a project identifier and fixes the scope; a saved identifier
    /// that is empty or carries `/` is treated as missing credentials.
    pub fn new(project_id: String) -> (r: Result<Client, CliError>)
        ensures
            valid_project_id(project_id@) ==> r is Ok && r->Ok_0.project_id == project_id,
            !valid_project_id(project_id@) ==> r == Err::<Client, CliError>(
                CliError::NotAuthenticated,
            ),
    {
        if project_id.as_str().unicode_len() == 0 || str_has_char(project_id.as_str(), '/') {
            Err(CliError::NotAuthenticated)
        } else {
            Ok(Client { project_id })
        }
    }

    /// The enterprise path that scopes every device operation.
    pub fn parent(&self) -> (r: String)
        ensures
            r@ == "enterprises/"@ + self.project_id@,
    {
        String::from_str("enterprises/").concat(self.project_id.as_str())
    }

    /// Resolves a device reference within this client's project.
    pub fn resolve_device_name(&self, id: &str) -> (r: String)
        ensures
            r@ == resolved_name(id@, self.project_id@),
    {
        resolve(id, self.project_id.as_str())
    }
}

} // verus!
