//! Where the credential files live: one `nest-cli` directory under the
//! platform's per-user configuration directory.
//!
//! Only the path arithmetic is done here — exact joins over a looked-up
//! base directory; creating the directory and hardening its permissions
//! is filesystem work left to the caller.

use vstd::prelude::*;
use vstd::string::StringExecFns;
use crate::errors::CliError;

verus! {

/// Relies on dirs::config_dir: the platform's per-user configuration
/// directory, when one can be determined, converted to text.
#[verifier::external_body]
fn os_config_base() -> (r: Option<String>) {
    dirs::config_dir().and_then(|p| p.to_str().map(|s| s.to_string()))
}

/// The `nest-cli` directory under a given configuration base.
pub fn under_config_base(base: &str) -> (r: String)
    ensures
        r@ == base@ + "/nest-cli"@,
{
    String::from_str(base).concat("/nest-cli")
}

/// `dir` and `file` joined with the path separator.
pub fn join_path(dir: &str, file: &str) -> (r: String)
    ensures
        r@ == dir@ + "/"@ + file@,
{
    String::from_str(dir).concat("/").concat(file)
}

/// The directory all credential files live in: `<config>/nest-cli`.
pub fn config_dir() -> (r: Result<String, CliError>)
    ensures
        r is Ok ==> (exists|b: Seq<char>| r->Ok_0@ == b + "/nest-cli"@),
        r is Err ==> r->Err_0 is IoError,
{
    match os_config_base() {
        None => Err(CliError::IoError),
        Some(base) => {
            let dir = under_config_base(base.as_str());
            proof {
                assert(dir@ == base@ + "/nest-cli"@);
            }
            Ok(dir)
        },
    }
}

/// The token file the authenticator persists to, inside the config directory.
pub fn token_path() -> (r: Result<String, CliError>)
    ensures
        r is Ok ==> (exists|b: Seq<char>| r->Ok_0@ == b + "/nest-cli/tokens.json"@),
        r is Err ==> r->Err_0 is IoError,
{
    match config_dir() {
        Err(e) => Err(e),
        Ok(dir) => {
            let p = join_path(dir.as_str(), "tokens.json");
            proof {
                reveal_strlit("/nest-cli");
                reveal_strlit("/");
                reveal_strlit("tokens.json");
                reveal_strlit("/nest-cli/tokens.json");
                assert("/nest-cli"@ + "/"@ + "tokens.json"@ =~= "/nest-cli/tokens.json"@);
                let b0 = choose|b0: Seq<char>| dir@ == b0 + "/nest-cli"@;
                assert(p@ =~= b0 + "/nest-cli/tokens.json"@);
            }
            Ok(p)
        },
    }
}

/// The stored copy of the client registration, inside the config directory.
pub fn client_secret_path() -> (r: Result<String, CliError>)
    ensures
        r is Ok ==> (exists|b: Seq<char>| r->Ok_0@ == b + "/nest-cli/client_secret.json"@),
        r is Err ==> r->Err_0 is IoError,
{
    match config_dir() {
        Err(e) => Err(e),
        Ok(dir) => {
            let p = join_path(dir.as_str(), "client_secret.json");
            proof {
                reveal_strlit("/nest-cli");
                reveal_strlit("/");
                reveal_strlit("client_secret.json");
                reveal_strlit("/nest-cli/client_secret.json");
                assert("/nest-cli"@ + "/"@ + "client_secret.json"@
                    =~= "/nest-cli/client_secret.json"@);
                let b0 = choose|b0: Seq<char>| dir@ == b0 + "/nest-cli"@;
                assert(p@ =~= b0 + "/nest-cli/client_secret.json"@);
            }
            Ok(p)
        },
    }
}

/// The stored project identifier, inside the config directory.
pub fn project_id_path() -> (r: Result<String, CliError>)
    ensures
        r is Ok ==> (exists|b: Seq<char>| r->Ok_0@ == b + "/nest-cli/project_id"@),
        r is Err ==> r->Err_0 is IoError,
{
    match config_dir() {
        Err(e) => Err(e),
        Ok(dir) => {
            let p = join_path(dir.as_str(), "project_id");
            proof {
                reveal_strlit("/nest-cli");
                reveal_strlit("/");
                reveal_strlit("project_id");
                reveal_strlit("/nest-cli/project_id");
                assert("/nest-cli"@ + "/"@ + "project_id"@ =~= "/nest-cli/project_id"@);
                let b0 = choose|b0: Seq<char>| dir@ == b0 + "/nest-cli"@;
                assert(p@ =~= b0 + "/nest-cli/project_id"@);
            }
            Ok(p)
        },
    }
}

} // verus!
