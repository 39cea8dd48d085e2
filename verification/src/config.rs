//! Startup configuration: the cluster connection string and the credentials
//! it is assembled from. A failure here is fatal by design — the caller must
//! not bring the service up on a partial configuration.

use vstd::prelude::*;
use crate::response::AppError;

verus! {

/// The connection string for a credential pair: the `mongodb+srv` scheme,
/// the credentials, and the fixed cluster host and write options.
pub open spec fn connection_string(username: Seq<char>, password: Seq<char>) -> Seq<char> {
    "mongodb+srv://"@ + username + ":"@ + password
        + "@cluster0.n7uefol.mongodb.net/?retryWrites=true&w=majority"@
}

/// Assemble the cluster connection string from the two credentials.
pub fn build_connection_string(username: &str, password: &str) -> (r: String)
    ensures
        r@ == connection_string(username@, password@),
{
    let mut out = String::from_str("mongodb+srv://");
    out.append(username);
    out.append(":");
    out.append(password);
    out.append("@cluster0.n7uefol.mongodb.net/?retryWrites=true&w=majority");
    out
}

/// Decide the startup outcome from the credentials the environment offered:
/// the connection string when both are present, and the missing one's fixed
/// description otherwise — the username is checked first.
pub fn startup_uri(username: Option<String>, password: Option<String>) -> (r: Result<
    String,
    AppError,
>)
    ensures
        match (username, password) {
            (Option::None, _) => r is Err && r->Err_0.message@ == "Failed to get db username"@,
            (Option::Some(_), Option::None) => r is Err && r->Err_0.message@
                == "Failed to get db password"@,
            (Option::Some(u), Option::Some(p)) => r is Ok && r->Ok_0@ == connection_string(
                u@,
                p@,
            ),
        },
{
    match (username, password) {
        (Option::None, _) => Err(AppError::new(String::from_str("Failed to get db username"))),
        (Option::Some(_), Option::None) => Err(
            AppError::new(String::from_str("Failed to get db password")),
        ),
        (Option::Some(u), Option::Some(p)) => Ok(
            build_connection_string(u.as_str(), p.as_str()),
        ),
    }
}

/// The application name attached to the database connection, for the
/// database side's observability.
pub fn app_name() -> (r: String)
    ensures
        r@ == "My App"@,
{
    String::from_str("My App")
}

/// The fixed database the service uses.
pub fn database_name() -> (r: String)
    ensures
        r@ == "test_it_out"@,
{
    String::from_str("test_it_out")
}

/// The fixed collection the records live in.
pub fn collection_name() -> (r: String)
    ensures
        r@ == "user"@,
{
    String::from_str("user")
}

} // verus!
