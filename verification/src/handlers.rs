//! The two request handlers, as decisions over what the database driver
//! reported. The asynchronous call itself happens outside this crate; each
//! handler takes the call's outcome as a plain value and is proved to build
//! the exact reply the service sends for it.

use vstd::prelude::*;
use crate::person::{person_json, Person};
use crate::response::{error_body, AppError, HttpResponse};

verus! {

/// The lookup reply for a name: `Hello, {name}!`.
pub open spec fn greeting(name: Seq<char>) -> Seq<char> {
    "Hello, "@ + name + "!"@
}

/// The fixed description a failed database read is reported under.
pub open spec fn lookup_error_message() -> Seq<char> {
    "Failed to get collection."@
}

/// Decide the lookup's handler result from what the driver's single
/// `find_one` returned: greet the found record's name; greet the literal
/// `None` when no record matched, which is not an error; fail when the read
/// itself failed. A failed read is reported under the lookup's fixed
/// description alone — the reply names the step that failed, not the
/// driver's own message.
pub fn root(found: Result<Option<Person>, String>) -> (r: Result<String, AppError>)
    ensures
        match found {
            Ok(Some(p)) => r is Ok && r->Ok_0@ == greeting(p@),
            Ok(None) => r is Ok && r->Ok_0@ == greeting("None"@),
            Err(_) => r is Err && r->Err_0.message@ == lookup_error_message(),
        },
{
    match found {
        Ok(Some(person)) => {
            let mut out = String::from_str("Hello, ");
            out.append(person.name.as_str());
            out.append("!");
            Ok(out)
        },
        Ok(None) => {
            let mut out = String::from_str("Hello, ");
            out.append("None");
            out.append("!");
            Ok(out)
        },
        Err(_) => Err(AppError::new(String::from_str("Failed to get collection."))),
    }
}

/// What came of dispatching the insert and waiting out the deadline. The
/// failing outcomes each carry the description the driver or the runtime
/// gave for them.
#[derive(Debug, Clone)]
pub enum CreateOutcome {
    /// The insert finished within the deadline and succeeded.
    Inserted,
    /// The insert finished within the deadline and the driver reported an
    /// error.
    InsertFailed(String),
    /// The deadline elapsed first. Whether the abandoned write still lands
    /// is deliberately left unresolved; the caller is told only that the
    /// operation did not finish in time.
    TimedOut(String),
    /// The task running the insert failed before it could finish.
    TaskFailed(String),
}

/// The description each unsuccessful outcome carries.
pub open spec fn create_failure_message(outcome: CreateOutcome) -> Seq<char> {
    match outcome {
        CreateOutcome::Inserted => Seq::empty(),
        CreateOutcome::InsertFailed(m) => m@,
        CreateOutcome::TimedOut(m) => m@,
        CreateOutcome::TaskFailed(m) => m@,
    }
}

/// Decide the create's handler result: a created status echoing the new
/// record exactly when the insert finished in time and succeeded, and the
/// outcome's own failure otherwise — the three ways of failing are not told
/// apart any further.
pub fn create_user(name: String, outcome: &CreateOutcome) -> (r: Result<(u16, Person), AppError>)
    ensures
        outcome is Inserted ==> r is Ok && r->Ok_0.0 == crate::STATUS_CREATED && r->Ok_0.1@
            == name@,
        !(outcome is Inserted) ==> r is Err && r->Err_0.message@ == create_failure_message(
            *outcome,
        ),
{
    match outcome {
        CreateOutcome::Inserted => Ok((crate::STATUS_CREATED, Person { name })),
        CreateOutcome::InsertFailed(m) => Err(AppError::new(m.clone())),
        CreateOutcome::TimedOut(m) => Err(AppError::new(m.clone())),
        CreateOutcome::TaskFailed(m) => Err(AppError::new(m.clone())),
    }
}

/// The HTTP reply of the lookup route as sent on the wire: status 200 with
/// the greeting whenever the read worked, whether or not a record matched,
/// and a described server error otherwise.
pub fn lookup_response(found: Result<Option<Person>, String>) -> (r: HttpResponse)
    ensures
        match found {
            Ok(Some(p)) => r.status == crate::STATUS_OK && r.body@ == greeting(p@),
            Ok(None) => r.status == crate::STATUS_OK && r.body@ == greeting("None"@),
            Err(_) => r.status == crate::STATUS_INTERNAL_SERVER_ERROR && r.body@ == error_body(
                lookup_error_message(),
            ) && r.body@.len() > 0,
        },
{
    match root(found) {
        Ok(body) => HttpResponse { status: crate::STATUS_OK, body },
        Err(e) => e.into_response(),
    }
}

/// The HTTP reply of the create route as sent on the wire: status 201 with
/// the record echoed as JSON when the insert finished in time and succeeded,
/// and a described server error otherwise — also when the deadline elapsed.
pub fn create_response(name: String, outcome: &CreateOutcome) -> (r: HttpResponse)
    ensures
        outcome is Inserted ==> r.status == crate::STATUS_CREATED && r.body@ == person_json(
            name@,
        ),
        !(outcome is Inserted) ==> r.status == crate::STATUS_INTERNAL_SERVER_ERROR && r.body@
            == error_body(create_failure_message(*outcome)) && r.body@.len() > 0,
{
    match create_user(name, outcome) {
        Ok((status, person)) => {
            let body = person.to_json();
            HttpResponse { status, body }
        },
        Err(e) => e.into_response(),
    }
}

} // verus!
