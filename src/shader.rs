use vstd::prelude::*;

verus! {

/// The error when the backend hands out no shader or program object.
pub open spec fn creation_failure_text() -> Seq<char> {
    "Unable to create shader object"@
}

/// The error when a shader did not compile and the backend gave no log.
pub open spec fn compile_failure_text() -> Seq<char> {
    "Unknown error creating shader"@
}

/// The error when a program did not link and the backend gave no log.
pub open spec fn link_failure_text() -> Seq<char> {
    "Unknown error creating program object"@
}

/// The outcome of a setup step: `Ok` when the backend reported success
/// (`status` is `Some(true)`); otherwise the backend's log as the error, or
/// `fallback` when it gave none.
pub open spec fn step_outcome<H>(
    handle: H,
    status: Option<bool>,
    log: Option<String>,
    fallback: Seq<char>,
    r: Result<H, String>,
) -> bool {
    if status == Some(true) {
        r == Ok::<H, String>(handle)
    } else {
        match r {
            Ok(_) => false,
            Err(e) => match log {
                Some(l) => e == l,
                None => e@ == fallback,
            },
        }
    }
}

/// Takes the object that the backend created, or fails: a missing object is
/// fatal to the viewport.
pub fn created<H>(handle: Option<H>) -> (r: Result<H, String>)
    ensures
        handle is Some ==> r == Ok::<H, String>(handle->0),
        handle is None ==> (r is Err && r->Err_0@ == creation_failure_text()),
{
    match handle {
        Some(h) => Ok(h),
        None => Err("Unable to create shader object".to_owned()),
    }
}

fn outcome<H>(handle: H, status: Option<bool>, log: Option<String>, fallback: &str) -> (r: Result<
    H,
    String,
>)
    ensures
        step_outcome(handle, status, log, fallback@, r),
{
    let ok = match status {
        Some(b) => b,
        None => false,
    };
    if ok {
        Ok(handle)
    } else {
        match log {
            Some(l) => Err(l),
            None => Err(fallback.to_owned()),
        }
    }
}

/// Judges a compiled shader by the compile status and info log that the
/// backend reports for it.
pub fn compile_result<H>(shader: H, status: Option<bool>, log: Option<String>) -> (r: Result<
    H,
    String,
>)
    ensures
        step_outcome(shader, status, log, compile_failure_text(), r),
{
    outcome(shader, status, log, "Unknown error creating shader")
}

/// Judges a linked program by the link status and info log that the backend
/// reports for it.
pub fn link_result<H>(program: H, status: Option<bool>, log: Option<String>) -> (r: Result<
    H,
    String,
>)
    ensures
        step_outcome(program, status, log, link_failure_text(), r),
{
    outcome(program, status, log, "Unknown error creating program object")
}

} // verus!
