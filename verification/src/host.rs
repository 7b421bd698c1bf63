use vstd::prelude::*;

verus! {

/// Relies on sys_info::hostname: the machine's name, when the OS can
/// deliver it.
#[verifier::external_body]
fn lookup_hostname() -> (r: Option<String>) {
    match sys_info::hostname() {
        Ok(name) => Some(name),
        Err(_) => None,
    }
}

/// The hostname to report: the looked-up name when there is one, else the
/// fixed placeholder. A failed lookup is the one non-fatal failure of the
/// harness.
pub fn resolve_hostname(looked_up: Option<String>) -> (r: String)
    ensures
        looked_up matches Some(name) ==> r == name,
        looked_up is None ==> r@ == "unkown"@,
{
    match looked_up {
        Some(name) => name,
        None => "unkown".to_owned(),
    }
}

/// The machine's name, best effort: a failed lookup substitutes the fixed
/// placeholder and is not an error.
pub fn hostname_or_default() -> (r: String) {
    resolve_hostname(lookup_hostname())
}

} // verus!
