use vstd::prelude::*;

verus! {

/// Relies on std: `SystemTime::now` and `duration_since(UNIX_EPOCH)`. The
/// wall clock's milliseconds since the Unix epoch; nothing can be promised
/// of the value, callers state what holds whatever stamp comes back.
#[verifier::external_body]
pub fn now_millis() -> u64 {
    match std::time::SystemTime::now().duration_since(std::time::UNIX_EPOCH) {
        Ok(d) => d.as_millis() as u64,
        Err(_) => 0,
    }
}

} // verus!
