use vstd::prelude::*;

verus! {

/// The current time in whole seconds since the Unix epoch; 0 when the system
/// clock reads earlier than the epoch.
/// Relies on `SystemTime::UNIX_EPOCH.elapsed`; nothing is known of the value.
#[verifier::external_body]
pub fn unixepoch() -> (r: i64) {
    match std::time::SystemTime::UNIX_EPOCH.elapsed() {
        Ok(d) => d.as_secs() as i64,
        Err(_) => 0,
    }
}

/// Relies on `rand::random`, which draws from the thread-local generator;
/// nothing is known of the value.
pub assume_specification<T>[ rand::random::<T> ]() -> (r: T)
    where
        rand::distributions::Standard: rand::distributions::Distribution<T>,
;

} // verus!
