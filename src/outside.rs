use vstd::prelude::*;

verus! {

/// Relies on `uuid::Uuid::new_v4` and its `Display`: a random version-4 UUID
/// written in the hyphenated form, which is always 36 characters long.
#[verifier::external_body]
pub(crate) fn random_token() -> (r: String)
    ensures
        r@.len() == 36,
{
    uuid::Uuid::new_v4().to_string()
}

/// Relies on `time::Duration::weeks` and `whole_seconds`: a week is 604800
/// seconds. The bound keeps `weeks` clear of its overflow panic.
#[verifier::external_body]
pub(crate) fn weeks_in_seconds(weeks: i64) -> (r: i64)
    requires
        0 <= weeks <= 1000,
    ensures
        r == weeks * 604800,
{
    time::Duration::weeks(weeks).whole_seconds()
}

} // verus!
