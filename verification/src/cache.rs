//! What a cache read hands back, and whether it can answer a query.
use vstd::prelude::*;

verus! {

/// Checks a value read from the cache: an empty value counts as a miss, with
/// the error "empty cache"; a failed read is passed on; anything else is served.
pub fn validate_cache(reply: Result<Vec<u8>, String>) -> (r: Result<Vec<u8>, String>)
    ensures
        match reply {
            Ok(bytes) => if bytes@.len() == 0 {
                r matches Err(e) && e@ == "empty cache"@
            } else {
                r == Ok::<Vec<u8>, String>(bytes)
            },
            Err(e) => r == Err::<Vec<u8>, String>(e),
        },
{
    match reply {
        Ok(bytes) => {
            if bytes.len() == 0 {
                Err(String::from_str("empty cache"))
            } else {
                Ok(bytes)
            }
        },
        Err(e) => Err(e),
    }
}

/// Passes an error message on unchanged.
pub fn map_err(err: &str) -> (r: String)
    ensures
        r@ == err@,
{
    String::from_str(err)
}

} // verus!
