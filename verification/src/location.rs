//! The location resolver's fallback chain.
//!
//! The location database hands back, at best, a localized-names mapping
//! for the city of a client address.  The caller flattens whatever it
//! got into an optional list of (locale, name) entries, in the store's
//! own iteration order; this module turns that into a printable place
//! name that is never absent.

use vstd::prelude::*;

verus! {

/// The fallback fake location for when the lookup yields no usable name.
pub open spec fn fallback_city() -> Seq<char> {
    "your area"@
}

/// The configured fallback string, as an owned value.
pub fn default_city() -> (r: String)
    ensures
        r@ == fallback_city(),
{
    String::from_str("your area")
}

/// Pick the display name from a flattened lookup result: the name of
/// the first entry when there is one, and exactly the configured
/// fallback string whenever the lookup failed, found no city, or found
/// an empty names mapping.  Total: it never fails.
pub fn resolve_location(names: Option<Vec<(String, String)>>) -> (r: String)
    ensures
        names is None ==> r@ == fallback_city(),
        names is Some && names->Some_0@.len() == 0 ==> r@ == fallback_city(),
        names is Some && names->Some_0@.len() > 0 ==> r@ == names->Some_0@[0].1@,
{
    match names {
        None => default_city(),
        Some(entries) => {
            if entries.len() == 0 {
                default_city()
            } else {
                let first = &entries[0];
                String::from_str(first.1.as_str())
            }
        },
    }
}

} // verus!
