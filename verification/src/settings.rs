//! Values read from the configuration, with the default that is written back
//! when the configuration holds none.
use vstd::prelude::*;

verus! {

/// A setting's value, and whether it is the default that is to be stored
/// because the configuration held no value.
pub struct Resolved<T> {
    pub value: T,
    pub store_default: bool,
}

/// The text that a setting takes: the given one when it is not empty, else
/// the stored one, else the default.
pub open spec fn text_value(given: Seq<char>, stored: Option<String>, default: Seq<char>) -> Seq<
    char,
> {
    if given.len() > 0 {
        given
    } else {
        stored_text(stored, default)
    }
}

/// The stored text of a setting, else the default.
pub open spec fn stored_text(stored: Option<String>, default: Seq<char>) -> Seq<char> {
    match stored {
        Some(s) => s@,
        None => default,
    }
}

/// A text setting that is only stored: the stored value, else `default`,
/// which is then to be stored.
pub fn stored_setting(stored: Option<String>, default: &str) -> (r: Resolved<String>)
    ensures
        r.value@ == stored_text(stored, default@),
        r.store_default == (stored is None),
{
    match stored {
        Some(s) => Resolved { value: s, store_default: false },
        None => Resolved { value: default.to_owned(), store_default: true },
    }
}

/// A text setting: `given` when it is not empty; else the stored value;
/// else `default`, which is then to be stored.
pub fn text_setting(given: &str, stored: Option<String>, default: &str) -> (r: Resolved<String>)
    ensures
        r.value@ == text_value(given@, stored, default@),
        r.store_default == (given@.len() == 0 && stored is None),
{
    if !given.is_empty() {
        Resolved { value: given.to_owned(), store_default: false }
    } else {
        stored_setting(stored, default)
    }
}

/// A switch: the stored value, else `default`, which is then to be stored.
pub fn flag_setting(stored: Option<bool>, default: bool) -> (r: Resolved<bool>)
    ensures
        r.value == match stored {
            Some(b) => b,
            None => default,
        },
        r.store_default == (stored is None),
{
    match stored {
        Some(b) => Resolved { value: b, store_default: false },
        None => Resolved { value: default, store_default: true },
    }
}

} // verus!
