//! Text forms of field values.
use vstd::prelude::*;
use vstd::string::to_string_from_display_ensures;

verus! {

/// Reads a text field in which an empty string stands for no value: the
/// text is kept only when it is present and not empty.
pub fn empty_string_as_none(value: Option<String>) -> (r: Option<String>)
    ensures
        r == (if value matches Some(s) && s@.len() > 0 {
            value
        } else {
            None
        }),
{
    match value {
        Some(s) => {
            if s.as_str().is_empty() {
                None
            } else {
                Some(s)
            }
        },
        None => None,
    }
}

/// The text form of a value, as its `Display` impl writes it.
pub fn se_str<T: std::fmt::Display + ?Sized>(t: &T) -> (r: String)
    ensures
        to_string_from_display_ensures::<T>(t, r),
{
    t.to_string()
}

} // verus!
