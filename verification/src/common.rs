//! Conversions of text handles that the backends share.
use vstd::prelude::*;

pub mod windows;

verus! {

/// An owned copy of an optional borrowed text; an absent text stays absent.
pub(crate) fn owned(text: Option<&str>) -> (copy: Option<String>)
    ensures
        copy.deep_view() == text.deep_view(),
{
    match text {
        Some(t) => Some(t.to_owned()),
        None => None,
    }
}

/// A second copy of an optional text; an absent text stays absent.
pub(crate) fn duplicate(text: &Option<String>) -> (copy: Option<String>)
    ensures
        copy.deep_view() == text.deep_view(),
{
    match text {
        Some(t) => Some(t.clone()),
        None => None,
    }
}

} // verus!
