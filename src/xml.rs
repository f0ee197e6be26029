//! A value that travels as an XML document.
use vstd::prelude::*;

verus! {

/// A request or response body that is read or written as XML.
#[derive(Debug)]
pub struct Xml<T>(pub T);

} // verus!
