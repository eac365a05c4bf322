use vstd::prelude::*;

use crate::xml::{spec_attr, XmlNode};

verus! {

/// The Atom namespace URI.
pub const NAMESPACE: &'static str = "http://www.w3.org/2005/Atom";

/// Whether a node declares the Atom namespace.
pub open spec fn spec_is_atom(n: XmlNode) -> bool {
    match n.namespace {
        Some(ns) => ns@ == NAMESPACE@,
        None => false,
    }
}

/// Whether a node declares the Atom namespace.
pub fn is_atom(n: &XmlNode) -> (r: bool)
    ensures
        r == spec_is_atom(*n),
{
    match &n.namespace {
        Some(ns) => *ns == NAMESPACE.to_owned(),
        None => false,
    }
}

/// The value the Atom resolver extracts from an element: its `href`
/// attribute, if present.
pub open spec fn spec_value(n: XmlNode) -> Option<Seq<char>> {
    spec_attr(n, "href"@)
}

#[derive(Debug, Default, Clone)]
pub struct AtomExtension {}

impl AtomExtension {
    /// Extracts the `href` attribute of an Atom element, if present.
    pub fn get_value(element: &XmlNode) -> (r: Option<String>)
        ensures
            match r {
                Some(v) => spec_value(*element) == Some(v@),
                None => spec_value(*element) is None,
            },
    {
        match crate::xml::attr(element, "href") {
            Some(v) => Some(v.clone()),
            None => None,
        }
    }
}

} // verus!
