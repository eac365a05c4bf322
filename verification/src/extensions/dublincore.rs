use vstd::prelude::*;

use crate::xml::{spec_text, XmlNode};

verus! {

/// The Dublin Core namespace URI.
pub const NAMESPACE: &'static str = "http://purl.org/dc/elements/1.1/";

/// Whether a node declares the Dublin Core namespace.
pub open spec fn spec_is_dublincore(n: XmlNode) -> bool {
    match n.namespace {
        Some(ns) => ns@ == NAMESPACE@,
        None => false,
    }
}

/// Whether a node declares the Dublin Core namespace.
pub fn is_dublincore(n: &XmlNode) -> (r: bool)
    ensures
        r == spec_is_dublincore(*n),
{
    match &n.namespace {
        Some(ns) => *ns == NAMESPACE.to_owned(),
        None => false,
    }
}

/// The value the Dublin Core resolver extracts from an element: its text
/// content, if present.
pub open spec fn spec_value(n: XmlNode) -> Option<Seq<char>> {
    spec_text(n)
}

#[derive(Debug, Default, Clone)]
pub struct DublinCoreExtension {}

impl DublinCoreExtension {
    /// Extracts the text content of a Dublin Core element, if present.
    pub fn get_value(element: &XmlNode) -> (r: Option<String>)
        ensures
            match r {
                Some(v) => spec_value(*element) == Some(v@),
                None => spec_value(*element) is None,
            },
    {
        match &element.text {
            Some(t) => Some(t.clone()),
            None => None,
        }
    }
}

} // verus!
