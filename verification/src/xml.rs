use vstd::prelude::*;

verus! {

/// One node of a parsed XML document, holding exactly what the feed
/// extraction reads: the local tag name, the declared namespace URI, the
/// text content, the attributes (local name and value, in document order),
/// and the child nodes in document order.
///
/// Non-element nodes (text, comments) appear with an empty `name` and no
/// namespace, so that dispatch by tag name passes over them.
#[derive(Debug)]
pub struct XmlNode {
    pub name: String,
    pub namespace: Option<String>,
    pub text: Option<String>,
    pub attrs: Vec<(String, String)>,
    pub children: Vec<XmlNode>,
}

/// The text content of a node, as a sequence of characters.
pub open spec fn spec_text(n: XmlNode) -> Option<Seq<char>> {
    match n.text {
        Some(t) => Some(t@),
        None => None,
    }
}

/// The value of the first attribute at or after position `i` whose local
/// name is `name`.
pub open spec fn attr_scan(attrs: Seq<(String, String)>, name: Seq<char>, i: int) -> Option<
    Seq<char>,
>
    decreases attrs.len() - i,
{
    if i < 0 || i >= attrs.len() {
        None
    } else if attrs[i].0@ == name {
        Some(attrs[i].1@)
    } else {
        attr_scan(attrs, name, i + 1)
    }
}

/// The value of the first attribute of `n` whose local name is `name`.
pub open spec fn spec_attr(n: XmlNode, name: Seq<char>) -> Option<Seq<char>> {
    attr_scan(n.attrs@, name, 0)
}

/// Looks up an attribute of `n` by local name; the first match wins.
pub fn attr<'a>(n: &'a XmlNode, name: &str) -> (r: Option<&'a String>)
    ensures
        match r {
            Some(v) => spec_attr(*n, name@) == Some(v@),
            None => spec_attr(*n, name@) is None,
        },
{
    let mut i: usize = 0;
    while i < n.attrs.len()
        invariant
            i <= n.attrs.len(),
            attr_scan(n.attrs@, name@, i as int) == spec_attr(*n, name@),
        decreases n.attrs@.len() - i,
    {
        if n.attrs[i].0 == name.to_owned() {
            return Some(&n.attrs[i].1);
        }
        i += 1;
    }
    None
}

/// The first descendant of `n` (including `n` itself, in document order)
/// whose local name is `channel`.
pub open spec fn spec_find_channel(n: XmlNode) -> Option<XmlNode>
    decreases n, 0int,
{
    if n.name@ == "channel"@ {
        Some(n)
    } else {
        spec_find_from(n.children@, 0)
    }
}

/// The first `channel` descendant found within `s[i..]`, in document order.
pub open spec fn spec_find_from(s: Seq<XmlNode>, i: int) -> Option<XmlNode>
    decreases s, s.len() - i,
{
    if i < 0 || i >= s.len() {
        None
    } else {
        match spec_find_channel(s[i]) {
            Some(c) => Some(c),
            None => spec_find_from(s, i + 1),
        }
    }
}

/// Pre-order search for the first descendant named `channel`.
pub fn find_channel<'a>(n: &'a XmlNode) -> (r: Option<&'a XmlNode>)
    ensures
        match r {
            Some(c) => spec_find_channel(*n) == Some(*c),
            None => spec_find_channel(*n) is None,
        },
    decreases *n,
{
    if n.name == "channel".to_owned() {
        return Some(n);
    }
    let mut i: usize = 0;
    while i < n.children.len()
        invariant
            i <= n.children.len(),
            n.name@ != "channel"@,
            spec_find_from(n.children@, i as int) == spec_find_channel(*n),
        decreases n.children@.len() - i,
    {
        let found = find_channel(&n.children[i]);
        match found {
            Some(c) => {
                return Some(c);
            },
            None => {},
        }
        i += 1;
    }
    None
}

#[verifier::external_type_specification]
#[verifier::external_body]
pub struct ExNode<'a, 'input: 'a>(roxmltree::Node<'a, 'input>);

/// What parsing a document yields: `None` when the text is not well-formed
/// XML, and otherwise the root node of the document tree. Whether a text
/// parses, and what tree it parses to, depend on the text alone.
pub uninterp spec fn xml_tree_of(s: Seq<char>) -> Option<XmlNode>;

/// Relies on roxmltree: copies one node of its document tree, with all of
/// its descendants, into the library's own representation. Reads the local
/// tag name, the namespace URI, the text content, the attributes in
/// document order, and the children in document order.
#[verifier::external_body]
fn node_to_tree(n: roxmltree::Node<'_, '_>) -> XmlNode {
    XmlNode {
        name: n.tag_name().name().to_string(),
        namespace: n.tag_name().namespace().map(|s| s.to_string()),
        text: n.text().map(|s| s.to_string()),
        attrs: n.attributes().map(|a| (a.name().to_string(), a.value().to_string())).collect(),
        children: n.children().map(|c| node_to_tree(c)).collect(),
    }
}

/// Relies on roxmltree::Document::parse: it returns `Err` exactly when the
/// text is not well-formed XML, and otherwise a tree of the document's
/// nodes in document order, which is copied out node by node.
#[verifier::external_body]
pub(crate) fn parse_xml(content: &str) -> (r: Option<XmlNode>)
    ensures
        r == xml_tree_of(content@),
{
    match roxmltree::Document::parse(content) {
        Ok(doc) => Some(node_to_tree(doc.root())),
        Err(_) => None,
    }
}

} // verus!
