use vstd::prelude::*;

use crate::extensions::atom;
use crate::xml::{spec_text, XmlNode};
use crate::{channel_scan, item_scan, spec_channel_of, spec_item_of, ItemModel};

verus! {

/// Whether a channel child contributes an item: its local name is `item`.
pub open spec fn is_item_child() -> spec_fn(XmlNode) -> bool {
    |e: XmlNode| e.name@ == "item"@
}

/// The item model a channel child yields.
pub open spec fn item_model_of() -> spec_fn(XmlNode) -> ItemModel {
    |e: XmlNode| spec_item_of(e)
}

/// Whether an item child contributes a category: its local name is
/// `category` and it has text content.
pub open spec fn is_category_child() -> spec_fn(XmlNode) -> bool {
    |e: XmlNode| e.name@ == "category"@ && spec_text(e) is Some
}

/// The category a qualifying item child yields: its text content.
pub open spec fn category_of() -> spec_fn(XmlNode) -> Seq<char> {
    |e: XmlNode| spec_text(e)->0
}

/// Whether a channel child sets the extension link: a `link` element in
/// the Atom namespace carrying an `href` attribute.
pub open spec fn sets_extension_link(e: XmlNode) -> bool {
    e.name@ == "link"@ && atom::spec_is_atom(e) && atom::spec_value(e) is Some
}

/// Whether a channel child sets the plain link: a `link` element with
/// text content that does not set the extension link.
pub open spec fn sets_plain_link(e: XmlNode) -> bool {
    e.name@ == "link"@ && !sets_extension_link(e) && spec_text(e) is Some
}

/// The local tag names the extraction dispatches on are pairwise
/// distinct, so no element reaches more than one dispatch arm.
pub proof fn lemma_tag_names_distinct()
    ensures
        "title"@ != "description"@,
        "title"@ != "link"@,
        "title"@ != "item"@,
        "title"@ != "encoded"@,
        "title"@ != "category"@,
        "description"@ != "link"@,
        "description"@ != "item"@,
        "description"@ != "encoded"@,
        "description"@ != "category"@,
        "link"@ != "item"@,
        "link"@ != "encoded"@,
        "link"@ != "category"@,
        "item"@ != "encoded"@,
        "item"@ != "category"@,
        "encoded"@ != "category"@,
{
    reveal_strlit("title");
    reveal_strlit("description");
    reveal_strlit("link");
    reveal_strlit("item");
    reveal_strlit("category");
    reveal_strlit("encoded");
    assert("title"@.len() == 5);
    assert("description"@.len() == 11);
    assert("link"@.len() == 4);
    assert("item"@.len() == 4);
    assert("category"@.len() == 8);
    assert("encoded"@.len() == 7);
    assert("link"@[0] == 'l');
    assert("item"@[0] == 'i');
}

/// A `title` child with text content sets the channel's title, and the
/// last such occurrence wins.
pub proof fn lemma_channel_title(children: Seq<XmlNode>, n: int, i: int, t: Seq<char>)
    requires
        0 <= i < n <= children.len(),
        children[i].name@ == "title"@,
        spec_text(children[i]) == Some(t),
        forall|j: int|
            i < j < n && (#[trigger] children[j]).name@ == "title"@ ==> spec_text(children[j])
                is None,
    ensures
        channel_scan(children, n).title == t,
    decreases n,
{
    if i < n - 1 {
        lemma_channel_title(children, n - 1, i, t);
        assert(children[n - 1].name@ == "title"@ ==> spec_text(children[n - 1]) is None);
    }
}

/// A `description` child with text content sets the channel's
/// description, and the last such occurrence wins.
pub proof fn lemma_channel_description(children: Seq<XmlNode>, n: int, i: int, t: Seq<char>)
    requires
        0 <= i < n <= children.len(),
        children[i].name@ == "description"@,
        spec_text(children[i]) == Some(t),
        forall|j: int|
            i < j < n && (#[trigger] children[j]).name@ == "description"@ ==> spec_text(
                children[j],
            ) is None,
    ensures
        channel_scan(children, n).description == t,
    decreases n,
{
    lemma_tag_names_distinct();
    if i < n - 1 {
        lemma_channel_description(children, n - 1, i, t);
        assert(children[n - 1].name@ == "description"@ ==> spec_text(children[n - 1]) is None);
    }
}

/// A channel holding a `<title>` with text `t` and a `<description>` with
/// text `d` (each the last of its tag with text) is extracted with
/// exactly that title and description.
pub proof fn lemma_title_description_extracted(node: XmlNode, i: int, j: int, t: Seq<char>, d: Seq<
    char,
>)
    requires
        0 <= i < node.children@.len(),
        0 <= j < node.children@.len(),
        node.children@[i].name@ == "title"@,
        spec_text(node.children@[i]) == Some(t),
        node.children@[j].name@ == "description"@,
        spec_text(node.children@[j]) == Some(d),
        forall|k: int|
            i < k < node.children@.len() && (#[trigger] node.children@[k]).name@ == "title"@
                ==> spec_text(node.children@[k]) is None,
        forall|k: int|
            j < k < node.children@.len() && (#[trigger] node.children@[k]).name@ == "description"@
                ==> spec_text(node.children@[k]) is None,
    ensures
        spec_channel_of(node).title == t,
        spec_channel_of(node).description == d,
{
    lemma_channel_title(node.children@, node.children@.len() as int, i, t);
    lemma_channel_description(node.children@, node.children@.len() as int, j, d);
}

/// Helper for the laws on items: scanning a prefix with no `item` child
/// yields no items.
pub proof fn lemma_no_items_scan(children: Seq<XmlNode>, n: int)
    requires
        0 <= n <= children.len(),
        forall|j: int| 0 <= j < n ==> (#[trigger] children[j]).name@ != "item"@,
    ensures
        channel_scan(children, n).items == Seq::<ItemModel>::empty(),
    decreases n,
{
    if n > 0 {
        lemma_no_items_scan(children, n - 1);
    }
}

/// A channel with no `item` child is extracted with an empty item
/// sequence: the sequence is present and empty, never absent.
pub proof fn lemma_no_item_children_no_items(node: XmlNode)
    requires
        forall|j: int|
            0 <= j < node.children@.len() ==> (#[trigger] node.children@[j]).name@ != "item"@,
    ensures
        spec_channel_of(node).items == Seq::<ItemModel>::empty(),
{
    lemma_no_items_scan(node.children@, node.children@.len() as int);
}

/// Scanning the first `n` channel children yields exactly one item per
/// `item` child among them, in document order.
pub proof fn lemma_items_scan_in_document_order(children: Seq<XmlNode>, n: int)
    requires
        0 <= n <= children.len(),
    ensures
        channel_scan(children, n).items == children.take(n).filter(is_item_child()).map_values(
            item_model_of(),
        ),
    decreases n,
{
    lemma_tag_names_distinct();
    reveal_with_fuel(Seq::<XmlNode>::filter, 1);
    if n == 0 {
        assert(children.take(0).len() == 0);
        assert(channel_scan(children, 0).items =~= children.take(0).filter(
            is_item_child(),
        ).map_values(item_model_of()));
    } else {
        lemma_items_scan_in_document_order(children, n - 1);
        assert(children.take(n).drop_last() =~= children.take(n - 1));
        assert(children.take(n).last() == children[n - 1]);
        assert(channel_scan(children, n).items =~= children.take(n).filter(
            is_item_child(),
        ).map_values(item_model_of()));
    }
}

/// A channel's items are exactly the models of its `item` children, one
/// each, in document order: with N buildable `<item>` children the
/// extracted sequence has length N and preserves their order.
pub proof fn lemma_items_in_document_order(node: XmlNode)
    ensures
        spec_channel_of(node).items == node.children@.filter(is_item_child()).map_values(
            item_model_of(),
        ),
        spec_channel_of(node).items.len() == node.children@.filter(is_item_child()).len(),
{
    let children = node.children@;
    lemma_items_scan_in_document_order(children, children.len() as int);
    assert(children.take(children.len() as int) =~= children);
}

/// A `link` child in the Atom namespace with an `href` attribute sets the
/// channel's extension link, and the last such occurrence wins.
pub proof fn lemma_channel_extension_link(children: Seq<XmlNode>, n: int, i: int, h: Seq<char>)
    requires
        0 <= i < n <= children.len(),
        sets_extension_link(children[i]),
        atom::spec_value(children[i]) == Some(h),
        forall|j: int| i < j < n ==> !sets_extension_link(#[trigger] children[j]),
    ensures
        channel_scan(children, n).atom == Some(h),
    decreases n,
{
    lemma_tag_names_distinct();
    if i < n - 1 {
        lemma_channel_extension_link(children, n - 1, i, h);
        assert(!sets_extension_link(children[n - 1]));
    }
}

/// A `link` child outside the Atom-`href` form whose text is present sets
/// the channel's plain link, and the last such occurrence wins.
pub proof fn lemma_channel_plain_link(children: Seq<XmlNode>, n: int, i: int, t: Seq<char>)
    requires
        0 <= i < n <= children.len(),
        sets_plain_link(children[i]),
        spec_text(children[i]) == Some(t),
        forall|j: int| i < j < n ==> !sets_plain_link(#[trigger] children[j]),
    ensures
        channel_scan(children, n).link == t,
    decreases n,
{
    lemma_tag_names_distinct();
    if i < n - 1 {
        lemma_channel_plain_link(children, n - 1, i, t);
        assert(!sets_plain_link(children[n - 1]));
    }
}

/// The precedence policy for a channel carrying both link forms: the
/// Atom-namespaced `href` supplements the plain link rather than
/// replacing it. The plain `<link>` text becomes `link` and the Atom
/// `href` becomes the extension link, whatever order the two stand in;
/// and since extraction is a function of the document tree alone, the
/// outcome is the same on every extraction of the same document.
pub proof fn lemma_link_precedence(node: XmlNode, i: int, j: int, h: Seq<char>, t: Seq<char>)
    requires
        0 <= i < node.children@.len(),
        0 <= j < node.children@.len(),
        sets_extension_link(node.children@[i]),
        atom::spec_value(node.children@[i]) == Some(h),
        sets_plain_link(node.children@[j]),
        spec_text(node.children@[j]) == Some(t),
        forall|k: int|
            i < k < node.children@.len() ==> !sets_extension_link(#[trigger] node.children@[k]),
        forall|k: int|
            j < k < node.children@.len() ==> !sets_plain_link(#[trigger] node.children@[k]),
    ensures
        spec_channel_of(node).link == t,
        spec_channel_of(node).atom == Some(h),
{
    lemma_channel_extension_link(node.children@, node.children@.len() as int, i, h);
    lemma_channel_plain_link(node.children@, node.children@.len() as int, j, t);
}

/// Scanning the first `n` item children collects the text of every
/// `category` child among them, in document order.
pub proof fn lemma_categories_scan_in_document_order(children: Seq<XmlNode>, n: int)
    requires
        0 <= n <= children.len(),
    ensures
        item_scan(children, n).categories == children.take(n).filter(
            is_category_child(),
        ).map_values(category_of()),
    decreases n,
{
    lemma_tag_names_distinct();
    reveal_with_fuel(Seq::<XmlNode>::filter, 1);
    if n == 0 {
        assert(children.take(0).len() == 0);
        assert(item_scan(children, 0).categories =~= children.take(0).filter(
            is_category_child(),
        ).map_values(category_of()));
    } else {
        lemma_categories_scan_in_document_order(children, n - 1);
        assert(children.take(n).drop_last() =~= children.take(n - 1));
        assert(children.take(n).last() == children[n - 1]);
        assert(item_scan(children, n).categories =~= children.take(n).filter(
            is_category_child(),
        ).map_values(category_of()));
    }
}

/// An item's categories are exactly the texts of its `category` children,
/// in document order, duplicates kept.
pub proof fn lemma_categories_in_document_order(node: XmlNode)
    ensures
        spec_item_of(node).categories == node.children@.filter(is_category_child()).map_values(
            category_of(),
        ),
{
    let children = node.children@;
    lemma_categories_scan_in_document_order(children, children.len() as int);
    assert(children.take(children.len() as int) =~= children);
}

} // verus!
