use vstd::prelude::*;

pub mod extensions;
pub mod laws;
pub mod xml;

use crate::extensions::atom;
use crate::extensions::dublincore;
use crate::xml::{spec_find_channel, spec_text, xml_tree_of, XmlNode};

verus! {

/// Mathematical model of an [`Item`]: every textual field as a sequence of
/// characters.
#[verifier::ext_equal]
pub ghost struct ItemModel {
    pub title: Seq<char>,
    pub description: Seq<char>,
    pub content: Seq<char>,
    pub author: Seq<char>,
    pub categories: Seq<Seq<char>>,
}

/// Mathematical model of a [`Channel`].
#[verifier::ext_equal]
pub ghost struct ChannelModel {
    pub title: Seq<char>,
    pub link: Seq<char>,
    pub description: Seq<char>,
    pub items: Seq<ItemModel>,
    pub atom: Option<Seq<char>>,
}

/// The model of an item before any child element is read: every field
/// empty.
pub open spec fn empty_item_model() -> ItemModel {
    ItemModel {
        title: Seq::empty(),
        description: Seq::empty(),
        content: Seq::empty(),
        author: Seq::empty(),
        categories: Seq::empty(),
    }
}

/// The model of a channel before any child element is read: every field
/// empty or absent.
pub open spec fn empty_channel_model() -> ChannelModel {
    ChannelModel {
        title: Seq::empty(),
        link: Seq::empty(),
        description: Seq::empty(),
        items: Seq::empty(),
        atom: None,
    }
}

/// How one child element of an `<item>` updates the item being built:
/// dispatch on the local tag name, with elements of the Dublin Core
/// namespace resolved through the Dublin Core resolver. A repeated
/// singular tag overwrites (last occurrence wins); an unrecognized tag
/// changes nothing.
pub open spec fn item_step(acc: ItemModel, e: XmlNode) -> ItemModel {
    if e.name@ == "title"@ {
        match spec_text(e) {
            Some(t) => ItemModel { title: t, ..acc },
            None => acc,
        }
    } else if e.name@ == "encoded"@ {
        match spec_text(e) {
            Some(t) => ItemModel { content: t, ..acc },
            None => acc,
        }
    } else if e.name@ == "description"@ {
        match spec_text(e) {
            Some(t) => ItemModel { description: t, ..acc },
            None => acc,
        }
    } else if e.name@ == "category"@ {
        match spec_text(e) {
            Some(t) => ItemModel { categories: acc.categories.push(t), ..acc },
            None => acc,
        }
    } else if dublincore::spec_is_dublincore(e) {
        match dublincore::spec_value(e) {
            Some(v) => ItemModel { author: v, ..acc },
            None => acc,
        }
    } else {
        acc
    }
}

/// The item model built from the first `n` children, in document order.
pub open spec fn item_scan(s: Seq<XmlNode>, n: int) -> ItemModel
    decreases n,
{
    if n <= 0 {
        empty_item_model()
    } else {
        item_step(item_scan(s, n - 1), s[n - 1])
    }
}

/// The item model built from all children of an `<item>` element.
pub open spec fn spec_item_of(node: XmlNode) -> ItemModel {
    item_scan(node.children@, node.children@.len() as int)
}

/// How one child element of a `<channel>` updates the channel being built.
/// A `link` element in the Atom namespace carrying an `href` attribute is
/// recorded as the extension link; every other `link` element contributes
/// its text content as the plain link. An `<item>` child always yields one
/// item, appended in document order.
pub open spec fn channel_step(acc: ChannelModel, e: XmlNode) -> ChannelModel {
    if e.name@ == "title"@ {
        match spec_text(e) {
            Some(t) => ChannelModel { title: t, ..acc },
            None => acc,
        }
    } else if e.name@ == "description"@ {
        match spec_text(e) {
            Some(t) => ChannelModel { description: t, ..acc },
            None => acc,
        }
    } else if e.name@ == "link"@ {
        match (if atom::spec_is_atom(e) {
            atom::spec_value(e)
        } else {
            None
        }) {
            Some(href) => ChannelModel { atom: Some(href), ..acc },
            None => match spec_text(e) {
                Some(t) => ChannelModel { link: t, ..acc },
                None => acc,
            },
        }
    } else if e.name@ == "item"@ {
        ChannelModel { items: acc.items.push(spec_item_of(e)), ..acc }
    } else {
        acc
    }
}

/// The channel model built from the first `n` children, in document order.
pub open spec fn channel_scan(s: Seq<XmlNode>, n: int) -> ChannelModel
    decreases n,
{
    if n <= 0 {
        empty_channel_model()
    } else {
        channel_step(channel_scan(s, n - 1), s[n - 1])
    }
}

/// The channel model built from all children of a `<channel>` element.
pub open spec fn spec_channel_of(node: XmlNode) -> ChannelModel {
    channel_scan(node.children@, node.children@.len() as int)
}

/// What extracting a feed from raw text yields: `None` when the text is
/// not well-formed XML or its tree holds no `channel` element, and
/// otherwise the channel model built from the first `channel` element in
/// document order.
pub open spec fn spec_channel_from(s: Seq<char>) -> Option<ChannelModel> {
    match xml_tree_of(s) {
        Some(root) => match spec_find_channel(root) {
            Some(ch) => Some(spec_channel_of(ch)),
            None => None,
        },
        None => None,
    }
}

/// One entry (article) within a channel.
#[derive(Debug, Clone, Default)]
pub struct Item {
    /// Title of the item
    pub title: String,
    /// Description of the item
    pub description: String,
    /// The HTML content
    pub content: String,
    /// Email address of the author of the item
    pub author: String,
    /// Categories this item belongs to
    pub categories: Vec<String>,
}

impl View for Item {
    type V = ItemModel;

    open spec fn view(&self) -> ItemModel {
        ItemModel {
            title: self.title@,
            description: self.description@,
            content: self.content@,
            author: self.author@,
            categories: Seq::new(self.categories@.len(), |i: int| self.categories@[i]@),
        }
    }
}

/// Channel of an RSS feed
#[derive(Debug, Clone, Default)]
pub struct Channel {
    /// Title of the channel
    pub title: String,
    /// The URL for the website of this channel
    pub link: String,
    /// Description of the channel
    pub description: String,
    /// List of items (or articles) in the channel
    pub items: Vec<Item>,
    /// Atom extension for the channel
    pub atom: Option<String>,
}

impl View for Channel {
    type V = ChannelModel;

    open spec fn view(&self) -> ChannelModel {
        ChannelModel {
            title: self.title@,
            link: self.link@,
            description: self.description@,
            items: Seq::new(self.items@.len(), |i: int| self.items@[i]@),
            atom: match self.atom {
                Some(a) => Some(a@),
                None => None,
            },
        }
    }
}

impl Item {
    /// Builds one Item from the children of an `<item>` element. Never
    /// fails: fields whose source element is missing or empty keep their
    /// default; the option is kept for symmetry with the channel
    /// extractor.
    pub fn from(node: &XmlNode) -> (r: Option<Item>)
        ensures
            match r {
                Some(item) => item@ == spec_item_of(*node),
                None => false,
            },
    {
        let mut item = Item {
            title: String::new(),
            description: String::new(),
            content: String::new(),
            author: String::new(),
            categories: Vec::new(),
        };
        proof {
            assert(item@ =~~= item_scan(node.children@, 0));
        }
        let mut i: usize = 0;
        while i < node.children.len()
            invariant
                i <= node.children.len(),
                item@ == item_scan(node.children@, i as int),
            decreases node.children@.len() - i,
        {
            let e = &node.children[i];
            if e.name == "title".to_owned() {
                match &e.text {
                    Some(t) => {
                        item.title = t.clone();
                    },
                    None => {},
                }
            } else if e.name == "encoded".to_owned() {
                match &e.text {
                    Some(t) => {
                        item.content = t.clone();
                    },
                    None => {},
                }
            } else if e.name == "description".to_owned() {
                match &e.text {
                    Some(t) => {
                        item.description = t.clone();
                    },
                    None => {},
                }
            } else if e.name == "category".to_owned() {
                match &e.text {
                    Some(t) => {
                        item.categories.push(t.clone());
                    },
                    None => {},
                }
            } else if dublincore::is_dublincore(e) {
                match dublincore::DublinCoreExtension::get_value(e) {
                    Some(v) => {
                        item.author = v;
                    },
                    None => {},
                }
            }
            proof {
                assert(item@ =~~= item_scan(node.children@, i as int + 1));
            }
            i += 1;
        }
        Some(item)
    }
}

impl Channel {
    /// Builds one Channel from the children of a `<channel>` element.
    pub fn from_node(node: &XmlNode) -> (c: Channel)
        ensures
            c@ == spec_channel_of(*node),
    {
        let mut channel = Channel {
            title: String::new(),
            link: String::new(),
            description: String::new(),
            items: Vec::new(),
            atom: None,
        };
        proof {
            assert(channel@ =~~= channel_scan(node.children@, 0));
        }
        let mut i: usize = 0;
        while i < node.children.len()
            invariant
                i <= node.children.len(),
                channel@ == channel_scan(node.children@, i as int),
            decreases node.children@.len() - i,
        {
            let e = &node.children[i];
            if e.name == "title".to_owned() {
                match &e.text {
                    Some(t) => {
                        channel.title = t.clone();
                    },
                    None => {},
                }
            } else if e.name == "description".to_owned() {
                match &e.text {
                    Some(t) => {
                        channel.description = t.clone();
                    },
                    None => {},
                }
            } else if e.name == "link".to_owned() {
                let mut handled = false;
                if atom::is_atom(e) {
                    match atom::AtomExtension::get_value(e) {
                        Some(link) => {
                            channel.atom = Some(link);
                            handled = true;
                        },
                        None => {},
                    }
                }
                if !handled {
                    match &e.text {
                        Some(t) => {
                            channel.link = t.clone();
                        },
                        None => {},
                    }
                }
            } else if e.name == "item".to_owned() {
                match Item::from(e) {
                    Some(item) => {
                        channel.items.push(item);
                    },
                    None => {},
                }
            }
            proof {
                assert(channel@ =~~= channel_scan(node.children@, i as int + 1));
            }
            i += 1;
        }
        channel
    }

    /// Creates a Channel from a XML string.
    ///
    /// Returns `None` when the text is not well-formed XML or no
    /// `channel` element stands anywhere in its tree; otherwise the
    /// channel built from the first `channel` element in document order.
    ///
    /// # Examples
    ///
    /// ```
    /// use rss_parser::Channel;
    ///
    /// let content = "<channel><title>Test</title></channel>";
    /// let channel = Channel::from(content);
    /// ```
    pub fn from(content: &str) -> (r: Option<Channel>)
        ensures
            match r {
                Some(c) => spec_channel_from(content@) == Some(c@),
                None => spec_channel_from(content@) is None,
            },
            xml_tree_of(content@) is None ==> r is None,
    {
        let root = match xml::parse_xml(content) {
            Some(root) => root,
            None => {
                return None;
            },
        };
        let node = match xml::find_channel(&root) {
            Some(node) => node,
            None => {
                return None;
            },
        };
        Some(Channel::from_node(node))
    }
}

} // verus!
