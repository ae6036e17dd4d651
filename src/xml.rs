use vstd::prelude::*;
use crate::text::str_eq;

verus! {

/// One child node of a document's root element, as plain values.
pub struct XmlNode {
    /// Whether the node is an element (and not text, a comment or an
    /// instruction).
    pub element: bool,
    /// The element's local tag name; empty for other nodes.
    pub tag: String,
    /// An element's first child text, or the node's own text.
    pub text: Option<String>,
    /// The element's attributes, local name and value, in document order.
    pub attributes: Vec<(String, String)>,
}

/// The mathematical value of an [`XmlNode`].
pub struct XmlNodeView {
    pub element: bool,
    pub tag: Seq<char>,
    pub text: Option<Seq<char>>,
    pub attributes: Seq<(Seq<char>, Seq<char>)>,
}

pub open spec fn opt_text_view(t: Option<String>) -> Option<Seq<char>> {
    match t {
        Some(s) => Some(s@),
        None => None,
    }
}

pub open spec fn pairs_view(a: Seq<(String, String)>) -> Seq<(Seq<char>, Seq<char>)> {
    a.map_values(|p: (String, String)| (p.0@, p.1@))
}

impl View for XmlNode {
    type V = XmlNodeView;

    open spec fn view(&self) -> XmlNodeView {
        XmlNodeView {
            element: self.element,
            tag: self.tag@,
            text: opt_text_view(self.text),
            attributes: pairs_view(self.attributes@),
        }
    }
}

pub open spec fn nodes_view(v: Seq<XmlNode>) -> Seq<XmlNodeView> {
    v.map_values(|n: XmlNode| n@)
}

/// The child nodes of the root element of the XML document `text`, in
/// document order; `None` where `text` is not a well-formed document.
pub uninterp spec fn xml_root_children(text: Seq<char>) -> Option<Seq<XmlNodeView>>;

/// Relies on `roxmltree::Document::parse` to parse the document, and on
/// `Document::root_element`, `Node::children`, `Node::is_element`,
/// `Node::tag_name`, `Node::text` and `Node::attributes` to read each child
/// of its root element into plain values.
#[verifier::external_body]
pub(crate) fn read_root_children(xml: &str) -> (r: Option<Vec<XmlNode>>)
    ensures
        match r {
            Some(v) => xml_root_children(xml@) == Some(nodes_view(v@)),
            None => xml_root_children(xml@) is None,
        },
{
    let doc = roxmltree::Document::parse(xml).ok()?;
    let nodes = doc.root_element().children().map(|n| XmlNode {
        element: n.is_element(),
        tag: n.tag_name().name().to_string(),
        text: n.text().map(|t| t.to_string()),
        attributes: n.attributes().map(|a| (a.name().to_string(), a.value().to_string())).collect(),
    });
    Some(nodes.collect())
}

/// The value of the first attribute named `name`, as an element's
/// attribute lookup by local name gives it.
pub open spec fn attribute_of(attrs: Seq<(Seq<char>, Seq<char>)>, name: Seq<char>) -> Option<Seq<char>>
    decreases attrs.len(),
{
    if attrs.len() == 0 {
        None
    } else if attrs[0].0 == name {
        Some(attrs[0].1)
    } else {
        attribute_of(attrs.drop_first(), name)
    }
}

/// A lookup of the first attribute of `node` named `name`.
pub fn attribute<'a>(node: &'a XmlNode, name: &str) -> (r: Option<&'a str>)
    ensures
        match r {
            Some(v) => attribute_of(node@.attributes, name@) == Some(v@),
            None => attribute_of(node@.attributes, name@) is None,
        },
{
    let ghost all = node@.attributes;
    let n = node.attributes.len();
    let mut i: usize = 0;
    assert(all.skip(0) =~= all);
    while i < n
        invariant
            n == node.attributes@.len(),
            all == pairs_view(node.attributes@),
            i <= n,
            attribute_of(all, name@) == attribute_of(all.skip(i as int), name@),
        decreases n - i,
    {
        let pair = &node.attributes[i];
        assert(all.skip(i as int)[0] == (pair.0@, pair.1@));
        assert(all.skip(i as int).drop_first() =~= all.skip(i + 1));
        if str_eq(pair.0.as_str(), name) {
            return Some(pair.1.as_str());
        }
        i += 1;
    }
    assert(all.skip(n as int).len() == 0);
    None
}

} // verus!
