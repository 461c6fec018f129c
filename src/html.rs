use vstd::prelude::*;
use select::predicate::{Attr, Name, Predicate};
use crate::recipe::strings_view;

verus! {

/// What a node of a parsed HTML document holds.
#[derive(Debug)]
pub enum HtmlData {
    Text(String),
    /// An element: its local name and its attributes (local name, value), in order.
    Element(String, Vec<(String, String)>),
    Comment,
}

/// A node of a parsed HTML document, with the index of its parent node.
#[derive(Debug)]
pub struct HtmlNode {
    pub parent: Option<usize>,
    pub data: HtmlData,
}

/// The nodes that select's HTML parser makes of a text.
pub uninterp spec fn html_nodes(s: Seq<char>) -> Seq<HtmlNode>;

/// Relies on select::document::Document::from(&str): the nodes of the parsed
/// document in document order, with their parents.
#[verifier::external_body]
pub fn parse_html(s: &str) -> (r: Vec<HtmlNode>)
    ensures
        r@ == html_nodes(s@),
{
    select::document::Document::from(s).nodes.into_iter().map(|raw| HtmlNode {
        parent: raw.parent,
        data: match raw.data {
            select::node::Data::Text(t) => HtmlData::Text(t.to_string()),
            select::node::Data::Element(name, attrs) => HtmlData::Element(
                name.local.to_string(),
                attrs.into_iter().map(|(k, v)| (k.local.to_string(), v.to_string())).collect(),
            ),
            select::node::Data::Comment(_) => HtmlData::Comment,
        },
    }).collect()
}

/// The characters of a text node; nothing for the other nodes.
pub open spec fn own_text(n: HtmlNode) -> Seq<char> {
    match n.data {
        HtmlData::Text(t) => t@,
        _ => Seq::empty(),
    }
}

/// The text of every text node of the document, in document order.
pub open spec fn document_text(nodes: Seq<HtmlNode>) -> Seq<char>
    decreases nodes.len(),
{
    if nodes.len() == 0 {
        Seq::empty()
    } else {
        document_text(nodes.drop_last()) + own_text(nodes.last())
    }
}

/// The text content of every element named `tag` whose attribute `name` is
/// `value`, in document order, as select finds them in a page.
pub uninterp spec fn selected_texts(html: Seq<char>, tag: Seq<char>, name: Seq<char>, value: Seq<char>) -> Seq<Seq<char>>;

/// Relies on select's Document::from(&str), Document::find with the predicate
/// Name(tag).and(Attr(name, value)), and Node::text: the text content of every
/// matching element, in document order.
#[verifier::external_body]
pub fn element_texts(html: &str, tag: &str, name: &str, value: &str) -> (r: Vec<String>)
    ensures
        strings_view(r@) == selected_texts(html@, tag@, name@, value@),
{
    let document = select::document::Document::from(html);
    document.find(Name(tag).and(Attr(name, value))).map(|n| n.text()).collect()
}

} // verus!
