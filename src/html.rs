//! Scans over the nodes of an HTML fragment: its first paragraph's text and
//! its headings.
use crate::extract::chars_equal;
use crate::text::chars_of;
use scraper::Node;
use vstd::prelude::*;

verus! {

/// A node of a parsed HTML fragment: an element with its tag name, a text
/// with its content, or one of the other kinds.
#[derive(Clone, Debug, PartialEq, Eq)]
pub enum HtmlNode {
    Document,
    Fragment,
    Doctype,
    Comment,
    Text(String),
    Element(String),
    ProcessingInstruction,
}

pub enum NodeView {
    Document,
    Fragment,
    Doctype,
    Comment,
    Text(Seq<char>),
    Element(Seq<char>),
    ProcessingInstruction,
}

impl View for HtmlNode {
    type V = NodeView;

    open spec fn view(&self) -> NodeView {
        match self {
            HtmlNode::Document => NodeView::Document,
            HtmlNode::Fragment => NodeView::Fragment,
            HtmlNode::Doctype => NodeView::Doctype,
            HtmlNode::Comment => NodeView::Comment,
            HtmlNode::Text(s) => NodeView::Text(s@),
            HtmlNode::Element(s) => NodeView::Element(s@),
            HtmlNode::ProcessingInstruction => NodeView::ProcessingInstruction,
        }
    }
}

pub open spec fn nodes_view(v: Seq<HtmlNode>) -> Seq<NodeView> {
    v.map_values(|n: HtmlNode| n@)
}

/// The nodes that parsing `html` as a fragment yields, in the order the
/// parser created them.
pub uninterp spec fn fragment_nodes_of(html: Seq<char>) -> Seq<NodeView>;

/// Relies on `scraper::Html::parse_fragment`: the nodes of the parsed tree in
/// the order of creation, each turned into the node kind of the same name. The
/// outcome depends on the text alone.
#[verifier::external_body]
fn fragment_nodes(html: &str) -> (r: Vec<HtmlNode>)
    ensures
        nodes_view(r@) == fragment_nodes_of(html@),
{
    let dom = scraper::Html::parse_fragment(html);
    dom.tree.into_iter().map(|n| match n {
        Node::Document => HtmlNode::Document,
        Node::Fragment => HtmlNode::Fragment,
        Node::Doctype(_) => HtmlNode::Doctype,
        Node::Comment(_) => HtmlNode::Comment,
        Node::Text(t) => HtmlNode::Text(t.to_string()),
        Node::Element(e) => HtmlNode::Element(e.name().to_string()),
        Node::ProcessingInstruction(_) => HtmlNode::ProcessingInstruction,
    }).collect()
}

/// The level of a heading.
#[derive(Clone, Copy, Debug, PartialEq, Eq, Structural)]
pub enum NodeKind {
    H2,
    H3,
    H4,
    H5,
}

/// The heading level that a tag name names, if any.
pub open spec fn node_kind_of(name: Seq<char>) -> Option<NodeKind> {
    if name == "h2"@ {
        Some(NodeKind::H2)
    } else if name == "h3"@ {
        Some(NodeKind::H3)
    } else if name == "h4"@ {
        Some(NodeKind::H4)
    } else if name == "h5"@ {
        Some(NodeKind::H5)
    } else {
        None
    }
}

impl NodeKind {
    /// The heading level that a tag name names, if any.
    pub fn from_tag(name: &Vec<char>) -> (r: Option<NodeKind>)
        ensures
            r == node_kind_of(name@),
    {
        if chars_equal(name, &chars_of("h2")) {
            Some(NodeKind::H2)
        } else if chars_equal(name, &chars_of("h3")) {
            Some(NodeKind::H3)
        } else if chars_equal(name, &chars_of("h4")) {
            Some(NodeKind::H4)
        } else if chars_equal(name, &chars_of("h5")) {
            Some(NodeKind::H5)
        } else {
            None
        }
    }
}

/// A heading of a fragment: its text and its level.
#[derive(Clone, Debug, PartialEq, Eq)]
pub struct HeadingNode {
    pub title: String,
    pub kind: NodeKind,
}

pub struct HeadingView {
    pub title: Seq<char>,
    pub kind: NodeKind,
}

impl View for HeadingNode {
    type V = HeadingView;

    open spec fn view(&self) -> HeadingView {
        HeadingView { title: self.title@, kind: self.kind }
    }
}

pub open spec fn headings_view(v: Seq<HeadingNode>) -> Seq<HeadingView> {
    v.map_values(|h: HeadingNode| h@)
}

/// The text of the first text node after a `p` element, scanning from node
/// `i` on; any node that is neither an element nor a text ends the paragraph.
pub open spec fn first_paragraph_from(nodes: Seq<NodeView>, i: int, in_p: bool) -> Option<Seq<char>>
    decreases nodes.len() - i,
{
    if i < 0 || i >= nodes.len() {
        None
    } else {
        match nodes[i] {
            NodeView::Element(name) => first_paragraph_from(nodes, i + 1, in_p || name == "p"@),
            NodeView::Text(s) => if in_p {
                Some(s)
            } else {
                first_paragraph_from(nodes, i + 1, in_p)
            },
            _ => first_paragraph_from(nodes, i + 1, false),
        }
    }
}

/// The headings found scanning from node `i` on: each text node that follows
/// a heading element (with only elements and texts between) is a heading of
/// the last heading element's level.
pub open spec fn headings_from(nodes: Seq<NodeView>, i: int, in_h: bool, kind: NodeKind) -> Seq<HeadingView>
    decreases nodes.len() - i,
{
    if i < 0 || i >= nodes.len() {
        Seq::empty()
    } else {
        match nodes[i] {
            NodeView::Element(name) => match node_kind_of(name) {
                Some(k) => headings_from(nodes, i + 1, true, k),
                None => headings_from(nodes, i + 1, false, kind),
            },
            NodeView::Text(s) => if in_h {
                seq![HeadingView { title: s, kind }] + headings_from(nodes, i + 1, in_h, kind)
            } else {
                headings_from(nodes, i + 1, in_h, kind)
            },
            _ => headings_from(nodes, i + 1, false, kind),
        }
    }
}

/// The text of the first paragraph among `nodes`.
pub fn first_paragraph(nodes: &Vec<HtmlNode>) -> (r: Option<String>)
    ensures
        match (r, first_paragraph_from(nodes_view(nodes@), 0, false)) {
            (Some(s), Some(t)) => s@ == t,
            (None, None) => true,
            _ => false,
        },
{
    let ghost nv = nodes_view(nodes@);
    let mut in_p = false;
    let mut i: usize = 0;
    while i < nodes.len()
        invariant
            nv == nodes_view(nodes@),
            0 <= i <= nodes@.len(),
            first_paragraph_from(nv, 0, false) == first_paragraph_from(nv, i as int, in_p),
        decreases nodes@.len() - i,
    {
        assert(nv[i as int] == nodes@[i as int]@);
        match &nodes[i] {
            HtmlNode::Element(name) => {
                if chars_equal(&chars_of(name.as_str()), &chars_of("p")) {
                    in_p = true;
                }
            },
            HtmlNode::Text(s) => {
                if in_p {
                    return Some(s.clone());
                }
            },
            _ => {
                in_p = false;
            },
        }
        i = i + 1;
    }
    None
}

/// The headings among `nodes`.
pub fn headings(nodes: &Vec<HtmlNode>) -> (r: Vec<HeadingNode>)
    ensures
        headings_view(r@) == headings_from(nodes_view(nodes@), 0, false, NodeKind::H2),
{
    let ghost nv = nodes_view(nodes@);
    let mut out: Vec<HeadingNode> = Vec::new();
    let mut in_h = false;
    let mut kind = NodeKind::H2;
    let mut i: usize = 0;
    while i < nodes.len()
        invariant
            nv == nodes_view(nodes@),
            0 <= i <= nodes@.len(),
            headings_from(nv, 0, false, NodeKind::H2) == headings_view(out@) + headings_from(
                nv,
                i as int,
                in_h,
                kind,
            ),
        decreases nodes@.len() - i,
    {
        assert(nv[i as int] == nodes@[i as int]@);
        match &nodes[i] {
            HtmlNode::Element(name) => {
                match NodeKind::from_tag(&chars_of(name.as_str())) {
                    Some(k) => {
                        in_h = true;
                        kind = k;
                    },
                    None => {
                        in_h = false;
                    },
                }
            },
            HtmlNode::Text(s) => {
                if in_h {
                    let h = HeadingNode { title: s.clone(), kind };
                    let ghost before = out@;
                    out.push(h);
                    assert(headings_view(out@) == headings_view(before) + seq![h@]);
                    assert(headings_view(before) + seq![h@] + headings_from(nv, i + 1, in_h, kind)
                        == headings_view(before) + (seq![h@] + headings_from(nv, i + 1, in_h, kind)));
                }
            },
            _ => {
                in_h = false;
            },
        }
        i = i + 1;
    }
    assert(headings_from(nv, i as int, in_h, kind) == Seq::<HeadingView>::empty());
    assert(headings_view(out@) + Seq::<HeadingView>::empty() == headings_view(out@));
    out
}

/// The text of the first paragraph of an HTML fragment.
pub fn get_first_paragraph(s: &str) -> (r: Option<String>)
    ensures
        match (r, first_paragraph_from(fragment_nodes_of(s@), 0, false)) {
            (Some(p), Some(t)) => p@ == t,
            (None, None) => true,
            _ => false,
        },
{
    first_paragraph(&fragment_nodes(s))
}

/// The headings of an HTML fragment.
pub fn get_headings(s: &str) -> (r: Vec<HeadingNode>)
    ensures
        headings_view(r@) == headings_from(fragment_nodes_of(s@), 0, false, NodeKind::H2),
{
    headings(&fragment_nodes(s))
}

} // verus!
