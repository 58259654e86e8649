//! The tree of typed nodes that the rest of the library reads, and its
//! mathematical model.

use vstd::prelude::*;

verus! {

/// Whether a node stands on its own in the flow of a document or inside a line
/// of text.
#[derive(Clone, Copy, Debug, PartialEq, Eq, Structural)]
pub enum Category {
    Block,
    Inline,
}

/// What a node is.
#[derive(Clone, Copy, Debug, PartialEq, Eq, Structural)]
pub enum NodeKind {
    /// The root of a parsed source.
    Document,
    /// A heading with its level.
    Heading(u8),
    Paragraph,
    BlockQuote,
    List,
    Item,
    CodeBlock,
    ThematicBreak,
    /// A comment or marker that stands as a block of its own.
    BlockAnnotation,
    Text,
    Code,
    Emphasis,
    Strong,
    Link,
    Image,
    SoftBreak,
    LineBreak,
    /// A comment or marker inside a line of text.
    InlineAnnotation,
}

/// The place of a node in its source: the first and last line and column.
#[derive(Clone, Copy, Debug, PartialEq, Eq, Structural)]
pub struct Span {
    pub start_line: u32,
    pub start_column: u32,
    pub end_line: u32,
    pub end_column: u32,
}

/// One element of a parsed source, with the nodes below it in document order.
#[derive(Debug, PartialEq, Eq)]
pub struct Node {
    pub kind: NodeKind,
    /// The literal text of a leaf or an annotation; empty for a container.
    pub text: String,
    pub children: Vec<Node>,
    pub span: Span,
}

/// The mathematical model of a [`Node`].
pub ghost struct Tree {
    pub kind: NodeKind,
    pub text: Seq<char>,
    pub children: Seq<Tree>,
    pub span: Span,
}

impl NodeKind {
    /// Annotation kinds are the only ones that can carry a directive.
    pub open spec fn is_annotation(self) -> bool {
        self is BlockAnnotation || self is InlineAnnotation
    }

    /// Leaf kinds are compared by their literal text, container kinds by what
    /// stands below them.
    pub open spec fn is_leaf(self) -> bool {
        self is CodeBlock || self is ThematicBreak || self is BlockAnnotation || self is Text
            || self is Code || self is SoftBreak || self is LineBreak || self is InlineAnnotation
    }

    pub open spec fn category(self) -> Category {
        if self is Text || self is Code || self is Emphasis || self is Strong || self is Link
            || self is Image || self is SoftBreak || self is LineBreak || self is InlineAnnotation {
            Category::Inline
        } else {
            Category::Block
        }
    }

    pub fn annotation(self) -> (r: bool)
        ensures
            r == self.is_annotation(),
    {
        match self {
            NodeKind::BlockAnnotation | NodeKind::InlineAnnotation => true,
            _ => false,
        }
    }

    pub fn leaf(self) -> (r: bool)
        ensures
            r == self.is_leaf(),
    {
        match self {
            NodeKind::CodeBlock | NodeKind::ThematicBreak | NodeKind::BlockAnnotation
            | NodeKind::Text | NodeKind::Code | NodeKind::SoftBreak | NodeKind::LineBreak
            | NodeKind::InlineAnnotation => true,
            _ => false,
        }
    }

    pub fn block_or_inline(self) -> (r: Category)
        ensures
            r == self.category(),
    {
        match self {
            NodeKind::Text | NodeKind::Code | NodeKind::Emphasis | NodeKind::Strong
            | NodeKind::Link | NodeKind::Image | NodeKind::SoftBreak | NodeKind::LineBreak
            | NodeKind::InlineAnnotation => Category::Inline,
            _ => Category::Block,
        }
    }
}

/// The model of a node: its own kind, text and place, and the models of its
/// children in order.
pub open spec fn tree_of(node: Node) -> Tree
    decreases node,
{
    Tree {
        kind: node.kind,
        text: node.text@,
        children: Seq::new(
            node.children@.len(),
            |i: int|
                if 0 <= i < node.children@.len() {
                    tree_of(node.children@[i])
                } else {
                    arbitrary()
                },
        ),
        span: node.span,
    }
}

impl View for Node {
    type V = Tree;

    open spec fn view(&self) -> Tree {
        tree_of(*self)
    }
}

/// The models of a sequence of nodes, in order.
pub open spec fn trees(nodes: Seq<Node>) -> Seq<Tree> {
    Seq::new(nodes.len(), |i: int| nodes[i]@)
}

impl Node {
    /// The model of a node is made of the models of its children.
    pub proof fn lemma_view(self)
        ensures
            self@.kind == self.kind,
            self@.text == self.text@,
            self@.span == self.span,
            self@.children == trees(self.children@),
    {
        assert(self@.children =~= trees(self.children@));
    }

    pub fn new(kind: NodeKind, text: String, children: Vec<Node>, span: Span) -> (r: Node)
        ensures
            r.kind == kind,
            r.text == text,
            r.children == children,
            r.span == span,
    {
        Node { kind, text, children, span }
    }
}

} // verus!
