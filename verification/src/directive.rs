//! The directives of a prescription and how a node is recognised as one.

use crate::node::{Node, Tree};
use crate::text::{same_text, trim, trimmed};
use vstd::prelude::*;

verus! {

/// How a node of a prescription asks the document to match.
#[derive(Clone, Copy, Debug, PartialEq, Eq, Structural)]
pub enum DirectiveKind {
    /// The document holds the same node: the default, for every node that
    /// carries no directive.
    Verbatim,
    /// Any one node of the same category stands here.
    Placeholder,
    /// The subtree below may stand here once or not at all.
    Optional,
    /// The subtree below may stand here any number of times.
    Repeatable,
    /// A token that the document replaces with text of its own.
    Substitution,
    /// Left out of the comparison.
    Ignore,
}

impl DirectiveKind {
    /// A node with one of these directives takes exactly one node of the
    /// document.
    pub open spec fn consumes(self) -> bool {
        self is Verbatim || self is Placeholder || self is Substitution
    }

    /// Optional and Repeatable wrap the subtree they stand for.
    pub open spec fn wraps(self) -> bool {
        self is Optional || self is Repeatable
    }

    pub fn is_consuming(self) -> (r: bool)
        ensures
            r == self.consumes(),
    {
        match self {
            DirectiveKind::Verbatim | DirectiveKind::Placeholder | DirectiveKind::Substitution => true,
            _ => false,
        }
    }

    pub fn is_wrapping(self) -> (r: bool)
        ensures
            r == self.wraps(),
    {
        match self {
            DirectiveKind::Optional | DirectiveKind::Repeatable => true,
            _ => false,
        }
    }
}

/// The directive that a word names. A word that is no keyword, letter for
/// letter, names none.
pub open spec fn keyword(word: Seq<char>) -> DirectiveKind {
    if word == "placeholder"@ {
        DirectiveKind::Placeholder
    } else if word == "optional"@ {
        DirectiveKind::Optional
    } else if word == "repeatable"@ {
        DirectiveKind::Repeatable
    } else if word == "substitution"@ {
        DirectiveKind::Substitution
    } else if word == "ignore"@ {
        DirectiveKind::Ignore
    } else {
        DirectiveKind::Verbatim
    }
}

/// The directive of a node: that of its trimmed text where the node is an
/// annotation, Verbatim for every other node.
pub open spec fn directive_of(tree: Tree) -> DirectiveKind {
    if tree.kind.is_annotation() {
        keyword(trim(tree.text))
    } else {
        DirectiveKind::Verbatim
    }
}

pub fn keyword_of(word: &str) -> (r: DirectiveKind)
    ensures
        r == keyword(word@),
{
    if same_text(word, "placeholder") {
        DirectiveKind::Placeholder
    } else if same_text(word, "optional") {
        DirectiveKind::Optional
    } else if same_text(word, "repeatable") {
        DirectiveKind::Repeatable
    } else if same_text(word, "substitution") {
        DirectiveKind::Substitution
    } else if same_text(word, "ignore") {
        DirectiveKind::Ignore
    } else {
        DirectiveKind::Verbatim
    }
}

/// Reads the directive off a node. The tree is left as it is.
pub fn classify(node: &Node) -> (r: DirectiveKind)
    ensures
        r == directive_of(node@),
{
    if node.kind.annotation() {
        keyword_of(trimmed(node.text.as_str()))
    } else {
        DirectiveKind::Verbatim
    }
}

} // verus!
