//! A parsed source that has passed its first checks, and a prescription: a
//! document whose directives have been checked too.

use crate::authoring::{find_violation, first_violation, is_sound, sound, well_placed};
use crate::errors::HowserError;
use crate::node::{Node, NodeKind, Tree};
use vstd::prelude::*;

verus! {

/// A tree with something in it, and the name of where it came from.
#[derive(Debug)]
pub struct Document {
    root: Node,
    origin: Option<String>,
}

/// A document that may be used as a template: its tree is sound and every
/// directive in it is well placed.
#[derive(Debug)]
pub struct Prescription {
    document: Document,
}

/// The characters of a name that may be absent.
pub open spec fn name_text(name: Option<String>) -> Option<Seq<char>> {
    match name {
        Some(s) => Some(s@),
        None => None,
    }
}

/// Why a tree cannot become a document, if it cannot. A tree whose root is
/// no document node does not come from a successful parse; a root with
/// nothing below it is an empty document.
pub open spec fn construction_error(t: Tree) -> Option<HowserError> {
    if !(t.kind is Document) {
        Some(HowserError::InvalidSource)
    } else if t.children.len() == 0 {
        Some(HowserError::EmptyDocument)
    } else {
        None
    }
}

/// Why a document cannot become a prescription, if it cannot. A tree that is
/// not sound is a fatal error. In a sound tree the first misplaced directive
/// is reported, as a warning.
pub open spec fn authoring_error(t: Tree) -> Option<HowserError> {
    if !sound(t) {
        Some(HowserError::InvalidSource)
    } else {
        match first_violation(t) {
            Some(w) => Some(HowserError::PrescriptionError(w)),
            None => None,
        }
    }
}

impl View for Document {
    type V = Tree;

    closed spec fn view(&self) -> Tree {
        self.root@
    }
}

impl View for Prescription {
    type V = Tree;

    closed spec fn view(&self) -> Tree {
        self.document@
    }
}

impl Document {
    #[verifier::type_invariant]
    spec fn populated(&self) -> bool {
        construction_error(self.root@) is None
    }

    /// The name of the source, where it has one.
    pub closed spec fn origin_text(&self) -> Option<Seq<char>> {
        name_text(self.origin)
    }

    /// Makes a document of a parsed tree. It fails where the tree shows that
    /// the parse failed, and where there is nothing in it.
    pub fn new(root: Node, origin: Option<String>) -> (r: Result<Document, HowserError>)
        ensures
            match construction_error(root@) {
                Some(e) => r == Err::<Document, HowserError>(e),
                None => r matches Ok(doc) && doc@ == root@ && doc.origin_text() == name_text(
                    origin,
                ),
            },
    {
        proof {
            root.lemma_view();
        }
        match root.kind {
            NodeKind::Document => {},
            _ => {
                return Err(HowserError::InvalidSource);
            },
        }
        if root.children.len() == 0 {
            return Err(HowserError::EmptyDocument);
        }
        Ok(Document { root, origin })
    }

    /// The tree of the document.
    pub fn root(&self) -> (r: &Node)
        ensures
            r@ == self@,
            construction_error(self@) is None,
    {
        proof {
            use_type_invariant(self);
        }
        &self.root
    }

    pub fn origin(&self) -> (r: &Option<String>)
        ensures
            name_text(*r) == self.origin_text(),
    {
        &self.origin
    }

    /// Checks the directives of the document and makes a prescription of it.
    /// What stands in the way comes back as an error: a tree that is not
    /// sound as a fatal one, a misplaced directive as a warning, the first
    /// one in document order.
    pub fn into_prescription(self) -> (r: Result<Prescription, HowserError>)
        ensures
            match authoring_error(self@) {
                Some(e) => r == Err::<Prescription, HowserError>(e),
                None => r matches Ok(rx) && rx@ == self@ && rx.origin_text() == self.origin_text(),
            },
    {
        proof {
            use_type_invariant(&self);
        }
        if !is_sound(&self.root) {
            return Err(HowserError::InvalidSource);
        }
        match find_violation(&self.root) {
            Some(w) => Err(HowserError::PrescriptionError(w)),
            None => Ok(Prescription { document: self }),
        }
    }
}

impl Prescription {
    #[verifier::type_invariant]
    spec fn checked(&self) -> bool {
        authoring_error(self.document@) is None
    }

    /// The name of the source, where it has one.
    pub closed spec fn origin_text(&self) -> Option<Seq<char>> {
        self.document.origin_text()
    }

    /// The tree of the prescription.
    pub fn root(&self) -> (r: &Node)
        ensures
            r@ == self@,
            construction_error(self@) is None,
            sound(self@),
            well_placed(self@),
    {
        proof {
            use_type_invariant(self);
        }
        self.document.root()
    }

    pub fn origin(&self) -> (r: &Option<String>)
        ensures
            name_text(*r) == self.origin_text(),
    {
        self.document.origin()
    }

    /// The document that the prescription was made of.
    pub fn into_document(self) -> (r: Document)
        ensures
            r@ == self@,
            r.origin_text() == self.origin_text(),
    {
        self.document
    }
}

} // verus!
