use vstd::prelude::*;
use vstd::string::StrSliceExecFns;
use vstd::string::StringSliceAdditionalSpecFns;

verus! {

/// Copies a vector element by element.
pub fn copy_vec<T: Copy>(b: &Vec<T>) -> (r: Vec<T>)
    ensures
        r@ == b@,
{
    let mut r: Vec<T> = Vec::new();
    let mut i: usize = 0;
    while i < b.len()
        invariant
            i <= b@.len(),
            r@ == b@.subrange(0, i as int),
        decreases b@.len() - i,
    {
        r.push(b[i]);
        i = i + 1;
        assert(r@ =~= b@.subrange(0, i as int));
    }
    assert(r@ =~= b@);
    r
}

/// Compares two byte strings.
pub fn bytes_eq(a: &Vec<u8>, b: &Vec<u8>) -> (r: bool)
    ensures
        r == (a@ == b@),
{
    if a.len() != b.len() {
        return false;
    }
    let mut i: usize = 0;
    while i < a.len()
        invariant
            i <= a@.len(),
            a@.len() == b@.len(),
            forall|j: int| 0 <= j < i ==> a@[j] == b@[j],
        decreases a@.len() - i,
    {
        if a[i] != b[i] {
            return false;
        }
        i = i + 1;
    }
    assert(a@ =~= b@);
    true
}

/// The identifier part of a node id.
#[derive(Debug)]
pub enum Identifier {
    Numeric(u64),
    String(Vec<u8>),
}

/// What an identifier stands for.
pub enum IdentifierView {
    Numeric(u64),
    String(Seq<u8>),
}

impl View for Identifier {
    type V = IdentifierView;

    open spec fn view(&self) -> IdentifierView {
        match self {
            Identifier::Numeric(n) => IdentifierView::Numeric(*n),
            Identifier::String(s) => IdentifierView::String(s@),
        }
    }
}

/// A node id: a namespace index and an identifier within it.
#[derive(Debug)]
pub struct NodeId {
    pub namespace: u16,
    pub identifier: Identifier,
}

impl View for NodeId {
    type V = (u16, IdentifierView);

    open spec fn view(&self) -> (u16, IdentifierView) {
        (self.namespace, self.identifier@)
    }
}

impl NodeId {
    /// A numeric node id.
    pub fn new(namespace: u16, value: u64) -> (r: NodeId)
        ensures
            r@ == (namespace, IdentifierView::Numeric(value)),
    {
        NodeId { namespace, identifier: Identifier::Numeric(value) }
    }

    /// A node id whose identifier is the bytes of `value`.
    pub fn new_string(namespace: u16, value: &str) -> (r: NodeId)
        ensures
            r@ == (namespace, IdentifierView::String(value.spec_bytes())),
    {
        NodeId { namespace, identifier: Identifier::String(value.as_bytes_vec()) }
    }

    /// The null node id: namespace 0, numeric 0.
    pub fn null() -> (r: NodeId)
        ensures
            r@ == (0u16, IdentifierView::Numeric(0)),
    {
        NodeId::new(0, 0)
    }

    /// Whether this node id is the null id.
    pub fn is_null(&self) -> (r: bool)
        ensures
            r == (self@ == (0u16, IdentifierView::Numeric(0))),
    {
        match &self.identifier {
            Identifier::Numeric(n) => self.namespace == 0 && *n == 0,
            Identifier::String(_) => false,
        }
    }

    /// A second node id with the same view.
    pub fn copy(&self) -> (r: NodeId)
        ensures
            r@ == self@,
    {
        let identifier = match &self.identifier {
            Identifier::Numeric(n) => Identifier::Numeric(*n),
            Identifier::String(s) => Identifier::String(copy_vec(s)),
        };
        NodeId { namespace: self.namespace, identifier }
    }

    /// Compares two node ids by namespace and identifier.
    pub fn same_as(&self, other: &NodeId) -> (r: bool)
        ensures
            r == (self@ == other@),
    {
        if self.namespace != other.namespace {
            return false;
        }
        match (&self.identifier, &other.identifier) {
            (Identifier::Numeric(a), Identifier::Numeric(b)) => *a == *b,
            (Identifier::String(a), Identifier::String(b)) => bytes_eq(a, b),
            _ => false,
        }
    }
}

} // verus!
