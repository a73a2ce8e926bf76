use std::sync::Arc;
use vstd::prelude::*;

verus! {

/// The raw integer discriminant of a syntax kind.
#[derive(Clone, Copy, Debug, PartialEq, Eq, Hash, Structural)]
pub struct RawSyntaxKind(pub u32);

/// A syntax kind as the grammar defines it: its raw discriminant and, for kinds
/// whose spelling is fixed (punctuation, keywords), that spelling.
#[derive(Clone, Copy, Debug)]
pub struct SyntaxKind {
    pub raw: RawSyntaxKind,
    pub static_text: Option<&'static str>,
}

/// The key under which an interner stores a token's text.
#[derive(Clone, Copy, Debug, PartialEq, Eq, Hash, Structural)]
pub struct TokenKey(pub u64);

/// What fully defines a token: kind, interned text (absent for kinds with
/// static text) and length in bytes.
#[derive(Clone, Debug, PartialEq, Eq, Hash)]
pub struct GreenTokenData {
    pub kind: RawSyntaxKind,
    pub text: Option<TokenKey>,
    pub text_len: u32,
}

/// A shared, immutable leaf.
#[derive(Clone, Debug, PartialEq, Eq, Hash)]
pub struct GreenToken {
    data: Arc<GreenTokenData>,
}

/// What fully defines a node: kind, total text length, structural hash of the
/// direct children, and the children in order.
#[derive(Clone, Debug, PartialEq, Eq, Hash)]
pub struct GreenNodeData {
    pub kind: RawSyntaxKind,
    pub text_len: u32,
    pub child_hash: u32,
    pub children: Vec<GreenElement>,
}

/// A shared, immutable interior node.
#[derive(Clone, Debug, PartialEq, Eq, Hash)]
pub struct GreenNode {
    data: Arc<GreenNodeData>,
}

/// A child slot: either a node or a token.
#[derive(Clone, Debug, PartialEq, Eq, Hash)]
pub enum GreenElement {
    Node(GreenNode),
    Token(GreenToken),
}

impl GreenToken {
    pub closed spec fn view(&self) -> GreenTokenData {
        *self.data
    }

    /// Wraps `data` in a fresh shared token.
    pub fn new(data: GreenTokenData) -> (r: GreenToken)
        ensures
            r@ == data,
    {
        GreenToken { data: Arc::new(data) }
    }

    pub fn kind(&self) -> (r: RawSyntaxKind)
        ensures
            r == self@.kind,
    {
        self.data.kind
    }

    pub fn text_key(&self) -> (r: Option<TokenKey>)
        ensures
            r == self@.text,
    {
        self.data.text
    }

    pub fn text_len(&self) -> (r: u32)
        ensures
            r == self@.text_len,
    {
        self.data.text_len
    }

    /// The shared allocation behind this token; two tokens are the same
    /// instance exactly when these point to the same place.
    pub fn shared(&self) -> (r: &Arc<GreenTokenData>)
        ensures
            **r == self@,
    {
        &self.data
    }
}

impl GreenNode {
    pub closed spec fn view(&self) -> GreenNodeData {
        *self.data
    }

    /// Wraps `data` in a fresh shared node.
    pub fn new(data: GreenNodeData) -> (r: GreenNode)
        ensures
            r@ == data,
    {
        GreenNode { data: Arc::new(data) }
    }

    pub fn kind(&self) -> (r: RawSyntaxKind)
        ensures
            r == self@.kind,
    {
        self.data.kind
    }

    pub fn text_len(&self) -> (r: u32)
        ensures
            r == self@.text_len,
    {
        self.data.text_len
    }

    pub fn child_hash(&self) -> (r: u32)
        ensures
            r == self@.child_hash,
    {
        self.data.child_hash
    }

    pub fn children(&self) -> (r: &Vec<GreenElement>)
        ensures
            r@ == self@.children@,
    {
        &self.data.children
    }

    /// The shared allocation behind this node; two nodes are the same
    /// instance exactly when these point to the same place.
    pub fn shared(&self) -> (r: &Arc<GreenNodeData>)
        ensures
            **r == self@,
    {
        &self.data
    }
}

impl GreenElement {
    pub open spec fn spec_kind(&self) -> RawSyntaxKind {
        match self {
            GreenElement::Node(n) => n@.kind,
            GreenElement::Token(t) => t@.kind,
        }
    }

    pub open spec fn spec_text_len(&self) -> u32 {
        match self {
            GreenElement::Node(n) => n@.text_len,
            GreenElement::Token(t) => t@.text_len,
        }
    }

    /// The third word that an element contributes to its parent's hash: a
    /// node's own structural hash, the low half of a token's text key (or a
    /// marker when the text is static).
    pub open spec fn spec_hash_word(&self) -> u32 {
        match self {
            GreenElement::Node(n) => n@.child_hash,
            GreenElement::Token(t) => match t@.text {
                Some(k) => k.0 as u32,
                None => 0xffff_ffffu32,
            },
        }
    }

    pub fn kind(&self) -> (r: RawSyntaxKind)
        ensures
            r == self.spec_kind(),
    {
        match self {
            GreenElement::Node(n) => n.kind(),
            GreenElement::Token(t) => t.kind(),
        }
    }

    pub fn text_len(&self) -> (r: u32)
        ensures
            r == self.spec_text_len(),
    {
        match self {
            GreenElement::Node(n) => n.text_len(),
            GreenElement::Token(t) => t.text_len(),
        }
    }

    pub fn hash_word(&self) -> (r: u32)
        ensures
            r == self.spec_hash_word(),
    {
        match self {
            GreenElement::Node(n) => n.child_hash(),
            GreenElement::Token(t) => match t.text_key() {
                Some(k) => k.0 as u32,
                None => 0xffff_ffffu32,
            },
        }
    }
}

/// The summed text length of a sequence of elements.
pub open spec fn sum_lens(s: Seq<GreenElement>) -> int
    decreases s.len(),
{
    if s.len() == 0 {
        0
    } else {
        sum_lens(s.drop_last()) + s.last().spec_text_len()
    }
}

/// The words hashed for a child sequence: kind, length and hash word of each
/// child, in order.
pub open spec fn child_words(s: Seq<GreenElement>) -> Seq<u32>
    decreases s.len(),
{
    if s.len() == 0 {
        Seq::empty()
    } else {
        child_words(s.drop_last()).add(
            seq![s.last().spec_kind().0, s.last().spec_text_len(), s.last().spec_hash_word()],
        )
    }
}

/// The 32-bit FxHash of a sequence of words.
pub uninterp spec fn fx_hash32(words: Seq<u32>) -> u32;

/// Relies on `fxhash::hash32`: FxHasher32 over the slice, a function of the
/// words alone.
#[verifier::external_body]
pub(crate) fn hash_words(words: &Vec<u32>) -> (r: u32)
    ensures
        r == fx_hash32(words@),
{
    fxhash::hash32(words.as_slice())
}

/// A node built over `children` of the given kind: its length is the sum of
/// the children's lengths and its hash the FxHash of their words.
pub open spec fn node_over(d: GreenNodeData, kind: RawSyntaxKind, children: Seq<GreenElement>) -> bool {
    &&& d.kind == kind
    &&& d.children@ == children
    &&& d.text_len == sum_lens(children)
    &&& d.child_hash == fx_hash32(child_words(children))
}

pub proof fn lemma_sum_lens_nonneg(s: Seq<GreenElement>)
    ensures
        sum_lens(s) >= 0,
    decreases s.len(),
{
    if s.len() > 0 {
        lemma_sum_lens_nonneg(s.drop_last());
    }
}

/// The length of a concatenation is the sum of the lengths.
pub proof fn lemma_sum_lens_concat(a: Seq<GreenElement>, b: Seq<GreenElement>)
    ensures
        sum_lens(a + b) == sum_lens(a) + sum_lens(b),
    decreases b.len(),
{
    if b.len() == 0 {
        assert(a + b =~= a);
    } else {
        lemma_sum_lens_concat(a, b.drop_last());
        assert((a + b).drop_last() =~= a + b.drop_last());
    }
}

} // verus!
