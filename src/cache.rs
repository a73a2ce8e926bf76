use crate::green::{
    child_words, hash_words, lemma_sum_lens_concat, lemma_sum_lens_nonneg,
    node_over, sum_lens, GreenElement, GreenNode, GreenNodeData, GreenToken, GreenTokenData,
    RawSyntaxKind, TokenKey,
};
use crate::interner::TokenInterner;
use crate::shared_map::new_map;
use dashmap::DashMap;
use fxhash::FxBuildHasher;
use std::sync::Arc;
use vstd::prelude::*;

verus! {

/// Nodes with at most this many direct children are looked up in the cache
/// before a new one is made; larger nodes are always made fresh.
pub const CHILDREN_CACHE_THRESHOLD: usize = 3;

/// The interner a cache uses: its own, or one it shares with others.
pub enum InternerRef {
    Owned(TokenInterner),
    Shared(Arc<TokenInterner>),
}

/// Deduplicates identical tokens and small nodes during tree construction.
/// Entries are never removed. One cache may be shared by builders on several
/// threads; an insert race on one key leaves exactly one shared instance.
pub struct ThreadedNodeCache {
    nodes: DashMap<GreenNodeData, GreenNode, FxBuildHasher>,
    tokens: DashMap<GreenTokenData, GreenToken, FxBuildHasher>,
    interner: InternerRef,
}

/// Relies on `DashMap::entry` and `Entry::or_insert_with`: returns the node
/// stored under `data`, storing a new one made from `data` if there is none.
/// Every node in the map was stored under its own content, and the key's `Eq`
/// compares all of that content, so what comes back is equal to `data`.
#[verifier::external_body]
fn get_cached_node(nodes: &DashMap<GreenNodeData, GreenNode, FxBuildHasher>, data: GreenNodeData) -> (r: GreenNode)
    ensures
        r@ == data,
{
    nodes.entry(data.clone()).or_insert_with(|| GreenNode::new(data)).clone()
}

/// Relies on `DashMap::entry` and `Entry::or_insert_with`: returns the token
/// stored under `data`, storing a new one made from `data` if there is none.
/// Every token in the map was stored under its own content, so what comes back
/// is equal to `data`.
#[verifier::external_body]
fn cached_token(tokens: &DashMap<GreenTokenData, GreenToken, FxBuildHasher>, data: GreenTokenData) -> (r: GreenToken)
    ensures
        r@ == data,
{
    tokens.entry(data.clone()).or_insert_with(|| GreenToken::new(data)).clone()
}

impl ThreadedNodeCache {
    /// Whether this cache owns its interner (and so can hand it out mutably
    /// or give it back).
    pub closed spec fn owns_interner(&self) -> bool {
        self.interner is Owned
    }

    /// The interner this cache interns through.
    pub closed spec fn interner_value(&self) -> TokenInterner {
        match self.interner {
            InternerRef::Owned(i) => i,
            InternerRef::Shared(i) => *i,
        }
    }

    /// A new, empty cache with a new interner of its own.
    pub fn new() -> (r: ThreadedNodeCache)
        ensures
            r.owns_interner(),
    {
        ThreadedNodeCache {
            nodes: new_map(),
            tokens: new_map(),
            interner: InternerRef::Owned(TokenInterner::new()),
        }
    }

    /// A new, empty cache that interns through an interner shared with others.
    pub fn with_interner(interner: Arc<TokenInterner>) -> (r: ThreadedNodeCache)
        ensures
            !r.owns_interner(),
            r.interner_value() == *interner,
    {
        ThreadedNodeCache { nodes: new_map(), tokens: new_map(), interner: InternerRef::Shared(interner) }
    }

    /// A new, empty cache that takes ownership of `interner`.
    pub fn from_interner(interner: TokenInterner) -> (r: ThreadedNodeCache)
        ensures
            r.owns_interner(),
            r.interner_value() == interner,
    {
        ThreadedNodeCache { nodes: new_map(), tokens: new_map(), interner: InternerRef::Owned(interner) }
    }

    /// The interner used to deduplicate token text.
    pub fn interner(&self) -> (r: &TokenInterner)
        ensures
            *r == self.interner_value(),
    {
        match &self.interner {
            InternerRef::Owned(i) => i,
            InternerRef::Shared(i) => &**i,
        }
    }

    /// Mutable access to the interner, only when this cache owns it.
    pub fn interner_mut(&mut self) -> (r: Option<&mut TokenInterner>)
        ensures
            r is Some <==> old(self).owns_interner(),
            r matches Some(i) ==> *i == old(self).interner_value(),
            r is None ==> *final(self) == *old(self),
    {
        match &mut self.interner {
            InternerRef::Owned(i) => Some(i),
            InternerRef::Shared(_) => None,
        }
    }

    /// Gives the interner back when this cache owns it.
    pub fn into_interner(self) -> (r: Option<TokenInterner>)
        ensures
            r is Some <==> self.owns_interner(),
            r matches Some(i) ==> i == self.interner_value(),
    {
        match self.interner {
            InternerRef::Owned(i) => Some(i),
            InternerRef::Shared(_) => None,
        }
    }

    /// The key of `text` in this cache's interner.
    pub fn intern(&self, text: &str) -> (r: TokenKey) {
        self.interner().get_or_intern(text)
    }

    /// The shared token for exactly this kind, text key and length.
    pub fn token(&self, kind: RawSyntaxKind, text: Option<TokenKey>, len: u32) -> (r: GreenToken)
        ensures
            r@ == (GreenTokenData { kind, text, text_len: len }),
    {
        cached_token(&self.tokens, GreenTokenData { kind, text, text_len: len })
    }

    /// Builds a node of `kind` over the children from `offset` on, which are
    /// moved out of `all_children`. A node with at most
    /// `CHILDREN_CACHE_THRESHOLD` children is the cached instance with exactly
    /// that content; a larger one is fresh.
    pub fn node(&self, kind: RawSyntaxKind, all_children: &mut Vec<GreenElement>, offset: usize) -> (r: GreenNode)
        requires
            offset <= old(all_children)@.len(),
            sum_lens(old(all_children)@.subrange(offset as int, old(all_children)@.len() as int)) <= u32::MAX,
        ensures
            final(all_children)@ == old(all_children)@.subrange(0, offset as int),
            node_over(r@, kind, old(all_children)@.subrange(offset as int, old(all_children)@.len() as int)),
    {
        let ghost all = all_children@;
        let ghost tail = all.subrange(offset as int, all.len() as int);
        let mut text_len: u32 = 0;
        let mut words: Vec<u32> = Vec::new();
        let mut i: usize = offset;
        while i < all_children.len()
            invariant
                all_children@ == all,
                tail == all.subrange(offset as int, all.len() as int),
                offset <= i <= all.len(),
                text_len == sum_lens(all.subrange(offset as int, i as int)),
                words@ == child_words(all.subrange(offset as int, i as int)),
                sum_lens(tail) <= u32::MAX,
            decreases all.len() - i,
        {
            let c = &all_children[i];
            let ghost pre = all.subrange(offset as int, i as int);
            let ghost next = all.subrange(offset as int, i as int + 1);
            let ghost rest = all.subrange(i as int + 1, all.len() as int);
            proof {
                assert(next.drop_last() =~= pre);
                assert(tail =~= next + rest);
                lemma_sum_lens_concat(next, rest);
                lemma_sum_lens_nonneg(rest);
                lemma_sum_lens_nonneg(pre);
            }
            text_len = text_len + c.text_len();
            words.push(c.kind().0);
            words.push(c.text_len());
            words.push(c.hash_word());
            proof {
                assert(words@ =~= child_words(next));
            }
            i = i + 1;
        }
        let child_hash = hash_words(&words);
        let children = all_children.split_off(offset);
        let n = children.len();
        let data = GreenNodeData { kind, text_len, child_hash, children };
        if n <= CHILDREN_CACHE_THRESHOLD {
            get_cached_node(&self.nodes, data)
        } else {
            GreenNode::new(data)
        }
    }
}

impl Default for ThreadedNodeCache {
    fn default() -> (r: ThreadedNodeCache)
        ensures
            r.owns_interner(),
    {
        ThreadedNodeCache::new()
    }
}

/// The cache never conflates structurally distinct nodes: if the nodes that
/// `node` returns for two requests are equal, the requests had the same kind
/// and the same children, and hence the same length. Entries are keyed by the
/// whole content, so a collision of the structural hash cannot merge them.
pub proof fn lemma_fingerprint_sound(
    a: GreenNode,
    kind_a: RawSyntaxKind,
    children_a: Seq<GreenElement>,
    b: GreenNode,
    kind_b: RawSyntaxKind,
    children_b: Seq<GreenElement>,
)
    requires
        node_over(a@, kind_a, children_a),
        node_over(b@, kind_b, children_b),
        a@ == b@,
    ensures
        kind_a == kind_b,
        children_a == children_b,
        sum_lens(children_a) == sum_lens(children_b),
{
}

} // verus!
