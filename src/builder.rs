use crate::cache::ThreadedNodeCache;
use crate::green::{
    lemma_sum_lens_concat, lemma_sum_lens_nonneg, node_over, sum_lens, GreenElement, GreenNode,
    RawSyntaxKind, SyntaxKind,
};
use crate::interner::TokenInterner;
use std::sync::Arc;
use vstd::pervasive::unreached;
use vstd::prelude::*;
use vstd::slice::slice_subrange;

verus! {

/// A saved position in the builder's pending children, used to wrap what is
/// added after it in a node opened later with `start_node_at`.
#[derive(Clone, Copy, Debug, PartialEq, Eq)]
pub struct Checkpoint(usize);

impl Checkpoint {
    pub closed spec fn at(&self) -> usize {
        self.0
    }

    /// The index of pending children at which this checkpoint was taken.
    pub fn index(&self) -> (r: usize)
        ensures
            r == self.at(),
    {
        self.0
    }
}

/// The cache a builder works with: its own (handed back by `finish`), or one
/// shared with other builders.
pub enum CacheRef {
    Owned(ThreadedNodeCache),
    Shared(Arc<ThreadedNodeCache>),
}

/// Builds one green tree from start-node / token / finish-node events.
///
/// The state is a stack of open nodes, each with its kind and the index in the
/// pending children at which its own children begin, the flat list of pending
/// children, and the running length of the document.
pub struct ThreadedGreenNodeBuilder {
    cache: CacheRef,
    parents: Vec<(RawSyntaxKind, usize)>,
    children: Vec<GreenElement>,
    doc_len: u32,
}

/// Whether `e` is a token of `kind` and length `len`, with an interned text
/// exactly when the kind has no static text.
pub open spec fn token_for(e: GreenElement, kind: SyntaxKind, len: nat) -> bool {
    &&& e is Token
    &&& e->Token_0@.kind == kind.raw
    &&& e->Token_0@.text_len == len
    &&& (e->Token_0@.text is None <==> kind.static_text is Some)
}

fn cache_of(c: &CacheRef) -> (r: &ThreadedNodeCache)
    ensures
        *r == match *c {
            CacheRef::Owned(cache) => cache,
            CacheRef::Shared(cache) => *cache,
        },
{
    match c {
        CacheRef::Owned(cache) => cache,
        CacheRef::Shared(cache) => &**cache,
    }
}

impl ThreadedGreenNodeBuilder {
    /// The open nodes, innermost last: kind and index of the first child.
    pub closed spec fn parents(&self) -> Seq<(RawSyntaxKind, usize)> {
        self.parents@
    }

    /// The pending children of all open nodes, in order.
    pub closed spec fn children(&self) -> Seq<GreenElement> {
        self.children@
    }

    /// The running document length.
    pub closed spec fn doc_len(&self) -> nat {
        self.doc_len as nat
    }

    /// The cache this builder works with, owned or shared.
    pub closed spec fn cache_ref(&self) -> CacheRef {
        self.cache
    }

    /// Whether the builder owns its cache (and `finish` hands it back).
    pub open spec fn owns_cache(&self) -> bool {
        self.cache_ref() is Owned
    }

    /// The cache that `finish` hands back: the builder's own, if it owns one.
    pub open spec fn owned_cache(&self) -> Option<ThreadedNodeCache> {
        match self.cache_ref() {
            CacheRef::Owned(c) => Some(c),
            CacheRef::Shared(_) => None,
        }
    }

    /// The cache that tokens and small nodes are looked up in.
    pub open spec fn cache_value(&self) -> ThreadedNodeCache {
        match self.cache_ref() {
            CacheRef::Owned(c) => c,
            CacheRef::Shared(c) => *c,
        }
    }

    /// Where the children of the innermost open node begin.
    pub open spec fn current_first(&self) -> int {
        if self.parents().len() == 0 {
            0
        } else {
            self.parents().last().1 as int
        }
    }

    pub open spec fn checkpoint_ok(&self, checkpoint: Checkpoint) -> bool {
        &&& checkpoint.at() <= self.children().len()
        &&& checkpoint.at() >= self.current_first()
    }

    pub open spec fn finishable(&self) -> bool {
        &&& self.parents().len() == 0
        &&& self.children().len() == 1
        &&& self.children()[0] is Node
    }

    /// The open nodes' first-child indices rise from outer to inner and lie
    /// within the pending children, and the document length is the summed
    /// length of the pending children.
    pub open spec fn wf(&self) -> bool {
        &&& forall|i: int|
            0 <= i < self.parents().len() ==> #[trigger] self.parents()[i].1 <= self.children().len()
        &&& forall|i: int, j: int|
            0 <= i <= j < self.parents().len() ==> #[trigger] self.parents()[i].1
                <= #[trigger] self.parents()[j].1
        &&& self.doc_len() == sum_lens(self.children())
    }

    fn with_cache_ref(cache: CacheRef) -> (r: ThreadedGreenNodeBuilder)
        ensures
            r.wf(),
            r.parents().len() == 0,
            r.children().len() == 0,
            r.cache_ref() == cache,
    {
        ThreadedGreenNodeBuilder { cache, parents: Vec::new(), children: Vec::new(), doc_len: 0 }
    }

    /// A builder with a new cache of its own.
    pub fn new() -> (r: ThreadedGreenNodeBuilder)
        ensures
            r.wf(),
            r.parents().len() == 0,
            r.children().len() == 0,
            r.owns_cache(),
            r.cache_value().owns_interner(),
    {
        Self::with_cache_ref(CacheRef::Owned(ThreadedNodeCache::new()))
    }

    /// A builder that deduplicates through a cache shared with other builders.
    pub fn with_cache(cache: Arc<ThreadedNodeCache>) -> (r: ThreadedGreenNodeBuilder)
        ensures
            r.wf(),
            r.parents().len() == 0,
            r.children().len() == 0,
            r.cache_ref() == CacheRef::Shared(cache),
    {
        Self::with_cache_ref(CacheRef::Shared(cache))
    }

    /// A builder that takes `cache` and hands it back on `finish`.
    pub fn from_cache(cache: ThreadedNodeCache) -> (r: ThreadedGreenNodeBuilder)
        ensures
            r.wf(),
            r.parents().len() == 0,
            r.children().len() == 0,
            r.cache_ref() == CacheRef::Owned(cache),
    {
        Self::with_cache_ref(CacheRef::Owned(cache))
    }

    /// A builder with a new cache that interns through a shared interner.
    pub fn with_interner(interner: Arc<TokenInterner>) -> (r: ThreadedGreenNodeBuilder)
        ensures
            r.wf(),
            r.parents().len() == 0,
            r.children().len() == 0,
            r.owns_cache(),
            !r.cache_value().owns_interner(),
            r.cache_value().interner_value() == *interner,
    {
        Self::from_cache(ThreadedNodeCache::with_interner(interner))
    }

    /// A builder with a new cache that owns `interner`.
    pub fn from_interner(interner: TokenInterner) -> (r: ThreadedGreenNodeBuilder)
        ensures
            r.wf(),
            r.parents().len() == 0,
            r.children().len() == 0,
            r.owns_cache(),
            r.cache_value().owns_interner(),
            r.cache_value().interner_value() == interner,
    {
        Self::from_cache(ThreadedNodeCache::from_interner(interner))
    }

    /// The interner of the underlying cache.
    pub fn interner(&self) -> (r: &TokenInterner)
        ensures
            *r == self.cache_value().interner_value(),
    {
        cache_of(&self.cache).interner()
    }

    /// Mutable access to the interner, only when this builder owns its cache
    /// and that cache owns its interner.
    pub fn interner_mut(&mut self) -> (r: Option<&mut TokenInterner>)
        ensures
            r is Some <==> old(self).owns_cache() && old(self).cache_value().owns_interner(),
            r matches Some(i) ==> *i == old(self).cache_value().interner_value(),
    {
        match &mut self.cache {
            CacheRef::Owned(cache) => cache.interner_mut(),
            CacheRef::Shared(_) => None,
        }
    }

    /// Adds a token of `kind` to the current node. For a kind with static
    /// text, `text` must be that text and the token stores no text key;
    /// otherwise `text` is interned and the token carries its key.
    pub fn token(&mut self, kind: SyntaxKind, text: &str)
        requires
            old(self).wf(),
            kind.static_text matches Some(st) ==> st@ == text@,
            old(self).doc_len() + text.len() <= u32::MAX,
        ensures
            final(self).wf(),
            final(self).cache_ref() == old(self).cache_ref(),
            final(self).parents() == old(self).parents(),
            final(self).children().len() == old(self).children().len() + 1,
            final(self).children().drop_last() == old(self).children(),
            token_for(final(self).children().last(), kind, text.len() as nat),
            final(self).doc_len() == old(self).doc_len() + text.len(),
    {
        let cache = cache_of(&self.cache);
        let token = match kind.static_text {
            Some(static_text) => cache.token(kind.raw, None, static_text.len() as u32),
            None => {
                let len = text.len() as u32;
                let key = cache.intern(text);
                cache.token(kind.raw, Some(key), len)
            },
        };
        self.push_token(GreenElement::Token(token));
    }

    /// Adds a token of `kind`, whose text is fixed by the kind, without
    /// storing any text.
    pub fn static_token(&mut self, kind: SyntaxKind)
        requires
            old(self).wf(),
            kind.static_text is Some,
            old(self).doc_len() + kind.static_text->0.len() <= u32::MAX,
        ensures
            final(self).wf(),
            final(self).cache_ref() == old(self).cache_ref(),
            final(self).parents() == old(self).parents(),
            final(self).children().len() == old(self).children().len() + 1,
            final(self).children().drop_last() == old(self).children(),
            token_for(final(self).children().last(), kind, kind.static_text->0.len() as nat),
            final(self).doc_len() == old(self).doc_len() + kind.static_text->0.len(),
    {
        let static_text = kind.static_text.unwrap();
        let token = cache_of(&self.cache).token(kind.raw, None, static_text.len() as u32);
        self.push_token(GreenElement::Token(token));
    }

    fn push_token(&mut self, token: GreenElement)
        requires
            old(self).wf(),
            old(self).doc_len() + token.spec_text_len() <= u32::MAX,
        ensures
            final(self).wf(),
            final(self).cache_ref() == old(self).cache_ref(),
            final(self).cache == old(self).cache,
            final(self).parents() == old(self).parents(),
            final(self).children() == old(self).children().push(token),
            final(self).doc_len() == old(self).doc_len() + token.spec_text_len(),
    {
        let text_len = token.text_len();
        self.children.push(token);
        self.doc_len = self.doc_len + text_len;
        proof {
            assert(self.children@.drop_last() =~= old(self).children@);
            assert forall|i: int| 0 <= i < self.parents().len() implies #[trigger] self.parents()[i].1
                <= self.children().len() by {
                assert(old(self).parents()[i].1 <= old(self).children().len());
            }
        }
    }

    /// Opens a node of `kind`; its children are what is added from now on.
    pub fn start_node(&mut self, kind: SyntaxKind)
        requires
            old(self).wf(),
        ensures
            final(self).wf(),
            final(self).cache_ref() == old(self).cache_ref(),
            final(self).parents() == old(self).parents().push((kind.raw, old(self).children().len() as usize)),
            final(self).parents().last().1 == final(self).children().len(),
            final(self).children() == old(self).children(),
            final(self).doc_len() == old(self).doc_len(),
    {
        let len = self.children.len();
        self.parents.push((kind.raw, len));
        proof {
            let n = old(self).parents().len() as int;
            assert forall|i: int, j: int| 0 <= i <= j < self.parents().len() implies #[trigger] self.parents()[i].1
                <= #[trigger] self.parents()[j].1 by {
                if j == n {
                    if i < n {
                        assert(old(self).parents()[i].1 <= old(self).children().len());
                    }
                } else {
                    assert(old(self).parents()[i].1 <= old(self).parents()[j].1);
                }
            }
        }
    }

    /// Closes the innermost open node: its children are replaced by one node
    /// of its kind that holds them.
    pub fn finish_node(&mut self)
        requires
            old(self).wf(),
            old(self).parents().len() > 0,
        ensures
            final(self).wf(),
            final(self).cache_ref() == old(self).cache_ref(),
            final(self).parents() == old(self).parents().drop_last(),
            ({
                let first = old(self).parents().last().1 as int;
                let kind = old(self).parents().last().0;
                &&& final(self).children().len() == first + 1
                &&& final(self).children().drop_last() == old(self).children().take(first)
                &&& final(self).children().last() is Node
                &&& node_over(
                    final(self).children().last()->Node_0@,
                    kind,
                    old(self).children().skip(first),
                )
            }),
            final(self).doc_len() == old(self).doc_len(),
    {
        let ghost old_children = self.children@;
        let (kind, first_child) = self.parents.pop().unwrap();
        proof {
            assert(old(self).parents@[old(self).parents@.len() - 1].1 <= old_children.len());
            lemma_sum_lens_concat(old_children.take(first_child as int), old_children.skip(first_child as int));
            assert(old_children =~= old_children.take(first_child as int) + old_children.skip(first_child as int));
            assert(old_children.skip(first_child as int) =~= old_children.subrange(first_child as int, old_children.len() as int));
            lemma_sum_lens_nonneg(old_children.take(first_child as int));
        }
        let node = cache_of(&self.cache).node(kind, &mut self.children, first_child);
        self.children.push(GreenElement::Node(node));
        proof {
            assert(self.children@.drop_last() =~= old_children.take(first_child as int));
            assert forall|i: int| 0 <= i < self.parents@.len() implies #[trigger] self.parents@[i].1
                <= self.children@.len() by {
                assert(old(self).parents@[i].1 <= old(self).parents@[old(self).parents@.len() - 1].1);
            }
        }
    }

    /// The current number of pending children, to wrap what follows later.
    pub fn checkpoint(&self) -> (r: Checkpoint)
        ensures
            r.at() == self.children().len(),
    {
        Checkpoint(self.children.len())
    }

    /// Whether `start_node_at` accepts `checkpoint` now: no node was finished
    /// over its position, and it lies within the innermost open node.
    pub fn is_valid_checkpoint(&self, checkpoint: Checkpoint) -> (r: bool)
        ensures
            r == self.checkpoint_ok(checkpoint),
    {
        let at = checkpoint.0;
        if at > self.children.len() {
            false
        } else if self.parents.len() > 0 {
            at >= self.parents[self.parents.len() - 1].1
        } else {
            true
        }
    }

    /// Opens a node of `kind` whose children begin at `checkpoint`: it will
    /// wrap everything added since the checkpoint was taken.
    pub fn start_node_at(&mut self, checkpoint: Checkpoint, kind: SyntaxKind)
        requires
            old(self).wf(),
            old(self).checkpoint_ok(checkpoint),
        ensures
            final(self).wf(),
            final(self).cache_ref() == old(self).cache_ref(),
            final(self).parents() == old(self).parents().push((kind.raw, checkpoint.at())),
            final(self).children() == old(self).children(),
            final(self).doc_len() == old(self).doc_len(),
    {
        self.parents.push((kind.raw, checkpoint.0));
    }

    /// The children of the innermost open node (all pending children when no
    /// node is open).
    pub fn current_children(&self) -> (r: &[GreenElement])
        requires
            self.wf(),
        ensures
            r@ == self.children().skip(self.current_first()),
    {
        let first_child: usize = if self.parents.len() > 0 {
            assert(self.parents()[self.parents().len() - 1].1 <= self.children().len());
            self.parents[self.parents.len() - 1].1
        } else {
            0
        };
        let r = slice_subrange(self.children.as_slice(), first_child, self.children.len());
        proof {
            assert(r@ =~= self.children().skip(self.current_first()));
        }
        r
    }

    /// Removes the last child of the innermost open node and returns it.
    pub fn pop_last_child(&mut self) -> (r: GreenElement)
        requires
            old(self).wf(),
            old(self).children().len() > old(self).current_first(),
        ensures
            final(self).wf(),
            final(self).cache_ref() == old(self).cache_ref(),
            r == old(self).children().last(),
            final(self).parents() == old(self).parents(),
            final(self).children() == old(self).children().drop_last(),
            final(self).doc_len() == old(self).doc_len() - r.spec_text_len(),
    {
        let ghost old_children = self.children@;
        let elem = self.children.pop().unwrap();
        proof {
            lemma_sum_lens_nonneg(old_children.drop_last());
            assert forall|i: int| 0 <= i < self.parents@.len() implies #[trigger] self.parents@[i].1
                <= self.children@.len() by {
                assert(self.parents@[i].1 <= self.parents@[self.parents@.len() - 1].1);
            }
        }
        self.doc_len = self.doc_len - elem.text_len();
        elem
    }

    /// How many nodes are open.
    pub fn open_nodes(&self) -> (r: usize)
        ensures
            r == self.parents().len(),
    {
        self.parents.len()
    }

    /// The summed length of all text added so far.
    pub fn document_len(&self) -> (r: u32)
        ensures
            r == self.doc_len(),
    {
        self.doc_len
    }

    /// Whether `finish` accepts this builder now: exactly one element is
    /// pending, and it is a node.
    pub fn can_finish(&self) -> (r: bool)
        ensures
            r == self.finishable(),
    {
        self.parents.len() == 0 && self.children.len() == 1 && match &self.children[0] {
            GreenElement::Node(_) => true,
            GreenElement::Token(_) => false,
        }
    }

    /// Ends the build: the root node, and the cache when this builder owned
    /// it, for the next tree.
    pub fn finish(self) -> (r: (GreenNode, Option<ThreadedNodeCache>))
        requires
            self.finishable(),
        ensures
            GreenElement::Node(r.0) == self.children()[0],
            r.1 == self.owned_cache(),
    {
        let mut children = self.children;
        let root = children.pop().unwrap();
        let cache = match self.cache {
            CacheRef::Owned(cache) => Some(cache),
            CacheRef::Shared(_) => None,
        };
        match root {
            GreenElement::Node(node) => (node, cache),
            GreenElement::Token(_) => unreached(),
        }
    }
}

impl Default for ThreadedGreenNodeBuilder {
    fn default() -> (r: ThreadedGreenNodeBuilder)
        ensures
            r.wf(),
            r.parents().len() == 0,
            r.children().len() == 0,
            r.owns_cache(),
    {
        ThreadedGreenNodeBuilder::new()
    }
}

/// Whatever sequence of operations produced a well-formed builder, its
/// document length is the summed length of everything pending; every node
/// pending is as long as the children it holds, so this is the length of all
/// tokens reachable from the pending children.
pub proof fn lemma_document_len_is_pending_len(b: ThreadedGreenNodeBuilder)
    requires
        b.wf(),
    ensures
        b.doc_len() == sum_lens(b.children()),
{
}

/// A checkpoint at an index past the pending children (a node was finished
/// over its position) is refused by `start_node_at`.
pub proof fn lemma_stale_checkpoint_refused(b: ThreadedGreenNodeBuilder, checkpoint: Checkpoint)
    requires
        checkpoint.at() > b.children().len(),
    ensures
        !b.checkpoint_ok(checkpoint),
{
}

/// A builder whose only pending element is a token cannot finish: the root
/// of a tree is a node.
pub proof fn lemma_token_root_refused(b: ThreadedGreenNodeBuilder)
    requires
        b.children().len() == 1,
        b.children()[0] is Token,
    ensures
        !b.finishable(),
{
}

} // verus!
