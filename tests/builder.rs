use cstree_green::builder::ThreadedGreenNodeBuilder;
use cstree_green::cache::{ThreadedNodeCache, CHILDREN_CACHE_THRESHOLD};
use cstree_green::green::{GreenElement, GreenNode, RawSyntaxKind, SyntaxKind, TokenKey};
use cstree_green::interner::TokenInterner;
use std::sync::Arc;

const ROOT: SyntaxKind = SyntaxKind { raw: RawSyntaxKind(0), static_text: None };
const INT: SyntaxKind = SyntaxKind { raw: RawSyntaxKind(1), static_text: None };
const IDENT: SyntaxKind = SyntaxKind { raw: RawSyntaxKind(2), static_text: None };
const PLUS: SyntaxKind = SyntaxKind { raw: RawSyntaxKind(3), static_text: Some("+") };
const WRAP: SyntaxKind = SyntaxKind { raw: RawSyntaxKind(4), static_text: None };
const LIST: SyntaxKind = SyntaxKind { raw: RawSyntaxKind(5), static_text: None };

fn same_node(a: &GreenNode, b: &GreenNode) -> bool {
    Arc::ptr_eq(a.shared(), b.shared())
}

fn as_node(e: &GreenElement) -> &GreenNode {
    match e {
        GreenElement::Node(n) => n,
        GreenElement::Token(_) => panic!("expected a node"),
    }
}

fn build_with_tokens(cache: &Arc<ThreadedNodeCache>, kind: SyntaxKind, texts: &[&str]) -> GreenNode {
    let mut b = ThreadedGreenNodeBuilder::with_cache(cache.clone());
    b.start_node(kind);
    for t in texts {
        b.token(INT, t);
    }
    b.finish_node();
    let (root, returned) = b.finish();
    assert!(returned.is_none());
    root
}

#[test]
fn single_token_tree() {
    let mut b = ThreadedGreenNodeBuilder::new();
    b.start_node(ROOT);
    b.token(INT, "42");
    b.finish_node();
    let (root, cache) = b.finish();
    assert_eq!(root.kind(), RawSyntaxKind(0));
    assert_eq!(root.text_len(), 2);
    assert_eq!(root.children().len(), 1);
    let tok = match &root.children()[0] {
        GreenElement::Token(t) => t.clone(),
        GreenElement::Node(_) => panic!("expected a token"),
    };
    assert_eq!(tok.kind(), RawSyntaxKind(1));
    assert_eq!(tok.text_len(), 2);
    let interner = cache.unwrap().into_interner().unwrap();
    assert_eq!(interner.resolve(tok.text_key().unwrap()), Some("42".to_string()));
}

#[test]
fn dedup_identical_subtrees_across_builders() {
    let cache = Arc::new(ThreadedNodeCache::new());
    let a = build_with_tokens(&cache, LIST, &["1", "2"]);
    let b = build_with_tokens(&cache, LIST, &["1", "2"]);
    assert!(same_node(&a, &b));
    match (&a.children()[1], &b.children()[1]) {
        (GreenElement::Token(x), GreenElement::Token(y)) => assert!(Arc::ptr_eq(x.shared(), y.shared())),
        _ => panic!("expected tokens"),
    }
}

#[test]
fn distinct_content_gives_distinct_nodes() {
    let cache = Arc::new(ThreadedNodeCache::new());
    let a = build_with_tokens(&cache, LIST, &["1", "2"]);
    let b = build_with_tokens(&cache, LIST, &["1", "3"]);
    let c = build_with_tokens(&cache, WRAP, &["1", "2"]);
    let d = build_with_tokens(&cache, LIST, &["1", "22"]);
    assert!(!same_node(&a, &b));
    assert_ne!(a, b);
    assert!(!same_node(&a, &c));
    assert_eq!(c.kind(), RawSyntaxKind(4));
    assert_eq!(a.kind(), RawSyntaxKind(5));
    assert_ne!(a.text_len(), d.text_len());
    assert_eq!(d.text_len(), 3);
    // different children hash differently here
    assert_ne!(a.child_hash(), b.child_hash());
}

#[test]
fn document_len_tracks_tokens_and_pops() {
    let mut b = ThreadedGreenNodeBuilder::new();
    assert_eq!(b.document_len(), 0);
    b.start_node(ROOT);
    b.token(IDENT, "abc");
    assert_eq!(b.document_len(), 3);
    b.static_token(PLUS);
    assert_eq!(b.document_len(), 4);
    b.token(INT, "17");
    assert_eq!(b.document_len(), 6);
    let popped = b.pop_last_child();
    assert_eq!(popped.text_len(), 2);
    assert_eq!(b.document_len(), 4);
    b.start_node(WRAP);
    b.token(INT, "5");
    b.finish_node();
    assert_eq!(b.document_len(), 5);
    let popped = b.pop_last_child();
    assert_eq!(popped.kind(), RawSyntaxKind(4));
    assert_eq!(b.document_len(), 4);
    b.finish_node();
    let (root, _) = b.finish();
    assert_eq!(root.text_len(), 4);
}

#[test]
fn checkpoint_wraps_later_children() {
    let mut b = ThreadedGreenNodeBuilder::new();
    b.start_node(ROOT);
    b.token(IDENT, "A");
    let cp = b.checkpoint();
    assert_eq!(cp.index(), 1);
    b.token(IDENT, "B");
    assert!(b.is_valid_checkpoint(cp));
    b.start_node_at(cp, WRAP);
    b.finish_node();
    b.finish_node();
    let (root, cache) = b.finish();
    let interner = cache.unwrap().into_interner().unwrap();
    let children = root.children();
    assert_eq!(children.len(), 2);
    match &children[0] {
        GreenElement::Token(t) => {
            assert_eq!(interner.resolve(t.text_key().unwrap()), Some("A".to_string()))
        }
        GreenElement::Node(_) => panic!("A must stay outside the wrapper"),
    }
    let wrap = as_node(&children[1]);
    assert_eq!(wrap.kind(), RawSyntaxKind(4));
    assert_eq!(wrap.children().len(), 1);
    match &wrap.children()[0] {
        GreenElement::Token(t) => {
            assert_eq!(interner.resolve(t.text_key().unwrap()), Some("B".to_string()))
        }
        GreenElement::Node(_) => panic!("B must be a token"),
    }
}

#[test]
fn stale_checkpoint_is_rejected() {
    let mut b = ThreadedGreenNodeBuilder::new();
    b.start_node(ROOT);
    b.token(IDENT, "A");
    b.start_node(LIST);
    b.token(INT, "1");
    b.token(INT, "2");
    let cp = b.checkpoint();
    assert_eq!(cp.index(), 3);
    assert!(b.is_valid_checkpoint(cp));
    b.finish_node();
    assert!(!b.is_valid_checkpoint(cp));
}

#[test]
fn checkpoint_outside_current_node_is_rejected() {
    let mut b = ThreadedGreenNodeBuilder::new();
    b.start_node(ROOT);
    b.token(IDENT, "A");
    let cp = b.checkpoint();
    b.token(IDENT, "B");
    b.start_node(LIST);
    assert!(!b.is_valid_checkpoint(cp));
    assert_eq!(b.current_children().len(), 0);
}

#[test]
fn token_root_cannot_finish() {
    let mut b = ThreadedGreenNodeBuilder::new();
    b.token(INT, "1");
    assert!(!b.can_finish());
    b.pop_last_child();
    b.start_node(ROOT);
    b.token(INT, "1");
    b.finish_node();
    assert!(b.can_finish());
}

#[test]
fn unbalanced_tree_cannot_finish() {
    let mut b = ThreadedGreenNodeBuilder::new();
    b.start_node(ROOT);
    b.finish_node();
    b.start_node(ROOT);
    b.finish_node();
    assert!(!b.can_finish());
}

#[test]
fn open_frame_cannot_finish() {
    let mut b = ThreadedGreenNodeBuilder::new();
    b.start_node(ROOT);
    b.start_node(LIST);
    b.token(INT, "1");
    b.finish_node();
    assert_eq!(b.open_nodes(), 1);
    assert!(!b.can_finish());
    b.finish_node();
    assert!(b.can_finish());
}

#[test]
fn builder_hands_back_its_own_cache() {
    let mut cache = ThreadedNodeCache::new();
    let key = cache.interner_mut().unwrap().get_or_intern("kept");
    let mut b = ThreadedGreenNodeBuilder::from_cache(cache);
    assert!(b.interner_mut().is_some());
    b.start_node(ROOT);
    b.token(IDENT, "kept");
    b.token(IDENT, "new");
    b.finish_node();
    let (root, cache) = b.finish();
    let interner = cache.unwrap().into_interner().unwrap();
    assert_eq!(interner.resolve(key), Some("kept".to_string()));
    match &root.children()[0] {
        GreenElement::Token(t) => assert_eq!(t.text_key(), Some(key)),
        _ => panic!("expected a token"),
    }
    match &root.children()[1] {
        GreenElement::Token(t) => {
            assert_eq!(interner.resolve(t.text_key().unwrap()), Some("new".to_string()))
        }
        _ => panic!("expected a token"),
    }
}

#[test]
fn shared_cache_is_not_handed_back() {
    let cache = Arc::new(ThreadedNodeCache::new());
    let mut b = ThreadedGreenNodeBuilder::with_cache(cache.clone());
    assert!(b.interner_mut().is_none());
    b.start_node(ROOT);
    b.token(IDENT, "x");
    b.finish_node();
    let (_, returned) = b.finish();
    assert!(returned.is_none());
    let key = cache.intern("x");
    assert_eq!(cache.interner().resolve(key), Some("x".to_string()));
}

#[test]
fn interner_draws_keys_only_for_new_texts() {
    let interner = TokenInterner::new();
    let a = interner.get_or_intern("a");
    for _ in 0..10 {
        assert_eq!(interner.get_or_intern("a"), a);
    }
    let b = interner.get_or_intern("b");
    assert_eq!(b.0, a.0 + 1);
}

#[test]
fn cache_reused_across_trees_shares_tokens() {
    let mut b = ThreadedGreenNodeBuilder::new();
    b.start_node(ROOT);
    b.token(IDENT, "x");
    b.token(INT, "9");
    b.finish_node();
    let (tree1, cache) = b.finish();
    let mut b = ThreadedGreenNodeBuilder::from_cache(cache.unwrap());
    b.start_node(WRAP);
    b.token(IDENT, "y");
    b.token(IDENT, "x");
    b.finish_node();
    let (tree2, _) = b.finish();
    let t1 = match &tree1.children()[0] {
        GreenElement::Token(t) => t.clone(),
        _ => panic!("expected a token"),
    };
    let t2 = match &tree2.children()[1] {
        GreenElement::Token(t) => t.clone(),
        _ => panic!("expected a token"),
    };
    assert!(Arc::ptr_eq(t1.shared(), t2.shared()));
}

#[test]
fn threshold_boundary() {
    assert_eq!(CHILDREN_CACHE_THRESHOLD, 3);
    let cache = Arc::new(ThreadedNodeCache::new());
    let a = build_with_tokens(&cache, LIST, &["1", "2", "3"]);
    let b = build_with_tokens(&cache, LIST, &["1", "2", "3"]);
    assert!(same_node(&a, &b));
    let c = build_with_tokens(&cache, LIST, &["1", "2", "3", "4"]);
    let d = build_with_tokens(&cache, LIST, &["1", "2", "3", "4"]);
    let (nc, nd) = (&c, &d);
    assert!(!same_node(nc, nd));
    assert_eq!(nc, nd);
    assert_eq!(nc.child_hash(), nd.child_hash());
}

#[test]
fn static_token_stores_no_text() {
    let mut b = ThreadedGreenNodeBuilder::new();
    b.start_node(ROOT);
    b.static_token(PLUS);
    b.token(PLUS, "+");
    let children = b.current_children();
    assert_eq!(children.len(), 2);
    for c in children {
        match c {
            GreenElement::Token(t) => {
                assert_eq!(t.text_key(), None);
                assert_eq!(t.text_len(), 1);
            }
            GreenElement::Node(_) => panic!("expected a token"),
        }
    }
    b.finish_node();
    let (root, _) = b.finish();
    let (x, y) = match (&root.children()[0], &root.children()[1]) {
        (GreenElement::Token(x), GreenElement::Token(y)) => (x.clone(), y.clone()),
        _ => panic!("expected tokens"),
    };
    assert!(Arc::ptr_eq(x.shared(), y.shared()));
}

#[test]
fn interner_keys_are_stable() {
    let interner = TokenInterner::new();
    let a = interner.get_or_intern("foo");
    let b = interner.get_or_intern("bar");
    let c = interner.get_or_intern("foo");
    assert_eq!(a, c);
    assert_ne!(a, b);
    assert_eq!(interner.resolve(a), Some("foo".to_string()));
    assert_eq!(interner.resolve(b), Some("bar".to_string()));
    assert_eq!(interner.resolve(TokenKey(1000)), None);
}

#[test]
fn shared_interner_across_caches() {
    let interner = Arc::new(TokenInterner::new());
    let key = interner.get_or_intern("shared");
    let mut b = ThreadedGreenNodeBuilder::with_interner(interner.clone());
    assert!(b.interner_mut().is_none());
    b.start_node(ROOT);
    b.token(IDENT, "shared");
    b.finish_node();
    let (root, cache) = b.finish();
    let cache = cache.unwrap();
    match &root.children()[0] {
        GreenElement::Token(t) => assert_eq!(t.text_key(), Some(key)),
        _ => panic!("expected a token"),
    }
    assert!(cache.into_interner().is_none());
}

#[test]
fn owned_interner_is_mutable() {
    let mut cache = ThreadedNodeCache::from_interner(TokenInterner::new());
    let key = cache.interner_mut().unwrap().get_or_intern("foo");
    assert_eq!(cache.interner().resolve(key), Some("foo".to_string()));
    assert_eq!(cache.intern("foo"), key);
    let mut b = ThreadedGreenNodeBuilder::from_cache(cache);
    assert!(b.interner_mut().is_some());
    assert_eq!(b.interner().resolve(key), Some("foo".to_string()));
}

#[test]
fn cache_node_drains_children() {
    let cache = ThreadedNodeCache::new();
    let t1 = cache.token(RawSyntaxKind(1), None, 2);
    let t2 = cache.token(RawSyntaxKind(1), None, 2);
    assert!(Arc::ptr_eq(t1.shared(), t2.shared()));
    let t3 = cache.token(RawSyntaxKind(1), None, 3);
    let mut all = vec![GreenElement::Token(t1), GreenElement::Token(t2), GreenElement::Token(t3)];
    let n = cache.node(RawSyntaxKind(7), &mut all, 1);
    assert_eq!(all.len(), 1);
    assert_eq!(n.text_len(), 5);
    assert_eq!(n.children().len(), 2);
    assert_eq!(n.kind(), RawSyntaxKind(7));
    let mut again = vec![n.children()[0].clone(), n.children()[1].clone()];
    let m = cache.node(RawSyntaxKind(7), &mut again, 0);
    assert!(again.is_empty());
    assert!(Arc::ptr_eq(n.shared(), m.shared()));
}

#[test]
fn default_builder_and_cache() {
    let mut b = ThreadedGreenNodeBuilder::default();
    b.start_node(ROOT);
    b.finish_node();
    let (root, cache) = b.finish();
    assert_eq!(root.text_len(), 0);
    assert_eq!(root.children().len(), 0);
    assert!(cache.is_some());
    let c = ThreadedNodeCache::default();
    assert!(c.into_interner().is_some());
}
