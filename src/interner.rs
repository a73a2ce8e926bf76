use crate::green::TokenKey;
use crate::shared_map::new_map;
use dashmap::DashMap;
use fxhash::FxBuildHasher;
use std::sync::atomic::{AtomicU64, Ordering};
use vstd::prelude::*;

verus! {

/// A thread-safe string interner: the same text always yields the same key
/// for as long as the interner lives, and a key resolves back to its text.
/// Several threads may intern through one shared reference.
pub struct TokenInterner {
    keys: DashMap<String, TokenKey, FxBuildHasher>,
    texts: DashMap<TokenKey, String, FxBuildHasher>,
    next: AtomicU64,
}

/// Relies on `DashMap::get`: the key stored under `text`, if any.
#[verifier::external_body]
fn known_key(keys: &DashMap<String, TokenKey, FxBuildHasher>, text: &str) -> (r: Option<TokenKey>) {
    keys.get(text).map(|entry| *entry.value())
}

/// Relies on `DashMap::remove`: drops the text recorded under `key`.
#[verifier::external_body]
fn forget_text(texts: &DashMap<TokenKey, String, FxBuildHasher>, key: TokenKey) {
    texts.remove(&key);
}

/// Relies on `DashMap::entry` and `Entry::or_insert`: stores `fresh` under
/// `text` unless a key is already there, and returns the key that is stored.
#[verifier::external_body]
fn key_for_text(keys: &DashMap<String, TokenKey, FxBuildHasher>, text: &str, fresh: TokenKey) -> (r: TokenKey) {
    *keys.entry(text.to_owned()).or_insert(fresh)
}

/// Relies on `DashMap::insert`: records `text` under `key`.
#[verifier::external_body]
fn record_text(texts: &DashMap<TokenKey, String, FxBuildHasher>, key: TokenKey, text: &str) {
    texts.insert(key, text.to_owned());
}

/// Relies on `DashMap::get`: a copy of the text stored under `key`, if any.
#[verifier::external_body]
fn stored_text(texts: &DashMap<TokenKey, String, FxBuildHasher>, key: TokenKey) -> (r: Option<String>) {
    texts.get(&key).map(|entry| entry.value().clone())
}

impl TokenInterner {
    /// An empty interner.
    pub fn new() -> (r: TokenInterner) {
        TokenInterner { keys: new_map(), texts: new_map(), next: AtomicU64::new(0) }
    }

    /// The key of `text`, interning it first if it is new.
    ///
    /// A new key is drawn only when the text is not yet known, and its text is
    /// recorded before the key is published, so every published key resolves.
    /// When another thread publishes a key for the same text first, the drawn
    /// key is withdrawn and the published one is returned to everyone. Keys
    /// are 64-bit and each one drawn backs a stored text, so the counter
    /// cannot wrap within one interner.
    pub fn get_or_intern(&self, text: &str) -> (r: TokenKey) {
        match known_key(&self.keys, text) {
            Some(key) => key,
            None => {
                let fresh = TokenKey(self.next.fetch_add(1, Ordering::Relaxed));
                record_text(&self.texts, fresh, text);
                let key = key_for_text(&self.keys, text, fresh);
                if key.0 != fresh.0 {
                    forget_text(&self.texts, fresh);
                }
                key
            },
        }
    }

    /// The text interned under `key`, or `None` if no text was.
    pub fn resolve(&self, key: TokenKey) -> (r: Option<String>) {
        stored_text(&self.texts, key)
    }
}

impl Default for TokenInterner {
    fn default() -> (r: TokenInterner) {
        TokenInterner::new()
    }
}

} // verus!
