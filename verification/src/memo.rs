//! The memoization cache a session carries, backed by a hash map.

use vstd::prelude::*;

verus! {

/// The memoization cache of one parse session.
///
/// It maps `(offset, parser identity)` to the recorded outcome of running
/// that parser at that offset: `None` for a success, `Some(pos)` for a
/// failure located at `pos`. Only the outcome is cached, never the produced
/// value, which bounds the cache's size. Parser identities are supplied by
/// the engine driving the parse; the cache does not interpret them.
#[verifier::external_body]
pub struct MemoTable {
    entries: hashbrown::HashMap<(usize, usize), Option<usize>>,
}

/// A cache key: an offset paired with a parser identity.
pub type MemoKey = (usize, usize);

/// What the cache holds: the recorded outcome for each cached
/// (offset, parser identity) key.
pub uninterp spec fn memo_entries(t: MemoTable) -> Map<MemoKey, Option<usize>>;

/// The contents of a cache with nothing recorded in it.
pub open spec fn memo_empty() -> Map<MemoKey, Option<usize>> {
    Map::empty()
}

impl View for MemoTable {
    type V = Map<MemoKey, Option<usize>>;

    open spec fn view(&self) -> Map<MemoKey, Option<usize>> {
        memo_entries(*self)
    }
}

impl MemoTable {
    /// Relies on hashbrown's `HashMap::new`: it creates an empty map.
    #[verifier::external_body]
    pub fn new() -> (r: MemoTable)
        ensures
            r@ == memo_empty(),
    {
        MemoTable { entries: hashbrown::HashMap::new() }
    }

    /// Relies on hashbrown's `HashMap::insert`: it maps the key to the given
    /// value and returns the value the key was mapped to before, if any.
    #[verifier::external_body]
    pub fn insert(&mut self, offset: usize, parser_id: usize, outcome: Option<usize>) -> (prev:
        Option<Option<usize>>)
        ensures
            memo_entries(*final(self)) == memo_entries(*old(self)).insert(
                (offset, parser_id),
                outcome,
            ),
            prev == if memo_entries(*old(self)).dom().contains((offset, parser_id)) {
                Some(memo_entries(*old(self))[(offset, parser_id)])
            } else {
                None::<Option<usize>>
            },
    {
        self.entries.insert((offset, parser_id), outcome)
    }

    /// Relies on hashbrown's `HashMap::get`: it returns the value the key is
    /// mapped to, if any.
    #[verifier::external_body]
    pub fn get(&self, offset: usize, parser_id: usize) -> (r: Option<Option<usize>>)
        ensures
            r == if memo_entries(*self).dom().contains((offset, parser_id)) {
                Some(memo_entries(*self)[(offset, parser_id)])
            } else {
                None::<Option<usize>>
            },
    {
        self.entries.get(&(offset, parser_id)).copied()
    }

    /// Relies on hashbrown's `HashMap::remove`: it removes the key from the
    /// map and returns the value it was mapped to, if any.
    #[verifier::external_body]
    pub fn remove(&mut self, offset: usize, parser_id: usize) -> (r: Option<Option<usize>>)
        ensures
            memo_entries(*final(self)) == memo_entries(*old(self)).remove((offset, parser_id)),
            r == if memo_entries(*old(self)).dom().contains((offset, parser_id)) {
                Some(memo_entries(*old(self))[(offset, parser_id)])
            } else {
                None::<Option<usize>>
            },
    {
        self.entries.remove(&(offset, parser_id))
    }
}

} // verus!
