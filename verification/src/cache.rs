//! The in-memory access-token cache.
//!
//! Maps an issued access token to the session metadata it stands for. Entries
//! auto-expire operationally (the TTL is a deployment parameter, not modelled
//! here); what is modelled is the content: lookup, insertion, invalidation by
//! token, and invalidation of every entry for a (client, user) pair, which is
//! what keeps at most one live access token per pair.

use vstd::prelude::*;

verus! {

/// Session metadata an access token stands for: the client it was minted for,
/// the user, and the durable underlying session token backing it.
pub struct ClientSession {
    pub client_id: String,
    pub user_id: u64,
    pub token: String,
}

/// One cache entry: an access token and the session it names.
pub struct CacheEntry {
    pub token: String,
    pub session: ClientSession,
}

/// The entry carries session metadata for exactly this (client, user) pair.
pub open spec fn entry_matches_pair(e: CacheEntry, client_id: Seq<char>, user_id: u64) -> bool {
    e.session.client_id@ == client_id && e.session.user_id == user_id
}

/// `s` with every entry under `token` removed.
pub open spec fn remove_token(s: Seq<CacheEntry>, token: Seq<char>) -> Seq<CacheEntry> {
    s.filter(|e: CacheEntry| e.token@ != token)
}

/// `s` with every entry for the (client, user) pair removed.
pub open spec fn remove_pair(s: Seq<CacheEntry>, client_id: Seq<char>, user_id: u64) -> Seq<
    CacheEntry,
> {
    s.filter(|e: CacheEntry| !entry_matches_pair(e, client_id, user_id))
}

/// The entries of `s` that are live for the (client, user) pair.
pub open spec fn live_pair(s: Seq<CacheEntry>, client_id: Seq<char>, user_id: u64) -> Seq<
    CacheEntry,
> {
    s.filter(|e: CacheEntry| entry_matches_pair(e, client_id, user_id))
}

/// The first session stored under `token`, if any.
pub open spec fn spec_cache_get(s: Seq<CacheEntry>, token: Seq<char>) -> Option<ClientSession>
    decreases s.len(),
{
    if s.len() == 0 {
        None
    } else if s[0].token@ == token {
        Some(s[0].session)
    } else {
        spec_cache_get(s.drop_first(), token)
    }
}

/// One filtering step: extending the prefix by one element either keeps it or
/// drops it, by the predicate.
proof fn lemma_filter_take_step(s: Seq<CacheEntry>, pred: spec_fn(CacheEntry) -> bool, i: int)
    requires
        0 <= i < s.len(),
    ensures
        pred(s[i]) ==> s.take(i + 1).filter(pred) == s.take(i).filter(pred).push(s[i]),
        !pred(s[i]) ==> s.take(i + 1).filter(pred) == s.take(i).filter(pred),
{
    assert(s.take(i + 1).drop_last() =~= s.take(i));
    assert(s.take(i + 1).last() == s[i]);
    reveal_with_fuel(Seq::filter, 2);
}

/// When no entry among the first `i` holds `token`, lookup is decided by the
/// rest of the sequence.
proof fn lemma_cache_get_skip(s: Seq<CacheEntry>, token: Seq<char>, i: int)
    requires
        0 <= i <= s.len(),
        forall|j: int| 0 <= j < i ==> #[trigger] s[j].token@ != token,
    ensures
        spec_cache_get(s, token) == spec_cache_get(s.skip(i), token),
    decreases i,
{
    if i == 0 {
        assert(s.skip(0) =~= s);
    } else {
        lemma_cache_get_skip(s, token, i - 1);
        assert(s.skip(i - 1).drop_first() =~= s.skip(i));
        assert(s.skip(i - 1)[0] == s[i - 1]);
    }
}

/// A copy of the entry, equal as a value.
fn clone_entry(e: &CacheEntry) -> (r: CacheEntry)
    ensures
        r == *e,
{
    CacheEntry {
        token: e.token.clone(),
        session: ClientSession {
            client_id: e.session.client_id.clone(),
            user_id: e.session.user_id,
            token: e.session.token.clone(),
        },
    }
}

/// The expiring access-token store.
pub struct TokenCache {
    entries: Vec<CacheEntry>,
}

impl View for TokenCache {
    type V = Seq<CacheEntry>;

    closed spec fn view(&self) -> Seq<CacheEntry> {
        self.entries@
    }
}

impl TokenCache {
    /// An empty cache.
    pub fn new() -> (r: TokenCache)
        ensures
            r@ == Seq::<CacheEntry>::empty(),
    {
        TokenCache { entries: Vec::new() }
    }

    /// How many entries are live.
    pub fn len(&self) -> (n: usize)
        ensures
            n == self@.len(),
    {
        self.entries.len()
    }

    /// The entry at position `i`; with `len`, this is the iteration primitive
    /// bulk scans use.
    pub fn entry_at(&self, i: usize) -> (r: &CacheEntry)
        requires
            i < self@.len(),
        ensures
            *r == self@[i as int],
    {
        &self.entries[i]
    }

    /// Look up the session stored under `token`.
    pub fn get(&self, token: &String) -> (r: Option<&ClientSession>)
        ensures
            match r {
                Some(s) => spec_cache_get(self@, token@) == Some(*s),
                None => spec_cache_get(self@, token@) is None,
            },
    {
        let n = self.entries.len();
        let mut i: usize = 0;
        while i < n
            invariant
                0 <= i <= n,
                n == self.entries@.len(),
                forall|j: int| 0 <= j < i ==> #[trigger] self.entries@[j].token@ != token@,
            decreases n - i,
        {
            if self.entries[i].token == *token {
                proof {
                    lemma_cache_get_skip(self.entries@, token@, i as int);
                    assert(self.entries@.skip(i as int)[0] == self.entries@[i as int]);
                }
                return Some(&self.entries[i].session);
            }
            i = i + 1;
        }
        proof {
            lemma_cache_get_skip(self.entries@, token@, i as int);
            assert(self.entries@.skip(i as int) =~= Seq::<CacheEntry>::empty());
        }
        None
    }

    /// Drop every entry stored under `token`.
    #[verifier::loop_isolation(false)]
    pub fn invalidate(&mut self, token: &String)
        ensures
            final(self)@ == remove_token(old(self)@, token@),
    {
        let ghost orig = self.entries@;
        let ghost pred = |e: CacheEntry| e.token@ != token@;
        let n = self.entries.len();
        let mut kept: Vec<CacheEntry> = Vec::new();
        let mut i: usize = 0;
        proof {
            assert(orig.take(0).filter(pred) =~= Seq::<CacheEntry>::empty());
        }
        while i < n
            invariant
                0 <= i <= n,
                n == self.entries@.len(),
                self.entries@ == orig,
                kept@ == orig.take(i as int).filter(pred),
            decreases n - i,
        {
            proof {
                lemma_filter_take_step(orig, pred, i as int);
            }
            if !(self.entries[i].token == *token) {
                kept.push(clone_entry(&self.entries[i]));
            }
            i = i + 1;
        }
        proof {
            assert(orig.take(n as int) =~= orig);
        }
        self.entries = kept;
    }

    /// Store `session` under `token`, replacing anything already stored under
    /// that token.
    pub fn insert(&mut self, token: String, session: ClientSession)
        ensures
            final(self)@ == remove_token(old(self)@, token@).push((CacheEntry { token, session })),
    {
        self.invalidate(&token);
        let e = CacheEntry { token, session };
        self.entries.push(e);
    }

    /// Drop every entry minted for the (client, user) pair; this is the bulk
    /// invalidation run before a new token for the pair is minted.
    #[verifier::loop_isolation(false)]
    pub fn invalidate_pair(&mut self, client_id: &String, user_id: u64)
        ensures
            final(self)@ == remove_pair(old(self)@, client_id@, user_id),
    {
        let ghost orig = self.entries@;
        let ghost pred = |e: CacheEntry| !entry_matches_pair(e, client_id@, user_id);
        let n = self.entries.len();
        let mut kept: Vec<CacheEntry> = Vec::new();
        let mut i: usize = 0;
        proof {
            assert(orig.take(0).filter(pred) =~= Seq::<CacheEntry>::empty());
        }
        while i < n
            invariant
                0 <= i <= n,
                n == self.entries@.len(),
                self.entries@ == orig,
                kept@ == orig.take(i as int).filter(pred),
            decreases n - i,
        {
            proof {
                lemma_filter_take_step(orig, pred, i as int);
            }
            let e = &self.entries[i];
            if !(e.session.client_id == *client_id && e.session.user_id == user_id) {
                kept.push(clone_entry(e));
            }
            i = i + 1;
        }
        proof {
            assert(orig.take(n as int) =~= orig);
        }
        self.entries = kept;
    }

    /// How many entries are live for the (client, user) pair.
    #[verifier::loop_isolation(false)]
    pub fn count_pair(&self, client_id: &String, user_id: u64) -> (n: usize)
        ensures
            n == live_pair(self@, client_id@, user_id).len(),
    {
        let ghost pred = |e: CacheEntry| entry_matches_pair(e, client_id@, user_id);
        let len = self.entries.len();
        let mut count: usize = 0;
        let mut i: usize = 0;
        proof {
            assert(self.entries@.take(0).filter(pred) =~= Seq::<CacheEntry>::empty());
        }
        while i < len
            invariant
                0 <= i <= len,
                len == self.entries@.len(),
                count == self.entries@.take(i as int).filter(pred).len(),
                count <= i,
            decreases len - i,
        {
            proof {
                lemma_filter_take_step(self.entries@, pred, i as int);
                self.entries@.take(i + 1).lemma_filter_len(pred);
            }
            let e = &self.entries[i];
            if e.session.client_id == *client_id && e.session.user_id == user_id {
                count = count + 1;
            }
            i = i + 1;
        }
        proof {
            assert(self.entries@.take(len as int) =~= self.entries@);
        }
        count
    }
}

} // verus!
