//! Refresh tokens: durable credentials bound to a (client, user) pair that
//! let a client mint a new access token without re-running the OAuth2
//! exchange.
//!
//! A refresh token belongs to exactly one client: presenting it for another
//! client id is rejected. The token itself is never rotated on use.

use vstd::prelude::*;

use crate::cache::CacheEntry;
use crate::cache::ClientSession;
use crate::cache::TokenCache;
use crate::clients::ClientRegistry;
use crate::clients::RegisteredClient;
use crate::clients::spec_find_client;
use crate::session::issue_client_session;
use crate::session::spec_issued_cache;

verus! {

/// A stored refresh credential, bound to the (client, user) pair it was
/// minted for.
pub struct RefreshRecord {
    pub token: String,
    pub client_id: String,
    pub user_id: u64,
}

/// The first record in `s` carrying `token`, if any.
pub open spec fn spec_find_refresh(s: Seq<RefreshRecord>, token: Seq<char>) -> Option<
    RefreshRecord,
>
    decreases s.len(),
{
    if s.len() == 0 {
        None
    } else if s[0].token@ == token {
        Some(s[0])
    } else {
        spec_find_refresh(s.drop_first(), token)
    }
}

/// The first record in `s` bound to the (client, user) pair, if any.
pub open spec fn spec_find_refresh_pair(
    s: Seq<RefreshRecord>,
    client_id: Seq<char>,
    user_id: u64,
) -> Option<RefreshRecord>
    decreases s.len(),
{
    if s.len() == 0 {
        None
    } else if s[0].client_id@ == client_id && s[0].user_id == user_id {
        Some(s[0])
    } else {
        spec_find_refresh_pair(s.drop_first(), client_id, user_id)
    }
}

/// When no record among the first `i` carries `token`, the search outcome is
/// decided by the rest of the sequence.
proof fn lemma_find_refresh_skip(s: Seq<RefreshRecord>, token: Seq<char>, i: int)
    requires
        0 <= i <= s.len(),
        forall|j: int| 0 <= j < i ==> #[trigger] s[j].token@ != token,
    ensures
        spec_find_refresh(s, token) == spec_find_refresh(s.skip(i), token),
    decreases i,
{
    if i == 0 {
        assert(s.skip(0) =~= s);
    } else {
        lemma_find_refresh_skip(s, token, i - 1);
        assert(s.skip(i - 1).drop_first() =~= s.skip(i));
        assert(s.skip(i - 1)[0] == s[i - 1]);
    }
}

/// When no record among the first `i` is bound to the pair, the search
/// outcome is decided by the rest of the sequence.
proof fn lemma_find_refresh_pair_skip(
    s: Seq<RefreshRecord>,
    client_id: Seq<char>,
    user_id: u64,
    i: int,
)
    requires
        0 <= i <= s.len(),
        forall|j: int|
            0 <= j < i ==> !(#[trigger] s[j].client_id@ == client_id && s[j].user_id == user_id),
    ensures
        spec_find_refresh_pair(s, client_id, user_id) == spec_find_refresh_pair(
            s.skip(i),
            client_id,
            user_id,
        ),
    decreases i,
{
    if i == 0 {
        assert(s.skip(0) =~= s);
    } else {
        lemma_find_refresh_pair_skip(s, client_id, user_id, i - 1);
        assert(s.skip(i - 1).drop_first() =~= s.skip(i));
        assert(s.skip(i - 1)[0] == s[i - 1]);
    }
}

/// The database's table of refresh credentials.
pub struct RefreshStore {
    records: Vec<RefreshRecord>,
}

impl View for RefreshStore {
    type V = Seq<RefreshRecord>;

    closed spec fn view(&self) -> Seq<RefreshRecord> {
        self.records@
    }
}

impl RefreshStore {
    /// An empty store.
    pub fn new() -> (r: RefreshStore)
        ensures
            r@ == Seq::<RefreshRecord>::empty(),
    {
        RefreshStore { records: Vec::new() }
    }

    /// Look up a refresh credential by its token.
    pub fn get(&self, token: &String) -> (r: Option<&RefreshRecord>)
        ensures
            match r {
                Some(rec) => spec_find_refresh(self@, token@) == Some(*rec),
                None => spec_find_refresh(self@, token@) is None,
            },
    {
        let n = self.records.len();
        let mut i: usize = 0;
        while i < n
            invariant
                0 <= i <= n,
                n == self.records@.len(),
                forall|j: int| 0 <= j < i ==> #[trigger] self.records@[j].token@ != token@,
            decreases n - i,
        {
            if self.records[i].token == *token {
                proof {
                    lemma_find_refresh_skip(self.records@, token@, i as int);
                    assert(self.records@.skip(i as int)[0] == self.records@[i as int]);
                }
                return Some(&self.records[i]);
            }
            i = i + 1;
        }
        proof {
            lemma_find_refresh_skip(self.records@, token@, i as int);
            assert(self.records@.skip(i as int) =~= Seq::<RefreshRecord>::empty());
        }
        None
    }

    /// Hand back the refresh token bound to (client, user), minting `fresh`
    /// as its token when the pair has none yet; an existing binding is reused
    /// unchanged.
    pub fn mint_or_reuse(&mut self, client_id: &String, user_id: u64, fresh: String) -> (token:
        String)
        ensures
            match spec_find_refresh_pair(old(self)@, client_id@, user_id) {
                Some(rec) => token == rec.token && final(self)@ == old(self)@,
                None => token == fresh && final(self)@ == old(self)@.push(
                    (RefreshRecord { token: fresh, client_id: *client_id, user_id }),
                ),
            },
    {
        let n = self.records.len();
        let mut i: usize = 0;
        while i < n
            invariant
                0 <= i <= n,
                n == self.records@.len(),
                forall|j: int|
                    0 <= j < i ==> !(#[trigger] self.records@[j].client_id@ == client_id@
                        && self.records@[j].user_id == user_id),
            decreases n - i,
        {
            let rec = &self.records[i];
            if rec.client_id == *client_id && rec.user_id == user_id {
                proof {
                    lemma_find_refresh_pair_skip(self.records@, client_id@, user_id, i as int);
                    assert(self.records@.skip(i as int)[0] == self.records@[i as int]);
                }
                return self.records[i].token.clone();
            }
            i = i + 1;
        }
        proof {
            lemma_find_refresh_pair_skip(self.records@, client_id@, user_id, i as int);
            assert(self.records@.skip(i as int) =~= Seq::<RefreshRecord>::empty());
        }
        let token = fresh.clone();
        self.records.push(RefreshRecord { token: fresh, client_id: client_id.clone(), user_id });
        token
    }
}

/// Why a client-credential operation failed: the client (or the credential)
/// does not exist, the supplied secret is wrong, or the credential is bound
/// to a different client.
#[derive(Clone, Copy, Debug, PartialEq, Eq, Structural)]
pub enum ClientLookupError {
    NotFound,
    SecretMismatch,
    ClientMismatch,
}

/// How a refresh request is decided: the client must exist, the supplied
/// secret must equal its stored secret, the refresh token must be on record,
/// and the record must be bound to the calling client.
pub open spec fn spec_refresh_decision(
    registry: Seq<RegisteredClient>,
    store: Seq<RefreshRecord>,
    client_id: Seq<char>,
    supplied_secret: Seq<char>,
    refresh_token: Seq<char>,
) -> Result<RefreshRecord, ClientLookupError> {
    match spec_find_client(registry, client_id) {
        None => Err(ClientLookupError::NotFound),
        Some(client) => if client.secret@ != supplied_secret {
            Err(ClientLookupError::SecretMismatch)
        } else {
            match spec_find_refresh(store, refresh_token) {
                None => Err(ClientLookupError::NotFound),
                Some(rec) => if rec.client_id@ != client_id {
                    Err(ClientLookupError::ClientMismatch)
                } else {
                    Ok(rec)
                },
            }
        },
    }
}

/// Regenerate an access token from a refresh token: check client, secret and
/// binding, then mint a fresh access token for the record's pair (purging
/// earlier ones), backed by `underlying_token`. The refresh token itself is
/// not rotated.
pub fn refresh_access_token(
    registry: &ClientRegistry,
    store: &RefreshStore,
    cache: &mut TokenCache,
    client_id: &String,
    supplied_secret: &String,
    refresh_token: &String,
    underlying_token: String,
    random_part: &str,
) -> (r: Result<String, ClientLookupError>)
    requires
        random_part@.len() == 64,
    ensures
        r matches Err(e) ==> spec_refresh_decision(
            registry@,
            store@,
            client_id@,
            supplied_secret@,
            refresh_token@,
        ) == Err::<RefreshRecord, ClientLookupError>(e) && final(cache)@ == old(cache)@,
        r matches Ok(token) ==> spec_refresh_decision(
            registry@,
            store@,
            client_id@,
            supplied_secret@,
            refresh_token@,
        ) matches Ok(rec) && token@ == "Frostpaw."@ + random_part@ && final(cache)@
            == spec_issued_cache(
            old(cache)@,
            (CacheEntry {
                token,
                session: (ClientSession {
                    client_id: *client_id,
                    user_id: rec.user_id,
                    token: underlying_token,
                }),
            }),
        ),
{
    let client = match registry.get(client_id) {
        Some(client) => client,
        None => {
            return Err(ClientLookupError::NotFound);
        },
    };
    if !(client.secret == *supplied_secret) {
        return Err(ClientLookupError::SecretMismatch);
    }
    let record = match store.get(refresh_token) {
        Some(record) => record,
        None => {
            return Err(ClientLookupError::NotFound);
        },
    };
    if !(record.client_id == *client_id) {
        return Err(ClientLookupError::ClientMismatch);
    }
    let user_id = record.user_id;
    let token = issue_client_session(cache, client_id, user_id, underlying_token, random_part);
    Ok(token)
}

/// A refresh token bound to one client is rejected as a client mismatch when
/// presented for any other client, whatever secret that client supplies.
pub proof fn lemma_refresh_wrong_client_rejected(
    registry: Seq<RegisteredClient>,
    store: Seq<RefreshRecord>,
    client_id: Seq<char>,
    supplied_secret: Seq<char>,
    refresh_token: Seq<char>,
)
    requires
        spec_find_client(registry, client_id) matches Some(client) && client.secret@
            == supplied_secret,
        spec_find_refresh(store, refresh_token) matches Some(rec) && rec.client_id@ != client_id,
    ensures
        spec_refresh_decision(registry, store, client_id, supplied_secret, refresh_token) == Err::<
            RefreshRecord,
            ClientLookupError,
        >(ClientLookupError::ClientMismatch),
{
}

} // verus!
