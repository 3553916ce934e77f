//! Registered third-party ("Frostpaw") client applications.
//!
//! A client is identified by its `id` and holds a pre-shared `secret` used as
//! the HMAC key of the nonce challenge. Records are created out of band and
//! are read-only here; the registry models the database's client table.

use vstd::prelude::*;

verus! {

/// A registered third-party client application.
pub struct RegisteredClient {
    pub id: String,
    pub name: String,
    pub secret: String,
}

/// The first client in `s` whose id reads `id`, if any.
pub open spec fn spec_find_client(s: Seq<RegisteredClient>, id: Seq<char>) -> Option<
    RegisteredClient,
>
    decreases s.len(),
{
    if s.len() == 0 {
        None
    } else if s[0].id@ == id {
        Some(s[0])
    } else {
        spec_find_client(s.drop_first(), id)
    }
}

/// When no client among the first `i` matches, the search outcome is decided
/// by the rest of the sequence.
proof fn lemma_find_client_skip(s: Seq<RegisteredClient>, id: Seq<char>, i: int)
    requires
        0 <= i <= s.len(),
        forall|j: int| 0 <= j < i ==> #[trigger] s[j].id@ != id,
    ensures
        spec_find_client(s, id) == spec_find_client(s.skip(i), id),
    decreases i,
{
    if i == 0 {
        assert(s.skip(0) =~= s);
    } else {
        lemma_find_client_skip(s, id, i - 1);
        assert(s.skip(i - 1).drop_first() =~= s.skip(i));
        assert(s.skip(i - 1)[0] == s[i - 1]);
    }
}

/// The set of registered clients, looked up by client id.
pub struct ClientRegistry {
    clients: Vec<RegisteredClient>,
}

impl View for ClientRegistry {
    type V = Seq<RegisteredClient>;

    closed spec fn view(&self) -> Seq<RegisteredClient> {
        self.clients@
    }
}

impl ClientRegistry {
    /// An empty registry.
    pub fn new() -> (r: ClientRegistry)
        ensures
            r@ == Seq::<RegisteredClient>::empty(),
    {
        ClientRegistry { clients: Vec::new() }
    }

    /// Add a client; refused (and the registry left unchanged) when one with
    /// the same id is already registered.
    pub fn register(&mut self, client: RegisteredClient) -> (added: bool)
        ensures
            added == spec_find_client(old(self)@, client.id@) is None,
            added ==> final(self)@ == old(self)@.push(client),
            !added ==> final(self)@ == old(self)@,
    {
        if self.get(&client.id).is_some() {
            false
        } else {
            self.clients.push(client);
            true
        }
    }

    /// Look up a client by id.
    pub fn get(&self, id: &String) -> (r: Option<&RegisteredClient>)
        ensures
            match r {
                Some(c) => spec_find_client(self@, id@) == Some(*c),
                None => spec_find_client(self@, id@) is None,
            },
    {
        let n = self.clients.len();
        let mut i: usize = 0;
        while i < n
            invariant
                0 <= i <= n,
                n == self.clients@.len(),
                forall|j: int| 0 <= j < i ==> #[trigger] self.clients@[j].id@ != id@,
            decreases n - i,
        {
            if self.clients[i].id == *id {
                proof {
                    lemma_find_client_skip(self.clients@, id@, i as int);
                    assert(self.clients@.skip(i as int)[0] == self.clients@[i as int]);
                }
                return Some(&self.clients[i]);
            }
            i = i + 1;
        }
        proof {
            lemma_find_client_skip(self.clients@, id@, i as int);
            assert(self.clients@.skip(i as int) =~= Seq::<RegisteredClient>::empty());
        }
        None
    }
}

} // verus!
