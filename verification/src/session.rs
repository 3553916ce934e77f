//! Session issuance: the cookie login, the custom-client ("Frostpaw") token
//! login, and logout.
//!
//! A browser login serializes the user payload into a base64 cookie with
//! fixed attributes and an 8-hour life. A custom-client login first passes
//! the nonce challenge, then mints a fresh access token, invalidating every
//! earlier token for the same (client, user) pair, so at most one stays live.
//! Logout emits the matching removal cookie and always succeeds.

use vstd::prelude::*;

use base64::Engine;

use crate::cache::CacheEntry;
use crate::cache::ClientSession;
use crate::cache::TokenCache;
use crate::cache::entry_matches_pair;
use crate::cache::live_pair;
use crate::cache::remove_pair;
use crate::cache::remove_token;
use crate::clients::ClientRegistry;
use crate::clients::spec_find_client;
use crate::crypto::spec_expected_claw;
use crate::nonce::NonceError;
use crate::nonce::challenge_present;
use crate::nonce::nonce_fresh;
use crate::nonce::spec_nonce_ok;
use crate::nonce::verify;
use crate::refresh::RefreshRecord;
use crate::refresh::RefreshStore;
use crate::refresh::spec_find_refresh_pair;
use vstd::pervasive::unreached;

verus! {

/// The standard, padded base64 encoding of a byte string; a pure function of
/// the bytes. Its definition (RFC 4648 section 4) is left to the `base64`
/// crate and is not restated here.
pub uninterp spec fn base64_of(bytes: Seq<u8>) -> Seq<char>;

/// Relies on `base64::engine::general_purpose::STANDARD` and
/// `Engine::encode`: the standard padded encoding depends on the input bytes
/// alone.
#[verifier::external_body]
fn base64_standard(bytes: &[u8]) -> (r: String)
    ensures
        r@ == base64_of(bytes@),
{
    base64::engine::general_purpose::STANDARD.encode(bytes)
}

/// A lowercase hexadecimal digit.
pub open spec fn spec_lower_hex_char(c: char) -> bool {
    (48 <= c as int <= 57) || (97 <= c as int <= 102)
}

/// The shape of a hyphenated UUID: 36 characters, hyphens at positions 8, 13,
/// 18 and 23, lowercase hex digits everywhere else.
pub open spec fn spec_hyphenated_uuid(s: Seq<char>) -> bool {
    &&& s.len() == 36
    &&& forall|i: int|
        0 <= i < 36 ==> (if i == 8 || i == 13 || i == 18 || i == 23 {
            s[i] == '-'
        } else {
            spec_lower_hex_char(#[trigger] s[i])
        })
}

/// Relies on `uuid::Uuid::new_v4` and the hyphenated lowercase rendering: the
/// result always has the hyphenated-UUID shape (hyphens at 8, 13, 18, 23 and
/// lowercase hex digits elsewhere). Which value comes back is random, and
/// nothing is assumed of it.
#[verifier::external_body]
fn fresh_state_nonce() -> (r: String)
    ensures
        spec_hyphenated_uuid(r@),
{
    format!("{}", uuid::Uuid::new_v4().hyphenated())
}

/// Whether two string slices read the same.
fn str_eq(a: &str, b: &str) -> (r: bool)
    ensures
        r == (a@ == b@),
{
    String::from_str(a) == String::from_str(b)
}

/// The front-end origins allowed to drive a login (the `Frostpaw-Server`
/// header of the login request must name one of them).
pub open spec fn spec_valid_login_origin(origin: Seq<char>) -> bool {
    ||| origin == "https://fateslist.xyz"@
    ||| origin == "https://www.fateslist.xyz"@
    ||| origin == "https://sunbeam.fateslist.xyz"@
}

/// Check an origin against the allow-list.
pub fn valid_login_origin(origin: &str) -> (r: bool)
    ensures
        r == spec_valid_login_origin(origin@),
{
    str_eq(origin, "https://fateslist.xyz") || str_eq(origin, "https://www.fateslist.xyz")
        || str_eq(origin, "https://sunbeam.fateslist.xyz")
}

/// The redirect URI registered with the provider for a front-end origin.
pub fn login_redirect_uri(origin: &str) -> (r: String)
    ensures
        r@ == origin@ + "/frostpaw/login"@,
{
    String::from_str(origin).concat("/frostpaw/login")
}

/// What `GET` on the login route hands back: a state nonce for the caller to
/// echo, and the provider's authorization URL to send the user to.
pub struct LoginLink {
    pub state: String,
    pub url: String,
}

/// Build the provider authorization link for an application and a front-end
/// origin, with a fresh state nonce.
pub fn login_link(client_id: &str, origin: &str) -> (r: LoginLink)
    ensures
        spec_hyphenated_uuid(r.state@),
        r.url@ == "https://discord.com/oauth2/authorize?client_id="@ + client_id@
            + "&redirect_uri="@ + origin@
            + "/frostpaw/login&scope=identify&response_type=code"@,
{
    let url = String::from_str("https://discord.com/oauth2/authorize?client_id=").concat(
        client_id,
    ).concat("&redirect_uri=").concat(origin).concat(
        "/frostpaw/login&scope=identify&response_type=code",
    );
    LoginLink { state: fresh_state_nonce(), url }
}

/// An HTTP cookie as this library prescribes it: the caller's web layer only
/// transcribes these fields.
pub struct CookieSpec {
    pub name: String,
    pub value: String,
    pub path: String,
    pub domain: String,
    pub secure: bool,
    pub http_only: bool,
    pub same_site_strict: bool,
    pub max_age_secs: Option<u64>,
}

/// The session cookie for a serialized login payload: fixed name, path and
/// domain, `Secure`, `HttpOnly`, `SameSite=Strict`, 8-hour life, and the
/// base64 of the payload as its value.
pub open spec fn spec_session_cookie_ok(c: CookieSpec, payload: Seq<u8>) -> bool {
    &&& c.name@ == "sunbeam-session:warriorcats"@
    &&& c.value@ == base64_of(payload)
    &&& c.path@ == "/"@
    &&& c.domain@ == "fateslist.xyz"@
    &&& c.secure
    &&& c.http_only
    &&& c.same_site_strict
    &&& c.max_age_secs == Some(28800u64)
}

/// The cookie that removes the session cookie: same name and attributes, an
/// empty value, and an immediate expiry.
pub open spec fn spec_removal_cookie_ok(c: CookieSpec) -> bool {
    &&& c.name@ == "sunbeam-session:warriorcats"@
    &&& c.value@ == Seq::<char>::empty()
    &&& c.path@ == "/"@
    &&& c.domain@ == "fateslist.xyz"@
    &&& c.secure
    &&& c.http_only
    &&& c.same_site_strict
    &&& c.max_age_secs == Some(0u64)
}

/// Build the session cookie holding `payload`.
pub fn session_cookie(payload: &[u8]) -> (c: CookieSpec)
    ensures
        spec_session_cookie_ok(c, payload@),
{
    CookieSpec {
        name: String::from_str("sunbeam-session:warriorcats"),
        value: base64_standard(payload),
        path: String::from_str("/"),
        domain: String::from_str("fateslist.xyz"),
        secure: true,
        http_only: true,
        same_site_strict: true,
        max_age_secs: Some(28800),
    }
}

/// Build the cookie that clears the session cookie.
pub fn removal_cookie() -> (c: CookieSpec)
    ensures
        spec_removal_cookie_ok(c),
{
    CookieSpec {
        name: String::from_str("sunbeam-session:warriorcats"),
        value: String::new(),
        path: String::from_str("/"),
        domain: String::from_str("fateslist.xyz"),
        secure: true,
        http_only: true,
        same_site_strict: true,
        max_age_secs: Some(0),
    }
}

/// What logout answers: the status and the cookie to emit.
pub struct LogoutResponse {
    pub status: u16,
    pub cookie: CookieSpec,
}

/// Log a session out. Always answers 200 with the removal cookie, whether or
/// not a session existed; nothing else is consulted.
pub fn logout() -> (r: LogoutResponse)
    ensures
        r.status == 200,
        spec_removal_cookie_ok(r.cookie),
{
    LogoutResponse { status: 200, cookie: removal_cookie() }
}

/// Mint an access token from 64 characters of fresh randomness: the fixed
/// `Frostpaw.` prefix followed by the random part.
pub fn mint_access_token(random_part: &str) -> (token: String)
    requires
        random_part@.len() == 64,
    ensures
        token@ == "Frostpaw."@ + random_part@,
{
    String::from_str("Frostpaw.").concat(random_part)
}

/// The cache after a mint settles: every earlier entry for the new entry's
/// (client, user) pair is invalidated, anything under the new token is
/// replaced, and the new entry is appended.
pub open spec fn spec_issued_cache(cache: Seq<CacheEntry>, entry: CacheEntry) -> Seq<CacheEntry> {
    remove_token(
        remove_pair(cache, entry.session.client_id@, entry.session.user_id),
        entry.token@,
    ).push(entry)
}

/// Mint and record a fresh access token for (client, user), backed by the
/// durable `underlying_token`, invalidating every earlier token for the pair.
pub fn issue_client_session(
    cache: &mut TokenCache,
    client_id: &String,
    user_id: u64,
    underlying_token: String,
    random_part: &str,
) -> (access_token: String)
    requires
        random_part@.len() == 64,
    ensures
        access_token@ == "Frostpaw."@ + random_part@,
        final(cache)@ == spec_issued_cache(
            old(cache)@,
            (CacheEntry {
                token: access_token,
                session: (ClientSession {
                    client_id: *client_id,
                    user_id,
                    token: underlying_token,
                }),
            }),
        ),
{
    cache.invalidate_pair(client_id, user_id);
    let access_token = mint_access_token(random_part);
    let session = ClientSession { client_id: client_id.clone(), user_id, token: underlying_token };
    cache.insert(access_token.clone(), session);
    access_token
}

/// After the pair is purged and the token slot cleared, no entry for the pair
/// is left.
proof fn lemma_live_pair_after_prune(
    cache: Seq<CacheEntry>,
    client_id: Seq<char>,
    user_id: u64,
    token: Seq<char>,
)
    ensures
        live_pair(remove_token(remove_pair(cache, client_id, user_id), token), client_id, user_id)
            =~= Seq::<CacheEntry>::empty(),
    decreases cache.len(),
{
    reveal_with_fuel(Seq::filter, 2);
    if cache.len() == 0 {
        assert(remove_pair(cache, client_id, user_id) =~= Seq::<CacheEntry>::empty());
    } else {
        let dl = cache.drop_last();
        let e = cache.last();
        lemma_live_pair_after_prune(dl, client_id, user_id, token);
        if !entry_matches_pair(e, client_id, user_id) {
            assert(remove_pair(cache, client_id, user_id) == remove_pair(
                dl,
                client_id,
                user_id,
            ).push(e));
            let pruned_dl = remove_token(remove_pair(dl, client_id, user_id), token);
            if e.token@ != token {
                assert(remove_pair(dl, client_id, user_id).push(e).drop_last() =~= remove_pair(
                    dl,
                    client_id,
                    user_id,
                ));
                assert(remove_token(remove_pair(cache, client_id, user_id), token) == pruned_dl.push(
                    e,
                ));
                assert(pruned_dl.push(e).drop_last() =~= pruned_dl);
                assert(live_pair(pruned_dl.push(e), client_id, user_id) == live_pair(
                    pruned_dl,
                    client_id,
                    user_id,
                ));
            } else {
                assert(remove_pair(dl, client_id, user_id).push(e).drop_last() =~= remove_pair(
                    dl,
                    client_id,
                    user_id,
                ));
                assert(remove_token(remove_pair(cache, client_id, user_id), token) == pruned_dl);
            }
        } else {
            assert(remove_pair(cache, client_id, user_id) == remove_pair(dl, client_id, user_id));
        }
    }
}

/// After a mint, the entry just minted is the only live one for its
/// (client, user) pair.
pub proof fn lemma_issue_single_live(cache: Seq<CacheEntry>, entry: CacheEntry)
    ensures
        live_pair(
            spec_issued_cache(cache, entry),
            entry.session.client_id@,
            entry.session.user_id,
        ) =~= seq![entry],
{
    reveal_with_fuel(Seq::filter, 2);
    let client_id = entry.session.client_id@;
    let user_id = entry.session.user_id;
    lemma_live_pair_after_prune(cache, client_id, user_id, entry.token@);
    let pruned = remove_token(remove_pair(cache, client_id, user_id), entry.token@);
    assert(pruned.push(entry).drop_last() =~= pruned);
    assert(live_pair(pruned.push(entry), client_id, user_id) == live_pair(
        pruned,
        client_id,
        user_id,
    ).push(entry));
}

/// Minting twice in succession for the same (client, user) pair leaves
/// exactly one live entry: the second one.
pub proof fn lemma_second_mint_single_live(
    cache: Seq<CacheEntry>,
    first: CacheEntry,
    second: CacheEntry,
)
    requires
        first.session.client_id@ == second.session.client_id@,
        first.session.user_id == second.session.user_id,
    ensures
        live_pair(
            spec_issued_cache(spec_issued_cache(cache, first), second),
            second.session.client_id@,
            second.session.user_id,
        ) =~= seq![second],
{
    lemma_issue_single_live(spec_issued_cache(cache, first), second);
}

/// What a completed login answers: a browser session cookie, a client token
/// pair, or a rejection of the client's nonce challenge.
pub enum LoginResponse {
    CookieLogin { cookie: CookieSpec },
    ClientLogin { access_token: String, refresh_token: String },
    Rejected { error: NonceError },
}

/// Finish a login whose OAuth2 exchange already succeeded (the caller has
/// upserted the user and fetched the durable `underlying_token`).
///
/// With `frostpaw` false this is the default browser path: the serialized
/// `cookie_payload` becomes the session cookie and nothing else changes. With
/// `frostpaw` true the nonce challenge is verified first; on success a fresh
/// access token is minted (purging earlier tokens for the pair) and a refresh
/// token is minted or reused, and no cookie is set.
pub fn complete_login(
    registry: &ClientRegistry,
    cache: &mut TokenCache,
    refresh_store: &mut RefreshStore,
    frostpaw: bool,
    blood: &Option<String>,
    claw: &Option<String>,
    unseathe_time: &Option<u64>,
    now: u64,
    user_id: u64,
    underlying_token: String,
    cookie_payload: &[u8],
    random_part: &str,
    fresh_refresh_token: String,
) -> (r: LoginResponse)
    requires
        random_part@.len() == 64,
    ensures
        !frostpaw ==> (r matches LoginResponse::CookieLogin { cookie } && spec_session_cookie_ok(
            cookie,
            cookie_payload@,
        )),
        frostpaw ==> ((r matches LoginResponse::Rejected { error }) <==> !spec_nonce_ok(
            registry@,
            *blood,
            *claw,
            *unseathe_time,
            now,
        )),
        r matches LoginResponse::Rejected { error } ==> {
            &&& (error == NonceError::IncompleteChallenge <==> !challenge_present(
                *blood,
                *claw,
                *unseathe_time,
            ))
            &&& (error == NonceError::TooOld <==> challenge_present(*blood, *claw, *unseathe_time)
                && !nonce_fresh(unseathe_time.unwrap(), now))
            &&& (error == NonceError::UnknownClient <==> challenge_present(
                *blood,
                *claw,
                *unseathe_time,
            ) && nonce_fresh(unseathe_time.unwrap(), now) && spec_find_client(
                registry@,
                blood.unwrap()@,
            ) is None)
            &&& (error matches NonceError::BadSignature { expected, got } ==> got == claw.unwrap()
                && (spec_find_client(registry@, blood.unwrap()@) matches Some(c) && expected@
                == spec_expected_claw(c.secret@, unseathe_time.unwrap())))
        },
        !(frostpaw && spec_nonce_ok(registry@, *blood, *claw, *unseathe_time, now))
            ==> final(cache)@ == old(cache)@ && final(refresh_store)@ == old(refresh_store)@,

        frostpaw && spec_nonce_ok(registry@, *blood, *claw, *unseathe_time, now) ==> (r matches
            LoginResponse::ClientLogin { access_token, refresh_token } && {
            &&& access_token@ == "Frostpaw."@ + random_part@
            &&& final(cache)@ == spec_issued_cache(
                old(cache)@,
                (CacheEntry {
                    token: access_token,
                    session: (ClientSession {
                        client_id: blood.unwrap(),
                        user_id,
                        token: underlying_token,
                    }),
                }),
            )
            &&& match spec_find_refresh_pair(old(refresh_store)@, blood.unwrap()@, user_id) {
                Some(rec) => refresh_token == rec.token
                    && final(refresh_store)@ == old(refresh_store)@,
                None => refresh_token == fresh_refresh_token
                    && final(refresh_store)@ == old(refresh_store)@.push(
                    (RefreshRecord {
                        token: fresh_refresh_token,
                        client_id: blood.unwrap(),
                        user_id,
                    }),
                ),
            }
        }),
{
    if !frostpaw {
        return LoginResponse::CookieLogin { cookie: session_cookie(cookie_payload) };
    }
    match verify(registry, blood, claw, unseathe_time, now) {
        Err(error) => LoginResponse::Rejected { error },
        Ok(()) => match blood {
            Some(b) => {
                let access_token = issue_client_session(
                    cache,
                    b,
                    user_id,
                    underlying_token,
                    random_part,
                );
                let refresh_token = refresh_store.mint_or_reuse(b, user_id, fresh_refresh_token);
                LoginResponse::ClientLogin { access_token, refresh_token }
            },
            None => unreached(),
        },
    }
}

} // verus!
