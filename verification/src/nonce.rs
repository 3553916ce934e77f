//! Verification of the time-bounded HMAC challenge ("claw / blood /
//! unseathe-time") that registered third-party clients present at login.
//!
//! The challenge carries the client id (blood), a lowercase hex HMAC-SHA512
//! digest (claw) and the unix timestamp it signs (unseathe-time). It is valid
//! only when all three are present, the timestamp lies 5 to 75 seconds in the
//! past, the client is registered, and the digest equals the one expected for
//! the client's secret.

use vstd::prelude::*;

use crate::clients::ClientRegistry;
use crate::clients::RegisteredClient;
use crate::clients::spec_find_client;
use crate::crypto::expected_claw;
use crate::crypto::spec_expected_claw;

verus! {

/// Why a challenge was rejected. `BadSignature` carries both digests for
/// diagnostics.
#[derive(Debug)]
pub enum NonceError {
    IncompleteChallenge,
    TooOld,
    UnknownClient,
    BadSignature { expected: String, got: String },
}

impl NonceError {
    /// The reason line for the error envelope; `BadSignature` spells out both
    /// digests for diagnostics.
    pub fn message(&self) -> (r: String)
        ensures
            match self {
                NonceError::IncompleteChallenge => r@
                    == "Frostpaw login requires blood, claw and unseathe time"@,
                NonceError::TooOld => r@ == "Claw unseathe time is too old or too new"@,
                NonceError::UnknownClient => r@ == "Frostpaw login requires a valid client ID"@,
                NonceError::BadSignature { expected, got } => r@ == "Expected HMAC of "@
                    + expected@ + " but got "@ + got@,
            },
    {
        match self {
            NonceError::IncompleteChallenge => String::from_str(
                "Frostpaw login requires blood, claw and unseathe time",
            ),
            NonceError::TooOld => String::from_str("Claw unseathe time is too old or too new"),
            NonceError::UnknownClient => String::from_str(
                "Frostpaw login requires a valid client ID",
            ),
            NonceError::BadSignature { expected, got } => String::from_str("Expected HMAC of ")
                .concat(expected.as_str()).concat(" but got ").concat(got.as_str()),
        }
    }
}

/// All three parts of the challenge were supplied.
pub open spec fn challenge_present(
    blood: Option<String>,
    claw: Option<String>,
    unseathe_time: Option<u64>,
) -> bool {
    blood is Some && claw is Some && unseathe_time is Some
}

/// The challenge timestamp lies between 5 and 75 seconds (inclusive) before
/// `now`; this bounds the replay window.
pub open spec fn nonce_fresh(unseathe_time: u64, now: u64) -> bool {
    5 <= now - unseathe_time <= 75
}

/// A complete, fresh challenge from a registered client whose digest equals
/// the expected one.
pub open spec fn spec_nonce_ok(
    registry: Seq<RegisteredClient>,
    blood: Option<String>,
    claw: Option<String>,
    unseathe_time: Option<u64>,
    now: u64,
) -> bool {
    &&& challenge_present(blood, claw, unseathe_time)
    &&& nonce_fresh(unseathe_time.unwrap(), now)
    &&& spec_find_client(registry, blood.unwrap()@) matches Some(c) && claw.unwrap()@
        == spec_expected_claw(c.secret@, unseathe_time.unwrap())
}

/// Validate a client's nonce challenge against the registry at time `now`.
///
/// Checks run in order: presence of all three fields, freshness of the
/// timestamp (regardless of the digest), existence of the client, and only
/// then the digest comparison.
pub fn verify(
    registry: &ClientRegistry,
    blood: &Option<String>,
    claw: &Option<String>,
    unseathe_time: &Option<u64>,
    now: u64,
) -> (r: Result<(), NonceError>)
    ensures
        r is Ok <==> spec_nonce_ok(registry@, *blood, *claw, *unseathe_time, now),
        r == Err::<(), NonceError>(NonceError::IncompleteChallenge) <==> !challenge_present(
            *blood,
            *claw,
            *unseathe_time,
        ),
        r == Err::<(), NonceError>(NonceError::TooOld) <==> challenge_present(
            *blood,
            *claw,
            *unseathe_time,
        ) && !nonce_fresh(unseathe_time.unwrap(), now),
        r == Err::<(), NonceError>(NonceError::UnknownClient) <==> challenge_present(
            *blood,
            *claw,
            *unseathe_time,
        ) && nonce_fresh(unseathe_time.unwrap(), now) && spec_find_client(
            registry@,
            blood.unwrap()@,
        ) is None,
        r matches Err(NonceError::BadSignature { expected, got }) ==> {
            &&& spec_find_client(registry@, blood.unwrap()@) matches Some(c) && expected@
                == spec_expected_claw(c.secret@, unseathe_time.unwrap())
            &&& got == claw.unwrap()
            &&& got@ != expected@
            &&& nonce_fresh(unseathe_time.unwrap(), now)
        },
{
    let (b, c, t): (&String, &String, u64) = match (blood, claw, unseathe_time) {
        (Some(b), Some(c), Some(t)) => (b, c, *t),
        _ => {
            return Err(NonceError::IncompleteChallenge);
        },
    };
    if now < t || now - t < 5 || now - t > 75 {
        return Err(NonceError::TooOld);
    }
    let client = match registry.get(b) {
        Some(client) => client,
        None => {
            return Err(NonceError::UnknownClient);
        },
    };
    let expected = expected_claw(client.secret.as_str(), t);
    if expected == *c {
        Ok(())
    } else {
        Err(NonceError::BadSignature { expected, got: c.clone() })
    }
}

/// The round trip closes: a digest computed from the registered secret and a
/// fresh timestamp, by the same rule the verifier uses, is accepted.
pub proof fn lemma_claw_round_trip(
    registry: Seq<RegisteredClient>,
    id: String,
    client: RegisteredClient,
    digest: String,
    unseathe_time: u64,
    now: u64,
)
    requires
        spec_find_client(registry, id@) == Some(client),
        digest@ == spec_expected_claw(client.secret@, unseathe_time),
        5 <= now - unseathe_time <= 75,
    ensures
        spec_nonce_ok(registry, Some(id), Some(digest), Some(unseathe_time), now),
{
}

} // verus!
