//! The rules of authentication: which token issuers are accepted, and how a
//! refused request is answered.
use vstd::prelude::*;

use crate::config::ApplicationConfig;
use crate::errors::ServiceError;

verus! {

pub open spec fn texts(list: Seq<String>) -> Seq<Seq<char>> {
    list.map_values(|s: String| s@)
}

/// The issuers whose tokens are accepted: those of the configuration, or none.
pub fn accepted_issuers(config: &ApplicationConfig) -> (r: Vec<String>)
    ensures
        texts(r@) == match config.jwt_issuers {
            Some(list) => texts(list@),
            None => Seq::<Seq<char>>::empty(),
        },
{
    let mut out: Vec<String> = Vec::new();
    match &config.jwt_issuers {
        Some(list) => {
            let n = list.len();
            for i in 0..n
                invariant
                    n == list@.len(),
                    texts(out@) =~= texts(list@.take(i as int)),
            {
                out.push(list[i].clone());
                proof {
                    assert(texts(list@.take(i + 1)) =~= texts(list@.take(i as int)).push(list@[i as int]@));
                }
            }
            assert(list@.take(n as int) =~= list@);
        },
        None => {
            assert(texts(out@) =~= Seq::<Seq<char>>::empty());
        },
    }
    out
}

/// Whether a token of the issuer `iss` is accepted: it is one of `issuers`.
pub fn issuer_accepted(issuers: &Vec<String>, iss: &str) -> (r: bool)
    ensures
        r == texts(issuers@).contains(iss@),
{
    let target = String::from_str(iss);
    let n = issuers.len();
    for i in 0..n
        invariant
            n == issuers@.len(),
            target@ == iss@,
            forall|j: int| 0 <= j < i ==> issuers@[j]@ != iss@,
    {
        if issuers[i] == target {
            assert(texts(issuers@)[i as int] == iss@);
            return true;
        }
    }
    proof {
        if texts(issuers@).contains(iss@) {
            let j = choose|j: int| 0 <= j < texts(issuers@).len() && texts(issuers@)[j] == iss@;
            assert(issuers@[j]@ == iss@);
        }
    }
    false
}

/// The refusal of a request without a usable bearer token: the text of the
/// extraction error.
pub fn bearer_rejection(error: String) -> (r: ServiceError)
    ensures
        r matches ServiceError::AuthenticationError { error: e } && e@ == error@,
{
    ServiceError::AuthenticationError { error }
}

/// The refusal of a request whose token the validator rejected.
pub fn token_rejection(error: &str) -> (r: ServiceError)
    ensures
        r matches ServiceError::AuthenticationError { error: e } && e@ == "JWT token error: "@ + error@,
{
    let mut text = String::from_str("JWT token error: ");
    text.append(error);
    ServiceError::AuthenticationError { error: text }
}

} // verus!
