//! Resolving the webhook destination from a secret store reply.

use vstd::prelude::*;
use crate::model::{PipelineError, SecretResponse};

verus! {

/// The decrypted secret a store reply carries, if any: the store must
/// hold an entry, and the entry a value.
pub open spec fn secret_value(resp: SecretResponse) -> Option<Seq<char>> {
    match resp.parameter {
        Option::None => Option::None,
        Option::Some(p) => match p.value {
            Option::None => Option::None,
            Option::Some(v) => Option::Some(v@),
        },
    }
}

/// Resolves a store reply to the secret string; a missing entry or a
/// missing value means the secret was not found.
pub fn resolve_secret(resp: SecretResponse) -> (r: Result<String, PipelineError>)
    ensures
        match secret_value(resp) {
            Option::Some(v) => r matches Ok(s) && s@ == v,
            Option::None => r == Err::<String, PipelineError>(PipelineError::SecretNotFound),
        },
{
    match resp.parameter {
        None => Err(PipelineError::SecretNotFound),
        Some(p) => match p.value {
            None => Err(PipelineError::SecretNotFound),
            Some(v) => Ok(v),
        },
    }
}

} // verus!
