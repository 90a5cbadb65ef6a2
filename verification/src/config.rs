//! The run's configuration: authentication parameters, concurrency level,
//! iteration count, and the list of request templates, plus the expansion of
//! that list across iterations.
//!
//! Loading the configuration from a file belongs to the embedding
//! application; this module holds the values it produces.

use vstd::prelude::*;

verus! {

use vstd::arithmetic::div_mod::{lemma_mod_multiples_vanish, lemma_small_mod};
use vstd::arithmetic::mul::{
    lemma_mul_inequality,
    lemma_mul_is_commutative,
    lemma_mul_is_distributive_add_other_way,
};

/// Parameters of the authentication handshake that produces the run's
/// bearer token.
pub struct LoginParameters {
    pub token_url: String,
    pub client_id: String,
    pub client_secret: String,
    pub username: String,
    pub password: String,
    pub grant_type: String,
}

/// One templated request description: URL, method name, an optional JSON
/// body template (carried as its JSON text, possibly holding the literal
/// placeholder `{i}`), and an optional expected response status.
pub struct RequestParameters {
    pub url: String,
    pub action: String,
    pub data: Option<String>,
    pub status_code: Option<u16>,
}

impl RequestParameters {
    /// An equal copy of the template.
    pub fn duplicate(&self) -> (r: Self)
        ensures
            r == *self,
    {
        RequestParameters {
            url: self.url.clone(),
            action: self.action.clone(),
            data: match &self.data {
                Some(s) => Some(s.clone()),
                None => None,
            },
            status_code: self.status_code,
        }
    }
}

/// The whole configuration of one run.
pub struct Configuration {
    pub login: LoginParameters,
    pub concurrect_requests: usize,
    pub iterations: usize,
    pub requests: Vec<RequestParameters>,
}

/// Expands the configured template list across the configured number of
/// iterations: the result cycles the list `iterations` times, so element `j`
/// is template `j % len` and the total is `len * iterations`.
pub fn create_requests_from_configuration(conf: &Configuration) -> (r: Vec<RequestParameters>)
    requires
        conf.requests@.len() * conf.iterations as int <= usize::MAX as int,
    ensures
        r@.len() == conf.requests@.len() * conf.iterations as int,
        forall|j: int|
            0 <= j < r@.len() ==> #[trigger] r@[j] == conf.requests@[j % conf.requests@.len() as int],
{
    let len = conf.requests.len();
    let mut out: Vec<RequestParameters> = Vec::new();
    let mut it: usize = 0;
    while it < conf.iterations
        invariant
            it <= conf.iterations,
            len == conf.requests@.len(),
            len as int * conf.iterations as int <= usize::MAX as int,
            out@.len() == len as int * it as int,
            forall|j: int|
                0 <= j < out@.len() ==> #[trigger] out@[j] == conf.requests@[j % len as int],
        decreases conf.iterations - it,
    {
        let ghost round_start = out@.len();
        let mut t: usize = 0;
        proof {
            lemma_mul_inequality(it as int + 1, conf.iterations as int, len as int);
            lemma_mul_is_distributive_add_other_way(len as int, it as int, 1);
            lemma_mul_is_commutative(it as int + 1, len as int);
            lemma_mul_is_commutative(it as int, len as int);
            lemma_mul_is_commutative(conf.iterations as int, len as int);
            assert(round_start + len as int <= usize::MAX as int);
        }
        while t < len
            invariant
                t <= len,
                len == conf.requests@.len(),
                round_start == len as int * it as int,
                round_start + len as int <= usize::MAX as int,
                out@.len() == round_start + t as int,
                forall|j: int|
                    0 <= j < out@.len() ==> #[trigger] out@[j] == conf.requests@[j % len as int],
            decreases len - t,
        {
            out.push(conf.requests[t].duplicate());
            proof {
                let j = round_start + t as int;
                assert(j % len as int == t as int) by {
                    lemma_mod_multiples_vanish(it as int, t as int, len as int);
                    lemma_small_mod(t as nat, len as nat);
                }
            }
            t += 1;
        }
        it += 1;
        proof {
            assert(len as int * it as int == round_start + len as int) by {
                lemma_mul_is_distributive_add_other_way(len as int, it as int - 1, 1);
            }
        }
    }
    out
}

} // verus!
