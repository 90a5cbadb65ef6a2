//! Wiring a run together, ahead of any network traffic: the expanded
//! request list is split round-robin into one batch per executor, and every
//! slot's request is prepared — ordinal computed, placeholder substituted,
//! bearer token attached. Any slot that cannot be built aborts the run
//! here, before anything is sent.

use vstd::prelude::*;
use crate::batch_executor::BatchExecutor;
use crate::batcher::{rr_batch, rr_len, split};
use crate::config::RequestParameters;
use crate::request::{
    request_built_from,
    spec_buildable,
    spec_method_of,
    spec_ordinal,
    BuildError,
    Request,
};

verus! {

use vstd::arithmetic::div_mod::{
    lemma_div_is_ordered,
    lemma_div_pos_is_pos,
    lemma_fundamental_div_mod,
    lemma_mod_division_less_than_divisor,
};
use vstd::arithmetic::mul::lemma_mul_inequality;

/// Whether every slot of the round-robin split of `reqs` into `k` batches
/// can be built: each template's action is supported and its substituted
/// body — if any — still parses as JSON.
pub open spec fn spec_all_buildable(reqs: Seq<RequestParameters>, k: int, tpe: int) -> bool {
    forall|i: int, p: int|
        0 <= i < k && 0 <= p < rr_len(reqs.len() as int, k, i) ==> #[trigger] spec_buildable(
            rr_batch(reqs, k, i)[p],
            i,
            tpe,
            p + 1,
        )
}

/// Whether `tasks` prepares exactly the templates of one batch, slot by
/// slot, for executor `i`.
pub open spec fn batch_built(
    tasks: Seq<Request>,
    templates: Seq<RequestParameters>,
    auth: Seq<char>,
    i: int,
    tpe: int,
) -> bool {
    &&& tasks.len() == templates.len()
    &&& forall|p: int|
        0 <= p < tasks.len() ==> #[trigger] request_built_from(
            tasks[p],
            templates[p],
            auth,
            i,
            tpe,
            p + 1,
        )
}

/// Whether `execs` is the full set of prepared executors for `reqs` split
/// into `k` batches: executor `i` holds batch `i`, prepared slot by slot.
pub open spec fn executors_built(
    execs: Seq<BatchExecutor<Request>>,
    reqs: Seq<RequestParameters>,
    auth: Seq<char>,
    k: int,
    tpe: int,
) -> bool {
    &&& execs.len() == k
    &&& forall|i: int|
        0 <= i < k ==> (#[trigger] execs[i]).spec_id() == i && batch_built(
            execs[i].remaining(),
            rr_batch(reqs, k, i),
            auth,
            i,
            tpe,
        )
}

/// A valid slot's ordinal stays below the input length plus one:
/// `i * (n / k) + (p + 1) <= n + 1`.
proof fn lemma_ordinal_bound(n: int, k: int, i: int, p: int)
    requires
        k >= 1,
        n >= 0,
        0 <= i < k,
        0 <= p < rr_len(n, k, i),
    ensures
        spec_ordinal(i, n / k, p + 1) <= n + 1,
{
    let tpe = n / k;
    lemma_div_pos_is_pos(n, k);
    lemma_mul_inequality(i, k - 1, tpe);
    assert(k * tpe <= n) by {
        lemma_fundamental_div_mod(n, k);
        lemma_mod_division_less_than_divisor(n, k);
    }
    assert((k - 1) * tpe == k * tpe - tpe) by (nonlinear_arith);
    assert(rr_len(n, k, i) <= tpe + 1) by {
        if i < n {
            lemma_div_is_ordered(n - i - 1, n, k);
        }
    }
}

/// Prepares the whole run: splits the expanded request list round-robin
/// into `n_batches` batches and builds every slot's request for its
/// executor. A concurrency level of zero is a configuration error; a slot
/// that cannot be built aborts the run with that slot's error, before any
/// request is sent.
#[verifier::loop_isolation(false)]
pub fn create_executors(
    total_requests: usize,
    requests_final: Vec<RequestParameters>,
    access_token: &str,
    n_batches: usize,
) -> (res: Result<Vec<BatchExecutor<Request>>, BuildError>)
    requires
        total_requests as int == requests_final@.len(),
        total_requests < usize::MAX,
    ensures
        n_batches == 0 ==> res == Err::<Vec<BatchExecutor<Request>>, BuildError>(
            BuildError::InvalidConcurrency,
        ),
        n_batches >= 1 ==> {
            let k = n_batches as int;
            let tpe = (total_requests / n_batches) as int;
            let reqs = requests_final@;
            &&& (res is Ok <==> spec_all_buildable(reqs, k, tpe))
            &&& (res matches Ok(execs) ==> executors_built(execs@, reqs, access_token@, k, tpe))
            &&& (res matches Err(e) ==> e == BuildError::UnsupportedAction || e
                == BuildError::TemplateSubstitution)
            &&& (res == Err::<Vec<BatchExecutor<Request>>, BuildError>(
                BuildError::UnsupportedAction,
            ) ==> exists|i: int, p: int|
                0 <= i < k && 0 <= p < rr_len(reqs.len() as int, k, i)
                    && (#[trigger] spec_method_of(rr_batch(reqs, k, i)[p].action@)) is None)
            &&& (res == Err::<Vec<BatchExecutor<Request>>, BuildError>(
                BuildError::TemplateSubstitution,
            ) ==> exists|i: int, p: int|
                0 <= i < k && 0 <= p < rr_len(reqs.len() as int, k, i) && !(
                #[trigger] spec_buildable(rr_batch(reqs, k, i)[p], i, tpe, p + 1)))
        },
{
    if n_batches == 0 {
        return Err(BuildError::InvalidConcurrency);
    }
    let ghost reqs = requests_final@;
    let ghost k = n_batches as int;
    let n = requests_final.len();
    let tasks_per_executor = total_requests / n_batches;
    let ghost tpe = tasks_per_executor as int;
    let mut batches = split(requests_final, n_batches);
    let mut executors: Vec<BatchExecutor<Request>> = Vec::new();
    let mut i: usize = 0;
    while i < n_batches
        invariant
            1 <= n_batches,
            k == n_batches as int,
            n as int == reqs.len(),
            n == total_requests,
            n < usize::MAX,
            tpe == (total_requests as int) / k,
            tasks_per_executor as int == tpe,
            i <= n_batches,
            batches@.len() == k - i as int,
            forall|m: int|
                0 <= m < batches@.len() ==> #[trigger] batches@[m]@ == rr_batch(
                    reqs,
                    k,
                    i as int + m,
                ),
            executors@.len() == i as int,
            forall|m: int|
                0 <= m < i as int ==> (#[trigger] executors@[m]).spec_id() == m && batch_built(
                    executors@[m].remaining(),
                    rr_batch(reqs, k, m),
                    access_token@,
                    m,
                    tpe,
                ),
            forall|m: int, q: int|
                0 <= m < i as int && 0 <= q < rr_len(n as int, k, m)
                    ==> #[trigger] spec_buildable(rr_batch(reqs, k, m)[q], m, tpe, q + 1),
        decreases n_batches - i,
    {
        let mut batch = batches.remove(0);
        let ghost this_batch = rr_batch(reqs, k, i as int);
        proof {
            assert(batch@ == this_batch);
            assert(batch@.skip(0) =~= this_batch);
        }
        let blen = batch.len();
        let mut tasks: Vec<Request> = Vec::new();
        let mut p: usize = 0;
        while p < blen
            invariant
                1 <= n_batches,
                k == n_batches as int,
                n as int == reqs.len(),
                n == total_requests,
                n < usize::MAX,
                tpe == (total_requests as int) / k,
                tasks_per_executor as int == tpe,
                i < n_batches,
                this_batch == rr_batch(reqs, k, i as int),
                blen as int == rr_len(n as int, k, i as int),
                p <= blen,
                batch@ == this_batch.skip(p as int),
                tasks@.len() == p as int,
                forall|q: int|
                    0 <= q < p as int ==> #[trigger] request_built_from(
                        tasks@[q],
                        this_batch[q],
                        access_token@,
                        i as int,
                        tpe,
                        q + 1,
                    ),
                forall|q: int|
                    0 <= q < p as int ==> #[trigger] spec_buildable(
                        rr_batch(reqs, k, i as int)[q],
                        i as int,
                        tpe,
                        q + 1,
                    ),
            decreases blen - p,
        {
            let t = batch.remove(0);
            proof {
                assert(t == this_batch[p as int]);
                lemma_ordinal_bound(n as int, k, i as int, p as int);
            }
            match Request::new(t, access_token, i, tasks_per_executor, p + 1) {
                Ok(r) => {
                    tasks.push(r);
                },
                Err(e) => {
                    proof {
                        assert((i as int) < k && (p as int) < rr_len(
                            reqs.len() as int,
                            k,
                            i as int,
                        ) && !spec_buildable(
                            rr_batch(reqs, k, i as int)[p as int],
                            i as int,
                            tpe,
                            p as int + 1,
                        ));
                        assert(!spec_all_buildable(reqs, k, tpe));
                        if spec_method_of(this_batch[p as int].action@) is None {
                            assert(spec_method_of(
                                rr_batch(reqs, k, i as int)[p as int].action@,
                            ) is None);
                        }
                    }
                    return Err(e);
                },
            }
            proof {
                assert(batch@ =~= this_batch.skip(p as int + 1));
            }
            p += 1;
        }
        executors.push(BatchExecutor::new(i, tasks));
        i += 1;
    }
    Ok(executors)
}

} // verus!
