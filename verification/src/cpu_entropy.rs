//! Hardware random numbers from the RDRAND and RDSEED instructions.
//!
//! The instructions are reached through the `rdrand` crate, which checks
//! support through CPUID (refusing AMD families before 0x17) and retries a
//! failing instruction a few times within one query (up to 11 times for
//! RDRAND, 128 for RDSEED). Every value they give depends on the machine, so
//! the contracts below only say what holds of every outcome.

use rdrand::{ErrorCode, RdRand, RdSeed};
use vstd::prelude::*;

verus! {

#[verifier::external_type_specification]
#[verifier::external_body]
pub struct ExRdRand(RdRand);

#[verifier::external_type_specification]
#[verifier::external_body]
pub struct ExRdSeed(RdSeed);

#[verifier::external_type_specification]
#[verifier::external_body]
pub struct ExErrorCode(ErrorCode);

/// Calls `rdrand::RdRand::new`, which asks the processor (through CPUID)
/// whether RDRAND is usable. Nothing is stated of the outcome: it depends on
/// the machine.
#[verifier::external_body]
fn rdrand_generator() -> (r: Result<RdRand, ErrorCode>) {
    RdRand::new()
}

/// Calls `rdrand::RdRand::try_next_u64`: one random `u64` from RDRAND, or an
/// error when the instruction kept failing. Nothing is stated of the value.
#[verifier::external_body]
fn rdrand_next(g: &RdRand) -> (r: Result<u64, ErrorCode>) {
    g.try_next_u64()
}

/// Calls `rdrand::RdSeed::new`, which asks the processor (through CPUID)
/// whether RDSEED is usable. Nothing is stated of the outcome.
#[verifier::external_body]
fn rdseed_generator() -> (r: Result<RdSeed, ErrorCode>) {
    RdSeed::new()
}

/// Calls `rdrand::RdSeed::try_next_u64`: one random `u64` from RDSEED, or an
/// error when the instruction kept failing. Nothing is stated of the value.
#[verifier::external_body]
fn rdseed_next(g: &RdSeed) -> (r: Result<u64, ErrorCode>) {
    g.try_next_u64()
}

/// Calls `std::hint::spin_loop`, a hint to the processor inside a busy-wait
/// loop. It has no effect that the library can observe.
#[verifier::external_body]
fn spin_loop_hint() {
    std::hint::spin_loop()
}

/// The answer of one instruction query: the value it gave, or `None` when it
/// failed.
pub fn query_answer(outcome: Result<u64, ErrorCode>) -> (r: Option<u64>)
    ensures
        r == (match outcome {
            Ok(v) => Some(v),
            Err(_) => None,
        }),
{
    match outcome {
        Ok(v) => Some(v),
        Err(_) => None,
    }
}

/// One query of the RDSEED instruction: `None` when the processor does not
/// support it, otherwise the answer of the query (see `query_answer`), `None`
/// when it failed after the crate's internal retries.
pub fn try_rdseed() -> (r: Option<u64>) {
    match rdseed_generator() {
        Ok(g) => query_answer(rdseed_next(&g)),
        Err(_) => None,
    }
}

/// One query of the RDRAND instruction: `None` when the processor does not
/// support it, otherwise the answer of the query (see `query_answer`), `None`
/// when it failed after the crate's internal retries.
pub fn try_rdrand() -> (r: Option<u64>) {
    match rdrand_generator() {
        Ok(g) => query_answer(rdrand_next(&g)),
        Err(_) => None,
    }
}

/// What a bounded retry loop does after a query has answered.
#[derive(Clone, Copy, Debug)]
pub enum QueryStep {
    /// Stop, and give this result.
    Done(Option<u64>),
    /// Query once more.
    Again,
}

/// The retry rule: after the answer to query number `made + 1` of at most
/// `limit`, stop with the answer when it is a value, stop with `None` when
/// that was the last query allowed, and query again otherwise.
pub open spec fn query_step(answer: Option<u64>, made: nat, limit: nat) -> QueryStep {
    if answer is Some {
        QueryStep::Done(answer)
    } else if made + 1 >= limit {
        QueryStep::Done(None)
    } else {
        QueryStep::Again
    }
}

/// Decides what a retry loop does with `answer`, the answer to the query
/// made after `made` earlier ones, when at most `limit` queries are allowed.
pub fn next_query(answer: Option<u64>, made: u16, limit: u16) -> (s: QueryStep)
    ensures
        s == query_step(answer, made as nat, limit as nat),
{
    match answer {
        Some(v) => QueryStep::Done(Some(v)),
        None => {
            if made as u32 + 1 >= limit as u32 {
                QueryStep::Done(None)
            } else {
                QueryStep::Again
            }
        },
    }
}

/// Queries `query` up to `loop_amount` times, deciding after each answer by
/// `next_query`: the first value it answers is returned, and `None` once
/// `loop_amount` queries have all answered `None` (at once for zero queries).
/// The processor spins briefly after each failed query. Whatever `query`
/// does: a value returned is one that `query` can answer; `None` after at
/// least one query is returned only if `query` can answer `None`; so a query
/// that always answers with a value gives a value.
pub fn retry_query(loop_amount: u16, query: impl Fn() -> Option<u64>) -> (r: Option<u64>)
    requires
        query.requires(()),
    ensures
        loop_amount == 0 ==> r is None,
        r matches Some(v) ==> query.ensures((), Some(v)),
        loop_amount > 0 && r is None ==> query.ensures((), None),
        loop_amount > 0 && (forall|a: Option<u64>| #[trigger] query.ensures((), a) ==> a is Some) ==> r is Some,
{
    if loop_amount == 0 {
        return None;
    }
    let mut made: u16 = 0;
    loop
        invariant
            made < loop_amount,
            query.requires(()),
        decreases loop_amount - made,
    {
        let answer = query();
        match next_query(answer, made, loop_amount) {
            QueryStep::Done(r) => {
                if r.is_none() {
                    spin_loop_hint();
                }
                return r;
            },
            QueryStep::Again => {
                spin_loop_hint();
                made = made + 1;
            },
        }
    }
}

/// The retry rule in words: a value answered ends the queries with that
/// value; a failed answer ends them with `None` exactly when it was the last
/// query allowed, and otherwise leads to one more query.
pub proof fn lemma_retry_rule(answer: Option<u64>, made: nat, limit: nat)
    ensures
        answer matches Some(v) ==> query_step(answer, made, limit) == QueryStep::Done(Some(v)),
        answer is None && made + 1 >= limit ==> query_step(answer, made, limit) == QueryStep::Done(None),
        answer is None && made + 1 < limit ==> query_step(answer, made, limit) == QueryStep::Again,
{
}

/// Queries RDSEED up to `loop_amount` times (see `retry_query`): the first
/// value it gives is returned, and `None` when every query failed (always
/// `None` for zero queries).
pub fn gen_rdseed(loop_amount: u16) -> (r: Option<u64>)
    ensures
        loop_amount == 0 ==> r is None,
{
    retry_query(loop_amount, try_rdseed)
}

/// Queries RDRAND up to `loop_amount` times (see `retry_query`): the first
/// value it gives is returned, and `None` when every query failed (always
/// `None` for zero queries).
pub fn gen_rdrand(loop_amount: u16) -> (r: Option<u64>)
    ensures
        loop_amount == 0 ==> r is None,
{
    retry_query(loop_amount, try_rdrand)
}

} // verus!
