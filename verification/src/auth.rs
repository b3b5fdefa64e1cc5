//! The authentication controller: verification attempts, retry counting and
//! lockout.
//!
//! The state machine is `Unverified -> (attempt) -> { Verified |
//! Unverified with one more failure } -> (failures == limit) -> Fatal`.
//! Fatal is terminal by design: it is the defense against offline brute
//! force through the interactive prompt, and the caller must release the
//! storage handle and end the process.

use vstd::prelude::*;
use vstd::utf8::encode_utf8;

use crate::context::SecurityContext;
use crate::crypto::{derived_key_of, phc_accepts, phc_wellformed, MainPwdVerifier};
use crate::errors::CryptoError;
use crate::ALLOC_INVALID_MAIN_PASS_MAX;

verus! {

/// What one verification attempt came to.
pub enum AuthOutcome {
    /// The password was accepted: the unlocked capability, counter reset.
    Verified(SecurityContext),
    /// The password was rejected; the payload counts consecutive failures
    /// so far, for a "2/3" style hint.
    Retry(u8),
    /// The failure limit is reached. Terminal: no further attempt is taken.
    Fatal,
}

/// The failure count after one attempt: a success clears it, a failure adds
/// one.
pub open spec fn next_failed(failed: nat, accepted: bool) -> nat {
    if accepted {
        0
    } else {
        failed + 1
    }
}

/// The failure count after a run of attempts, oldest first.
pub open spec fn failed_after(init: nat, results: Seq<bool>) -> nat
    decreases results.len(),
{
    if results.len() == 0 {
        init
    } else {
        failed_after(next_failed(init, results[0]), results.drop_first())
    }
}

/// Counts consecutive failed verification attempts; reaching the limit is
/// terminal for the session.
#[derive(Debug)]
pub struct AuthController {
    failed: u8,
}

impl AuthController {
    /// Consecutive failures so far.
    pub closed spec fn failed_count(&self) -> u8 {
        self.failed
    }

    /// The counter never passes the limit.
    pub open spec fn wf(&self) -> bool {
        self.failed_count() <= ALLOC_INVALID_MAIN_PASS_MAX
    }

    /// The limit is reached; no further attempt may be taken.
    pub open spec fn is_fatal(&self) -> bool {
        self.failed_count() == ALLOC_INVALID_MAIN_PASS_MAX
    }

    /// A fresh controller: no failures yet.
    pub fn new() -> (r: Self)
        ensures
            r.failed_count() == 0,
            r.wf(),
    {
        AuthController { failed: 0 }
    }

    /// Failures so far, for display beside the limit.
    pub fn failed_count_hint(&self) -> (r: u8)
        ensures
            r == self.failed_count(),
    {
        self.failed
    }

    /// Takes one verification attempt: checks the candidate password against
    /// the stored record, and on acceptance derives the field key and hands
    /// out the security context. The outcome is `Verified` exactly when the
    /// stored hash accepts the password; otherwise the counter steps up and
    /// the outcome is `Retry` below the limit and `Fatal` at it. The counter
    /// follows `next_failed`, and a structural error leaves it unchanged —
    /// and an outcome is owed whenever the stored hash is one the hasher
    /// can check and the candidate is below the hasher's input limit.
    pub fn attempt(&mut self, verifier: &MainPwdVerifier, passwd: &str) -> (r: Result<
        AuthOutcome,
        CryptoError,
    >)
        requires
            old(self).wf(),
            !old(self).is_fatal(),
        ensures
            final(self).wf(),
            r matches Ok(o) ==> final(self).failed_count() == next_failed(
                old(self).failed_count() as nat,
                phc_accepts(verifier.mph_view(), encode_utf8(passwd@)),
            ),
            r matches Ok(o) ==> ((o is Verified) == phc_accepts(
                verifier.mph_view(),
                encode_utf8(passwd@),
            )),
            r matches Ok(o) ==> (o matches AuthOutcome::Verified(ctx) ==> ctx.key_view()
                == derived_key_of(encode_utf8(passwd@), verifier.salt_view())),
            r matches Ok(o) ==> (o matches AuthOutcome::Retry(n)
                ==> n == final(self).failed_count() && !final(self).is_fatal()),
            r matches Ok(o) ==> ((o is Fatal) == final(self).is_fatal()),
            r is Err ==> *final(self) == *old(self),
            (phc_wellformed(verifier.mph_view()) && encode_utf8(passwd@).len() <= 0xFFFF_FFFF)
                ==> r is Ok,
    {
        if verifier.verify(passwd)? {
            let ctx = verifier.load_security_context(passwd)?;
            self.failed = 0;
            Ok(AuthOutcome::Verified(ctx))
        } else {
            self.failed = self.failed + 1;
            if self.failed == ALLOC_INVALID_MAIN_PASS_MAX {
                Ok(AuthOutcome::Fatal)
            } else {
                Ok(AuthOutcome::Retry(self.failed))
            }
        }
    }
}

/// A run of failures only adds up: after `results` attempts that all failed,
/// the counter stands at its start plus their number.
pub proof fn lemma_failures_accumulate(init: nat, results: Seq<bool>)
    requires
        forall|i: int| 0 <= i < results.len() ==> !results[i],
    ensures
        failed_after(init, results) == init + results.len(),
    decreases results.len(),
{
    if results.len() > 0 {
        lemma_failures_accumulate(init + 1, results.drop_first());
    }
}

/// A run of attempts ending in a success always leaves the counter at zero,
/// whatever came before.
pub proof fn lemma_success_resets(init: nat, results: Seq<bool>)
    requires
        results.len() >= 1,
        results.last(),
    ensures
        failed_after(init, results) == 0,
    decreases results.len(),
{
    if results.len() == 1 {
        assert(results[0] == results.last());
        assert(failed_after(init, results) == failed_after(0, results.drop_first()));
    } else {
        assert(results.drop_first().last() == results.last());
        lemma_success_resets(next_failed(init, results[0]), results.drop_first());
    }
}

/// Retry lockout: exactly the limit's worth of consecutive failures drives a
/// fresh controller to the fatal count, while one fewer failure followed by
/// a success leaves it verified with the counter back at zero.
pub proof fn lemma_retry_lockout(failures: Seq<bool>, redeemed: Seq<bool>)
    requires
        failures.len() == ALLOC_INVALID_MAIN_PASS_MAX,
        forall|i: int| 0 <= i < failures.len() ==> !failures[i],
        redeemed.len() == ALLOC_INVALID_MAIN_PASS_MAX,
        forall|i: int| 0 <= i < redeemed.len() - 1 ==> !redeemed[i],
        redeemed.last(),
    ensures
        failed_after(0, failures) == ALLOC_INVALID_MAIN_PASS_MAX,
        failed_after(0, redeemed) == 0,
{
    lemma_failures_accumulate(0, failures);
    lemma_success_resets(0, redeemed);
}

} // verus!
