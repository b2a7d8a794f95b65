//! Laws of verification: requests, their history, and activity metrics.

use vstd::prelude::*;

use crate::calls::Call;
use crate::invocation::InvocationView;
use crate::laws::profiles::law_profile_after_call;
use crate::model::metrics_plus;
use crate::storage::StorageView;
use crate::types::{
    AddressView, OnboardingConfigView, UserMetrics, UserProfileView, VerificationEntryView,
};

verus! {

/// The entry that auto-verification leaves in a history.
pub open spec fn auto_entry(now: u64) -> VerificationEntryView {
    VerificationEntryView { timestamp: now, action: "auto_verified"@, by: None }
}

/// What an accepted call adds to the verification history of `a`.
pub open spec fn entries_added(i: InvocationView, call: Call, a: AddressView) -> Seq<
    VerificationEntryView,
> {
    let s = i.storage;
    match call {
        Call::RequestVerification { user } if user == a && !s.pending().contains(a) => seq![
            VerificationEntryView {
                timestamp: i.timestamp,
                action: "requested"@,
                by: Some(a),
            },
        ],
        Call::ProcessVerificationRequest { user, approve } if user == a => seq![
            VerificationEntryView {
                timestamp: i.timestamp,
                action: if approve {
                    "approved"@
                } else {
                    "rejected"@
                },
                by: Some(s.config->0.platform_admin),
            },
        ],
        Call::UpdateUserMetrics { user, escrow_count_delta, volume_delta } if user == a && s.due(
            a,
            s.config->0,
            metrics_plus(s.metrics_of(a), escrow_count_delta, volume_delta),
        ) => seq![auto_entry(i.timestamp)],
        Call::AutoVerifyUser { user } if user == a && s.due(a, s.config->0, s.metrics_of(a)) =>
            seq![auto_entry(i.timestamp)],
        _ => Seq::empty(),
    }
}

proof fn lemma_logged(
    s: StorageView,
    u: AddressView,
    entry: VerificationEntryView,
    a: AddressView,
)
    ensures
        s.logged(u, entry).history_of(a) == if a == u {
            s.history_of(a) + seq![entry]
        } else {
            s.history_of(a)
        },
{
    assert(s.history_of(u).push(entry) =~= s.history_of(u) + seq![entry]);
}

proof fn lemma_auto_verify(
    s: StorageView,
    u: AddressView,
    config: OnboardingConfigView,
    metrics: UserMetrics,
    now: u64,
    a: AddressView,
)
    ensures
        s.auto_verify(u, config, metrics, now).storage.history_of(a) == if a == u && s.due(
            u,
            config,
            metrics,
        ) {
            s.history_of(a) + seq![auto_entry(now)]
        } else {
            s.history_of(a)
        },
        s.auto_verify(u, config, metrics, now).storage.queue == s.queue,
{
    let p = UserProfileView { is_verified: true, ..s.profile(u) };
    lemma_logged(s.with_profile(u, p), u, auto_entry(now), a);
}

/// What an accepted call makes of the verification history of a user: exactly the
/// entries that `entries_added` lists are appended to it.
pub proof fn law_history_after_call(i: InvocationView, call: Call, a: AddressView)
    requires
        i.step(call) is Ok,
    ensures
        i.after(i.step(call)).storage.history_of(a) == i.storage.history_of(a) + entries_added(
            i,
            call,
            a,
        ),
{
    let s = i.storage;
    let t = i.after(i.step(call)).storage;
    assert(s.history_of(a) + Seq::empty() =~= s.history_of(a));
    match call {
        Call::RequestVerification { user } => {
            let entry = VerificationEntryView {
                timestamp: i.timestamp,
                action: "requested"@,
                by: Some(user),
            };
            lemma_logged(s, user, entry, a);
        },
        Call::ProcessVerificationRequest { user, approve } => {
            let entry = VerificationEntryView {
                timestamp: i.timestamp,
                action: if approve {
                    "approved"@
                } else {
                    "rejected"@
                },
                by: Some(s.config->0.platform_admin),
            };
            let p = UserProfileView { is_verified: approve, ..s.profile(user) };
            lemma_logged(s.with_profile(user, p), user, entry, a);
        },
        Call::UpdateUserMetrics { user, escrow_count_delta, volume_delta } => {
            let metrics = metrics_plus(s.metrics_of(user), escrow_count_delta, volume_delta);
            let counted = StorageView { metrics: s.metrics.insert(user, metrics), ..s };
            lemma_auto_verify(counted, user, s.config->0, metrics, i.timestamp, a);
        },
        Call::AutoVerifyUser { user } => {
            lemma_auto_verify(
                s.upgraded(user),
                user,
                s.config->0,
                s.metrics_of(user),
                i.timestamp,
                a,
            );
        },
        _ => {
            assert(t.histories == s.histories);
        },
    }
}

/// The verification history of a user only grows, by at most one entry a call.
pub proof fn law_histories_only_grow(i: InvocationView, call: Call, a: AddressView)
    ensures
        ({
            let before = i.storage.history_of(a);
            let after = i.after(i.step(call)).storage.history_of(a);
            &&& before.is_prefix_of(after)
            &&& after.len() <= before.len() + 1
        }),
{
    if i.step(call) is Ok {
        law_history_after_call(i, call, a);
        assert((i.storage.history_of(a) + entries_added(i, call, a)).subrange(
            0,
            i.storage.history_of(a).len() as int,
        ) =~= i.storage.history_of(a));
    }
}

/// What an accepted call makes of the verification queue.
pub open spec fn queue_after(i: InvocationView, call: Call) -> Seq<AddressView> {
    let q = i.storage.pending();
    match call {
        Call::RequestVerification { user } if !q.contains(user) => q.push(user),
        Call::ProcessVerificationRequest { user, .. } => StorageView::others(q, user),
        _ => q,
    }
}

/// An accepted call changes the verification queue exactly as `queue_after` says:
/// new requests go to the end, and processed ones leave.
#[verifier::rlimit(50)]
pub proof fn law_queue_after_call(i: InvocationView, call: Call)
    requires
        i.step(call) is Ok,
    ensures
        i.after(i.step(call)).storage.pending() == queue_after(i, call),
{
    let s = i.storage;
    match call {
        Call::UpdateUserMetrics { user, escrow_count_delta, volume_delta } => {
            let metrics = metrics_plus(s.metrics_of(user), escrow_count_delta, volume_delta);
            let counted = StorageView { metrics: s.metrics.insert(user, metrics), ..s };
            lemma_auto_verify(counted, user, s.config->0, metrics, i.timestamp, user);
        },
        Call::AutoVerifyUser { user } => {
            lemma_auto_verify(
                s.upgraded(user),
                user,
                s.config->0,
                s.metrics_of(user),
                i.timestamp,
                user,
            );
        },
        Call::RequestVerification { .. } => {},
        Call::ProcessVerificationRequest { .. } => {},
        _ => {
            assert(i.after(i.step(call)).storage.queue == s.queue);
        },
    }
}

/// Nobody is in the verification queue twice, and everybody in it is onboarded.
pub open spec fn orderly(s: StorageView) -> bool {
    &&& s.pending().no_duplicates()
    &&& forall|a: AddressView| #[trigger] s.pending().contains(a) ==> s.onboarded(a)
}

/// Storage that holds nothing has an orderly queue.
pub proof fn law_empty_queue_is_orderly()
    ensures
        orderly(StorageView::empty()),
{
}

/// What is left of a queue without `a`: everybody else, in the same order.
pub proof fn law_others_is_the_queue_without(q: Seq<AddressView>, a: AddressView)
    ensures
        !StorageView::others(q, a).contains(a),
        forall|b: AddressView|
            b != a ==> StorageView::others(q, a).contains(b) == #[trigger] q.contains(b),
        q.no_duplicates() ==> StorageView::others(q, a).no_duplicates(),
        !q.contains(a) ==> StorageView::others(q, a) == q,
    decreases q.len(),
{
    reveal(Seq::filter);
    let rest = StorageView::others(q, a);
    if q.len() > 0 {
        let front = q.drop_last();
        let front_rest = StorageView::others(front, a);
        law_others_is_the_queue_without(front, a);
        assert(q =~= front.push(q.last()));
        assert forall|b: AddressView| #[trigger] q.contains(b) == (front.contains(b) || b
            == q.last()) by {
            if front.contains(b) {
                let k = choose|k: int| 0 <= k < front.len() && front[k] == b;
                assert(q[k] == b);
            }
            if b == q.last() {
                assert(q[q.len() - 1] == b);
            }
            if q.contains(b) && b != q.last() {
                let k = choose|k: int| 0 <= k < q.len() && q[k] == b;
                assert(front[k] == b);
            }
        }
        if q.last() != a {
            assert(rest == front_rest.push(q.last()));
            assert forall|b: AddressView| #[trigger] rest.contains(b) == (front_rest.contains(b)
                || b == q.last()) by {
                if front_rest.contains(b) {
                    let k = choose|k: int| 0 <= k < front_rest.len() && front_rest[k] == b;
                    assert(rest[k] == b);
                }
                if b == q.last() {
                    assert(rest[rest.len() - 1] == b);
                }
                if rest.contains(b) && b != q.last() {
                    let k = choose|k: int| 0 <= k < rest.len() && rest[k] == b;
                    assert(front_rest[k] == b);
                }
            }
            if q.no_duplicates() {
                assert(front.no_duplicates());
                assert(!front.contains(q.last()));
                assert(!front_rest.contains(q.last()));
                assert(rest.no_duplicates());
            }
        } else {
            assert(rest == front_rest);
            assert(q.contains(a));
            assert(q.no_duplicates() ==> front.no_duplicates());
        }
    } else {
        assert(rest =~= q);
    }
}

/// Every call keeps the queue orderly.
pub proof fn law_calls_keep_queue_orderly(i: InvocationView, call: Call)
    requires
        orderly(i.storage),
    ensures
        orderly(i.after(i.step(call)).storage),
{
    let s = i.storage;
    let t = i.after(i.step(call)).storage;
    if i.step(call) is Ok {
        law_queue_after_call(i, call);
        match call {
            Call::ProcessVerificationRequest { user, .. } => {
                law_others_is_the_queue_without(s.pending(), user);
            },
            _ => {},
        }
        assert forall|a: AddressView| #[trigger] t.pending().contains(a) implies t.onboarded(a) by {
            if !s.pending().contains(a) {
                assert(call == (Call::RequestVerification { user: a }));
            } else {
                law_profile_after_call(i, call, a);
            }
        }
    }
}

/// A second request before the first is processed is a no-op.
pub proof fn law_request_is_idempotent(i: InvocationView, user: AddressView, j: InvocationView)
    requires
        i.request_verification(user) is Ok,
        j.storage == i.request_verification(user)->Ok_0.storage,
        j.signed_by(user),
    ensures
        j.request_verification(user) is Ok,
        j.after(j.request_verification(user)) == j,
{
    let q = i.storage.pending();
    assert(q.push(user)[q.len() as int] == user);
    assert(j.storage.pending().contains(user));
    assert(j.effects + Seq::empty() =~= j.effects);
}

/// A request that is pending stays so until the admin processes it.
pub proof fn law_requests_wait_for_admin(i: InvocationView, call: Call, a: AddressView)
    requires
        i.storage.pending().contains(a),
        !i.after(i.step(call)).storage.pending().contains(a),
    ensures
        i.admin_refusal() is None,
        call matches Call::ProcessVerificationRequest { user, .. } && user == a,
{
    if i.step(call) is Ok {
        law_queue_after_call(i, call);
        let q = i.storage.pending();
        match call {
            Call::RequestVerification { user } => {
                let k = choose|k: int| 0 <= k < q.len() && q[k] == a;
                assert(q.push(user)[k] == a);
            },
            Call::ProcessVerificationRequest { user, .. } => {
                law_others_is_the_queue_without(q, user);
            },
            _ => {},
        }
    }
}

/// Processing settles a request: the user is verified or not as the admin decided,
/// is no longer in the queue, and everybody else waits on in the same order. A
/// new request of the same user is then accepted and goes to the end.
pub proof fn law_processing_settles_request(
    i: InvocationView,
    user: AddressView,
    approve: bool,
    j: InvocationView,
)
    requires
        i.process_verification_request(user, approve) is Ok,
        j.storage == i.process_verification_request(user, approve)->Ok_0.storage,
    ensures
        j.is_verified(user).value == approve,
        j.get_verification_queue().value == StorageView::others(
            i.get_verification_queue().value,
            user,
        ),
        !j.get_verification_queue().value.contains(user),
        j.get_verification_history(user).value == i.get_verification_history(user).value.push(
            VerificationEntryView {
                timestamp: i.timestamp,
                action: if approve {
                    "approved"@
                } else {
                    "rejected"@
                },
                by: Some(i.storage.config->0.platform_admin),
            },
        ),
        j.signed_by(user) ==> (j.request_verification(user) matches Ok(o)
            && o.storage.pending() == j.storage.pending().push(user)),
{
    let call = Call::ProcessVerificationRequest { user, approve };
    law_profile_after_call(i, call, user);
    law_others_is_the_queue_without(i.storage.pending(), user);
}

/// Metrics add up: a report adds to what was reported before, up to the numeric
/// bounds, and touches the metrics of nobody else.
pub proof fn law_metrics_after_report(
    i: InvocationView,
    user: AddressView,
    escrow_count_delta: u32,
    volume_delta: i128,
    j: InvocationView,
    a: AddressView,
)
    requires
        i.update_user_metrics(user, escrow_count_delta, volume_delta) is Ok,
        j.storage == i.update_user_metrics(user, escrow_count_delta, volume_delta)->Ok_0.storage,
    ensures
        j.get_user_metrics(a).value == if a == user {
            metrics_plus(i.get_user_metrics(a).value, escrow_count_delta, volume_delta)
        } else {
            i.get_user_metrics(a).value
        },
{
}

/// Metrics change only by a report of the reporter.
pub proof fn law_metrics_change_only_by_reporter(i: InvocationView, call: Call, a: AddressView)
    requires
        i.after(i.step(call)).storage.metrics_of(a) != i.storage.metrics_of(a),
    ensures
        i.reporter_refusal() is None,
        call matches Call::UpdateUserMetrics { user, .. } && user == a,
{
}

/// A user whose metrics reach the thresholds with a report is verified by it.
pub proof fn law_report_verifies_qualified_user(
    i: InvocationView,
    user: AddressView,
    escrow_count_delta: u32,
    volume_delta: i128,
    j: InvocationView,
)
    requires
        i.update_user_metrics(user, escrow_count_delta, volume_delta) is Ok,
        j.storage == i.update_user_metrics(user, escrow_count_delta, volume_delta)->Ok_0.storage,
        i.storage.onboarded(user),
    ensures
        j.is_verified(user).value == (i.is_verified(user).value
            || i.storage.config->0.qualifies(j.get_user_metrics(user).value)),
{
    let call = Call::UpdateUserMetrics { user, escrow_count_delta, volume_delta };
    law_profile_after_call(i, call, user);
    law_metrics_after_report(i, user, escrow_count_delta, volume_delta, j, user);
}

/// Auto-verification answers `true` exactly when the user just became verified;
/// the user is then verified, and asking again answers `false`.
pub proof fn law_auto_verification_answer(i: InvocationView, user: AddressView, j: InvocationView)
    requires
        i.auto_verify_user(user) is Ok,
        j.storage == i.auto_verify_user(user)->Ok_0.storage,
    ensures
        i.auto_verify_user(user)->Ok_0.value == (!i.is_verified(user).value && j.is_verified(
            user,
        ).value),
        i.auto_verify_user(user)->Ok_0.value == (!i.is_verified(user).value
            && i.storage.config->0.qualifies(i.get_user_metrics(user).value)),
        j.auto_verify_user(user) matches Ok(again) && !again.value,
{
    let call = Call::AutoVerifyUser { user };
    law_profile_after_call(i, call, user);
}

/// Auto-verification is a no-op where it answers `false`, but that a profile
/// without a version gets one.
pub proof fn law_auto_verification_may_be_no_op(i: InvocationView, user: AddressView)
    requires
        i.auto_verify_user(user) matches Ok(o) && !o.value,
    ensures
        i.auto_verify_user(user)->Ok_0.storage == i.storage.upgraded(user),
{
}

/// The thresholds that are set are the ones that count from then on.
pub proof fn law_thresholds_take_effect(
    i: InvocationView,
    min_escrow_count: u32,
    min_volume: i128,
    j: InvocationView,
    metrics: UserMetrics,
)
    requires
        i.set_verification_thresholds(min_escrow_count, min_volume) is Ok,
        j.storage == i.set_verification_thresholds(min_escrow_count, min_volume)->Ok_0.storage,
    ensures
        j.get_config() matches Ok(o) && o.value == (OnboardingConfigView {
            min_escrow_count_for_verify: min_escrow_count,
            min_volume_for_verify: min_volume,
            ..i.storage.config->0
        }),
        j.storage.config->0.qualifies(metrics) == (metrics.total_escrow_count >= min_escrow_count
            && metrics.total_volume >= min_volume),
{
}

} // verus!
