//! Laws of the ledger's state machine, proved over the step functions that
//! the executable operations are specified by.
use vstd::prelude::*;

use crate::access::{is_owner, is_signatory};
use crate::ledger::{approve_step, create_step, finalize_step, MultisigView};
use crate::types::{AssetView, ContractError, PrincipalView};

verus! {

/// Ids are sequential: in a well-formed ledger holding `n` transactions, a
/// successful create returns id `n`, stores the new transaction at position
/// `n` with that id, and leaves the ledger well formed (so every stored
/// transaction keeps id equal to its position).
pub proof fn lemma_created_id_is_position(
    s: MultisigView,
    caller: PrincipalView,
    to: PrincipalView,
    value: AssetView,
)
    requires
        s.wf(),
        create_step(s, caller, to, value) is Ok,
    ensures
        ({
            let (t, id) = create_step(s, caller, to, value)->Ok_0;
            &&& id == s.txs.len()
            &&& t.txs.len() == s.txs.len() + 1
            &&& t.txs[id as int].id == id
            &&& t.txs.subrange(0, s.txs.len() as int) == s.txs
            &&& t.wf()
        }),
{
    let (t, id) = create_step(s, caller, to, value)->Ok_0;
    assert(t.txs.subrange(0, s.txs.len() as int) =~= s.txs);
    assert forall|i: int| 0 <= i < t.txs.len() implies #[trigger] t.txs[i].wf_at(i) by {
        if i < s.txs.len() {
            assert(s.txs[i].wf_at(i));
        }
    }
}

/// Approving neither adds nor removes transactions, nor changes any id, and
/// keeps the ledger well formed.
pub proof fn lemma_approve_keeps_ids(s: MultisigView, caller: PrincipalView, id: int)
    requires
        s.wf(),
        approve_step(s, caller, id) is Ok,
    ensures
        ({
            let t = approve_step(s, caller, id)->Ok_0;
            &&& t.txs.len() == s.txs.len()
            &&& forall|i: int| 0 <= i < s.txs.len() ==> #[trigger] t.txs[i].id == s.txs[i].id
            &&& t.wf()
        }),
{
    let t = approve_step(s, caller, id)->Ok_0;
    assert(s.txs[id].wf_at(id));
    assert forall|i: int| 0 <= i < t.txs.len() implies #[trigger] t.txs[i].wf_at(i) by {
        assert(s.txs[i].wf_at(i));
    }
}

/// Finalising neither adds nor removes transactions, nor changes any id, and
/// keeps the ledger well formed.
pub proof fn lemma_finalize_keeps_ids(s: MultisigView, caller: PrincipalView, id: int)
    requires
        s.wf(),
        finalize_step(s, caller, id) is Ok,
    ensures
        ({
            let t = finalize_step(s, caller, id)->Ok_0.0;
            &&& t.txs.len() == s.txs.len()
            &&& forall|i: int| 0 <= i < s.txs.len() ==> #[trigger] t.txs[i].id == s.txs[i].id
            &&& t.wf()
        }),
{
    let t = finalize_step(s, caller, id)->Ok_0.0;
    assert forall|i: int| 0 <= i < t.txs.len() implies #[trigger] t.txs[i].wf_at(i) by {
        assert(s.txs[i].wf_at(i));
    }
}

/// A principal approves a transaction at most once: after a successful
/// approval the same principal's second approval is refused with
/// `AlreadyApproved`, and the first approval raised the count by exactly one.
pub proof fn lemma_approve_twice_refused(s: MultisigView, caller: PrincipalView, id: int)
    requires
        approve_step(s, caller, id) is Ok,
    ensures
        ({
            let t = approve_step(s, caller, id)->Ok_0;
            &&& t.txs[id].approval_count == s.txs[id].approval_count + 1
            &&& approve_step(t, caller, id) == Err::<MultisigView, ContractError>(
                ContractError::AlreadyApproved,
            )
        }),
{
    let t = approve_step(s, caller, id)->Ok_0;
    assert(t.txs[id].approvals.last() == caller);
    assert(t.txs[id].approvals.contains(caller));
}

/// Finalisation is gated on the exact threshold: for the owner and an
/// existing transaction, finalise succeeds if and only if the approval count
/// equals the threshold and the transaction is not completed; any other
/// count, larger or smaller, is refused with `ThresholdNotMet`.
pub proof fn lemma_exact_threshold_gate(s: MultisigView, caller: PrincipalView, id: int)
    requires
        s.config is Some,
        is_owner(s.config->Some_0, caller),
        0 <= id < s.txs.len(),
    ensures
        finalize_step(s, caller, id) is Ok <==> (s.txs[id].approval_count
            == s.config->Some_0.threshold && !s.txs[id].completed),
        s.txs[id].approval_count != s.config->Some_0.threshold ==> finalize_step(s, caller, id) is Err
            && finalize_step(s, caller, id)->Err_0 == ContractError::ThresholdNotMet,
{
}

/// A payout is released at most once: after a successful finalise, a second
/// finalise of the same transaction is refused with `AlreadyCompleted`, and
/// once a transaction is completed no later operation releases it again or
/// clears its completion.
pub proof fn lemma_finalize_exactly_once(s: MultisigView, caller: PrincipalView, id: int)
    requires
        finalize_step(s, caller, id) is Ok,
    ensures
        ({
            let t = finalize_step(s, caller, id)->Ok_0.0;
            &&& t.txs[id].completed
            &&& finalize_step(t, caller, id) is Err
            &&& finalize_step(t, caller, id)->Err_0 == ContractError::AlreadyCompleted
        }),
{
}

/// Completion is permanent: a completed transaction stays completed through
/// every successful create, approve or finalise, and no finalise of it
/// succeeds.
pub proof fn lemma_completed_is_final(
    s: MultisigView,
    tx_id: int,
    caller: PrincipalView,
    to: PrincipalView,
    value: AssetView,
    id: int,
)
    requires
        0 <= tx_id < s.txs.len(),
        s.txs[tx_id].completed,
    ensures
        finalize_step(s, caller, tx_id) is Err,
        create_step(s, caller, to, value) is Ok ==> create_step(
            s,
            caller,
            to,
            value,
        )->Ok_0.0.txs[tx_id].completed,
        approve_step(s, caller, id) is Ok ==> approve_step(s, caller, id)->Ok_0.txs[tx_id].completed,
        finalize_step(s, caller, id) is Ok ==> finalize_step(
            s,
            caller,
            id,
        )->Ok_0.0.txs[tx_id].completed,
{
}

/// Roles gate every operation: create and finalise are refused with
/// `Unauthorized` for anyone but the owner, and approve for anyone outside
/// the signatory set, the owner included unless listed there.
pub proof fn lemma_role_gating(
    s: MultisigView,
    caller: PrincipalView,
    to: PrincipalView,
    value: AssetView,
    id: int,
)
    requires
        s.config is Some,
    ensures
        !is_owner(s.config->Some_0, caller) ==> create_step(s, caller, to, value) == Err::<
            (MultisigView, nat),
            ContractError,
        >(ContractError::Unauthorized),
        !is_owner(s.config->Some_0, caller) ==> finalize_step(s, caller, id) is Err
            && finalize_step(s, caller, id)->Err_0 == ContractError::Unauthorized,
        !is_signatory(s.config->Some_0, caller) ==> approve_step(s, caller, id) == Err::<
            MultisigView,
            ContractError,
        >(ContractError::Unauthorized),
{
}

/// With a threshold of zero, the owner can finalise a transaction right
/// after creating it, with no approvals.
pub proof fn lemma_zero_threshold_finalizes_at_once(
    s: MultisigView,
    caller: PrincipalView,
    to: PrincipalView,
    value: AssetView,
)
    requires
        s.wf(),
        s.config is Some,
        s.config->Some_0.threshold == 0,
        is_owner(s.config->Some_0, caller),
    ensures
        create_step(s, caller, to, value) is Ok,
        finalize_step(
            create_step(s, caller, to, value)->Ok_0.0,
            caller,
            create_step(s, caller, to, value)->Ok_0.1 as int,
        ) is Ok,
{
}

} // verus!
