//! The transaction ledger: initialisation and the create / approve /
//! finalise state machine.
use vstd::prelude::*;

use crate::access::{check_owner, check_signatory, contains_principal, is_owner, is_signatory};
use crate::types::{
    copy_asset, copy_string, principals_view, AssetView, Config, ConfigView, ContractError,
    CreateTxInfo, ExecuteMsg, InstantiateMsg, PrincipalView, Transfer, TransferView, TxView, TX,
};

verus! {

/// The whole state: the configuration, once initialised, and the
/// append-only list of transactions.
pub struct Multisig {
    config: Option<Config>,
    txs: Vec<TX>,
}

/// The model of a [`Multisig`].
pub struct MultisigView {
    pub config: Option<ConfigView>,
    pub txs: Seq<TxView>,
}

impl View for Multisig {
    type V = MultisigView;

    closed spec fn view(&self) -> MultisigView {
        parts_view(self.config, self.txs@)
    }
}

/// The model of a ledger held as its configuration and its transactions.
pub open spec fn parts_view(config: Option<Config>, txs: Seq<TX>) -> MultisigView {
    MultisigView {
        config: match config {
            Some(c) => Some(c@),
            None => None,
        },
        txs: txs.map_values(|t: TX| t@),
    }
}

impl MultisigView {
    /// The ledger's invariant: nothing is stored before initialisation, and
    /// every transaction is well formed at its own position.
    pub open spec fn wf(self) -> bool {
        &&& self.config is None ==> self.txs.len() == 0
        &&& forall|i: int| 0 <= i < self.txs.len() ==> #[trigger] self.txs[i].wf_at(i)
    }
}

impl Multisig {
    /// The ledger's invariant, on the state itself.
    pub open spec fn wf(&self) -> bool {
        self@.wf()
    }

    /// An uninitialised ledger.
    pub fn new() -> (r: Multisig)
        ensures
            r@.config is None,
            r@.txs.len() == 0,
            r.wf(),
    {
        Multisig { config: None, txs: Vec::new() }
    }

    /// Rebuilds a ledger from its stored parts, provided they satisfy the
    /// ledger's invariant; `None` where they do not.
    pub fn restore(config: Option<Config>, txs: Vec<TX>) -> (r: Option<Multisig>)
        ensures
            match r {
                Some(m) => parts_view(config, txs@).wf() && m@ == parts_view(config, txs@),
                None => !parts_view(config, txs@).wf(),
            },
    {
        let ghost v = parts_view(config, txs@);
        if config.is_none() && txs.len() > 0 {
            return None;
        }
        let mut i: usize = 0;
        while i < txs.len()
            invariant
                i <= txs.len(),
                v == parts_view(config, txs@),
                forall|j: int| 0 <= j < i ==> #[trigger] v.txs[j].wf_at(j),
            decreases txs.len() - i,
        {
            let t = &txs[i];
            if t.id != i as u128 || t.approval_count != t.approvals.len() as u128 || has_duplicates(
                &t.approvals,
            ) {
                assert(!v.txs[i as int].wf_at(i as int));
                return None;
            }
            i = i + 1;
        }
        let m = Multisig { config, txs };
        assert(m@ == v);
        Some(m)
    }

    /// Takes the ledger apart into its configuration and its transactions,
    /// for storing.
    pub fn into_parts(self) -> (r: (Option<Config>, Vec<TX>))
        ensures
            parts_view(r.0, r.1@) == self@,
    {
        (self.config, self.txs)
    }

    /// The configuration, if the ledger has been initialised.
    pub fn config(&self) -> (r: Option<&Config>)
        ensures
            match r {
                Some(c) => self@.config == Some(c@),
                None => self@.config is None,
            },
    {
        match &self.config {
            Some(c) => Some(c),
            None => None,
        }
    }

    /// The number of transactions created so far.
    pub fn tx_count(&self) -> (r: usize)
        ensures
            r == self@.txs.len(),
    {
        self.txs.len()
    }

    /// The transaction with id `id`, if there is one.
    pub fn tx(&self, id: usize) -> (r: Option<&TX>)
        ensures
            match r {
                Some(t) => id < self@.txs.len() && t@ == self@.txs[id as int],
                None => id >= self@.txs.len(),
            },
    {
        if id < self.txs.len() {
            Some(&self.txs[id])
        } else {
            None
        }
    }
}

/// Whether some principal occurs twice in `list`.
pub fn has_duplicates(list: &Vec<String>) -> (r: bool)
    ensures
        r == !principals_view(list@).no_duplicates(),
{
    let ghost lv = principals_view(list@);
    let mut i: usize = 0;
    while i < list.len()
        invariant
            i <= list.len(),
            lv == principals_view(list@),
            forall|a: int, b: int| 0 <= a < b < i ==> lv[a] != lv[b],
        decreases list.len() - i,
    {
        let mut j: usize = 0;
        while j < i
            invariant
                i < list.len(),
                j <= i,
                lv == principals_view(list@),
                forall|a: int| 0 <= a < j ==> lv[a] != lv[i as int],
            decreases i - j,
        {
            if list[j] == list[i] {
                assert(lv[j as int] == lv[i as int]);
                return true;
            }
            j = j + 1;
        }
        i = i + 1;
    }
    false
}

/// The transaction that a create with these arguments appends at position `id`.
pub open spec fn new_tx(id: nat, to: PrincipalView, value: AssetView) -> TxView {
    TxView { id, to, value, approval_count: 0, approvals: Seq::empty(), completed: false }
}

/// The outcome of initialising `s` with owner `owner`.
pub open spec fn instantiate_step(
    s: MultisigView,
    owner: PrincipalView,
    signatories: Seq<PrincipalView>,
    threshold: u128,
) -> Result<MultisigView, ContractError> {
    if s.config is Some {
        Err(ContractError::AlreadyInitialized)
    } else {
        Ok(MultisigView { config: Some(ConfigView { owner, signatories, threshold }), txs: Seq::empty() })
    }
}

/// The outcome of `caller` proposing a payout of `value` to `to`: the new
/// state and the id of the new transaction.
pub open spec fn create_step(
    s: MultisigView,
    caller: PrincipalView,
    to: PrincipalView,
    value: AssetView,
) -> Result<(MultisigView, nat), ContractError> {
    match s.config {
        None => Err(ContractError::NotInitialized),
        Some(c) => if !is_owner(c, caller) {
            Err(ContractError::Unauthorized)
        } else {
            let id = s.txs.len();
            Ok((MultisigView { config: s.config, txs: s.txs.push(new_tx(id, to, value)) }, id))
        },
    }
}

/// The outcome of `caller` approving transaction `id`.
pub open spec fn approve_step(s: MultisigView, caller: PrincipalView, id: int) -> Result<
    MultisigView,
    ContractError,
> {
    match s.config {
        None => Err(ContractError::NotInitialized),
        Some(c) => if !is_signatory(c, caller) {
            Err(ContractError::Unauthorized)
        } else if !(0 <= id < s.txs.len()) {
            Err(ContractError::NotFound)
        } else if s.txs[id].approvals.contains(caller) {
            Err(ContractError::AlreadyApproved)
        } else {
            let t = s.txs[id];
            let approved = TxView {
                approval_count: t.approval_count + 1,
                approvals: t.approvals.push(caller),
                ..t
            };
            Ok(MultisigView { config: s.config, txs: s.txs.update(id, approved) })
        },
    }
}

/// The outcome of `caller` finalising transaction `id`: the new state and
/// the transfer instruction emitted.
pub open spec fn finalize_step(s: MultisigView, caller: PrincipalView, id: int) -> Result<
    (MultisigView, TransferView),
    ContractError,
> {
    match s.config {
        None => Err(ContractError::NotInitialized),
        Some(c) => if !is_owner(c, caller) {
            Err(ContractError::Unauthorized)
        } else if !(0 <= id < s.txs.len()) {
            Err(ContractError::NotFound)
        } else if s.txs[id].approval_count != c.threshold {
            Err(ContractError::ThresholdNotMet)
        } else if s.txs[id].completed {
            Err(ContractError::AlreadyCompleted)
        } else {
            let t = s.txs[id];
            let done = TxView { completed: true, ..t };
            Ok(
                (
                    MultisigView { config: s.config, txs: s.txs.update(id, done) },
                    TransferView { to: t.to, amount: t.value },
                ),
            )
        },
    }
}

/// Initialises the ledger: `sender` becomes the owner, and the signatories
/// and threshold are taken from `msg`. Refused if the ledger was already
/// initialised.
pub fn instantiate(state: &mut Multisig, sender: String, msg: InstantiateMsg) -> (r: Result<
    (),
    ContractError,
>)
    requires
        old(state).wf(),
    ensures
        final(state).wf(),
        match instantiate_step(
            old(state)@,
            sender@,
            principals_view(msg.signatories@),
            msg.threshold,
        ) {
            Ok(s) => r is Ok && final(state)@ == s,
            Err(e) => r == Err::<(), ContractError>(e) && final(state)@ == old(state)@,
        },
{
    if state.config.is_some() {
        return Err(ContractError::AlreadyInitialized);
    }
    state.config = Some(Config { owner: sender, signatories: msg.signatories, threshold: msg.threshold });
    state.txs = Vec::new();
    assert(state@.txs =~= Seq::empty());
    Ok(())
}

/// Proposes a payout; only the owner may. Returns the new transaction's id,
/// which is its position in the ledger.
pub fn create_tx(state: &mut Multisig, sender: &String, tx: CreateTxInfo) -> (r: Result<
    u128,
    ContractError,
>)
    requires
        old(state).wf(),
    ensures
        final(state).wf(),
        match create_step(old(state)@, sender@, tx.to@, tx.value@) {
            Ok((s, id)) => r is Ok && r->Ok_0 == id && final(state)@ == s,
            Err(e) => r == Err::<u128, ContractError>(e) && final(state)@ == old(state)@,
        },
{
    let authorized = match &state.config {
        None => {
            return Err(ContractError::NotInitialized);
        },
        Some(c) => check_owner(c, sender),
    };
    if !authorized {
        return Err(ContractError::Unauthorized);
    }
    let id = state.txs.len() as u128;
    let ghost pre = state@;
    state.txs.push(
        TX {
            id,
            to: tx.to,
            value: tx.value,
            approval_count: 0,
            approvals: Vec::new(),
            completed: false,
        },
    );
    assert(state@.txs.last().approvals =~= Seq::<PrincipalView>::empty());
    assert(state@.txs =~= pre.txs.push(new_tx(id as nat, tx.to@, tx.value@)));
    Ok(id)
}

/// Records `sender`'s approval of transaction `id`; only a signatory may,
/// and only once per transaction.
pub fn approve_tx(state: &mut Multisig, sender: &String, id: usize) -> (r: Result<
    (),
    ContractError,
>)
    requires
        old(state).wf(),
    ensures
        final(state).wf(),
        match approve_step(old(state)@, sender@, id as int) {
            Ok(s) => r is Ok && final(state)@ == s,
            Err(e) => r == Err::<(), ContractError>(e) && final(state)@ == old(state)@,
        },
{
    let authorized = match &state.config {
        None => {
            return Err(ContractError::NotInitialized);
        },
        Some(c) => check_signatory(c, sender),
    };
    if !authorized {
        return Err(ContractError::Unauthorized);
    }
    if id >= state.txs.len() {
        return Err(ContractError::NotFound);
    }
    if contains_principal(&state.txs[id].approvals, sender) {
        return Err(ContractError::AlreadyApproved);
    }
    let ghost pre = state@;
    let ghost t = pre.txs[id as int];
    assert(pre.txs[id as int].wf_at(id as int));
    assert(t == state.txs@[id as int]@);
    let approvers: usize = state.txs[id].approvals.len();
    assert(t.approval_count == approvers);
    let tx = &mut state.txs[id];
    tx.approval_count = tx.approval_count + 1;
    tx.approvals.push(copy_string(sender));
    proof {
        let approved = TxView {
            approval_count: t.approval_count + 1,
            approvals: t.approvals.push(sender@),
            ..t
        };
        assert(state@.txs[id as int].approvals =~= t.approvals.push(sender@));
        assert(state@.txs =~= pre.txs.update(id as int, approved));
        assert(approved.approvals.no_duplicates());
    }
    Ok(())
}

/// Finalises transaction `id`: only the owner may, only when its approval
/// count equals the threshold exactly, and only once. Marks it completed and
/// returns the payout instruction.
pub fn send_fund(state: &mut Multisig, sender: &String, id: usize) -> (r: Result<
    Transfer,
    ContractError,
>)
    requires
        old(state).wf(),
    ensures
        final(state).wf(),
        match r {
            Ok(t) => finalize_step(old(state)@, sender@, id as int) == Ok::<
                (MultisigView, TransferView),
                ContractError,
            >((final(state)@, t@)),
            Err(e) => finalize_step(old(state)@, sender@, id as int) == Err::<
                (MultisigView, TransferView),
                ContractError,
            >(e) && final(state)@ == old(state)@,
        },
{
    let threshold = match &state.config {
        None => {
            return Err(ContractError::NotInitialized);
        },
        Some(c) => {
            if !check_owner(c, sender) {
                return Err(ContractError::Unauthorized);
            }
            c.threshold
        },
    };
    if id >= state.txs.len() {
        return Err(ContractError::NotFound);
    }
    if state.txs[id].approval_count != threshold {
        return Err(ContractError::ThresholdNotMet);
    }
    if state.txs[id].completed {
        return Err(ContractError::AlreadyCompleted);
    }
    let ghost pre = state@;
    let ghost t = pre.txs[id as int];
    assert(t.wf_at(id as int));
    let transfer = Transfer {
        to: copy_string(&state.txs[id].to),
        amount: copy_asset(&state.txs[id].value),
    };
    let tx = &mut state.txs[id];
    tx.completed = true;
    proof {
        assert(state@.txs =~= pre.txs.update(id as int, TxView { completed: true, ..t }));
        assert(state@.txs[id as int].wf_at(id as int));
    }
    Ok(transfer)
}

} // verus!

verus! {

/// Dispatches a state-changing request from `sender`. A successful finalise
/// yields its payout instruction; the other requests yield none.
pub fn execute(state: &mut Multisig, sender: &String, msg: ExecuteMsg) -> (r: Result<
    Option<Transfer>,
    ContractError,
>)
    requires
        old(state).wf(),
    ensures
        final(state).wf(),
        match msg {
            ExecuteMsg::CreateTx { tx } => match create_step(
                old(state)@,
                sender@,
                tx.to@,
                tx.value@,
            ) {
                Ok((s, _)) => r == Ok::<Option<Transfer>, ContractError>(None) && final(state)@
                    == s,
                Err(e) => r == Err::<Option<Transfer>, ContractError>(e) && final(state)@ == old(
                    state,
                )@,
            },
            ExecuteMsg::ApproveTx { id } => match approve_step(old(state)@, sender@, id as int) {
                Ok(s) => r == Ok::<Option<Transfer>, ContractError>(None) && final(state)@ == s,
                Err(e) => r == Err::<Option<Transfer>, ContractError>(e) && final(state)@ == old(
                    state,
                )@,
            },
            ExecuteMsg::SendFund { id } => match r {
                Ok(Some(t)) => finalize_step(old(state)@, sender@, id as int) == Ok::<
                    (MultisigView, TransferView),
                    ContractError,
                >((final(state)@, t@)),
                Ok(None) => false,
                Err(e) => finalize_step(old(state)@, sender@, id as int) == Err::<
                    (MultisigView, TransferView),
                    ContractError,
                >(e) && final(state)@ == old(state)@,
            },
        },
{
    match msg {
        ExecuteMsg::CreateTx { tx } => match create_tx(state, sender, tx) {
            Ok(_) => Ok(None),
            Err(e) => Err(e),
        },
        ExecuteMsg::ApproveTx { id } => match approve_tx(state, sender, id) {
            Ok(()) => Ok(None),
            Err(e) => Err(e),
        },
        ExecuteMsg::SendFund { id } => match send_fund(state, sender, id) {
            Ok(t) => Ok(Some(t)),
            Err(e) => Err(e),
        },
    }
}

} // verus!
