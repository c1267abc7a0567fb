//! The data of the ledger and its mathematical model.
use vstd::prelude::*;

verus! {

/// One quantity of a single asset: a denomination and an amount.
#[derive(Debug, Clone, PartialEq, Eq)]
pub struct Asset {
    pub denom: String,
    pub amount: u128,
}

/// The model of an [`Asset`].
pub struct AssetView {
    pub denom: Seq<char>,
    pub amount: u128,
}

impl View for Asset {
    type V = AssetView;

    open spec fn view(&self) -> AssetView {
        AssetView { denom: self.denom@, amount: self.amount }
    }
}

/// A principal as the model sees it: the text of its address.
pub type PrincipalView = Seq<char>;

/// The models of a list of principals, in the list's order.
pub open spec fn principals_view(v: Seq<String>) -> Seq<PrincipalView> {
    v.map_values(|p: String| p@)
}

/// A proposed payout and its approval state.
#[derive(Debug, Clone, PartialEq, Eq)]
pub struct TX {
    /// Position of the transaction in the ledger.
    pub id: u128,
    /// Who receives the payout.
    pub to: String,
    /// What is paid out.
    pub value: Asset,
    /// Number of approvals collected so far.
    pub approval_count: u128,
    /// The approving signatories, in the order in which they approved.
    pub approvals: Vec<String>,
    /// Whether the payout has been released.
    pub completed: bool,
}

/// The model of a [`TX`].
pub struct TxView {
    pub id: nat,
    pub to: PrincipalView,
    pub value: AssetView,
    pub approval_count: nat,
    pub approvals: Seq<PrincipalView>,
    pub completed: bool,
}

impl View for TX {
    type V = TxView;

    open spec fn view(&self) -> TxView {
        TxView {
            id: self.id as nat,
            to: self.to@,
            value: self.value@,
            approval_count: self.approval_count as nat,
            approvals: principals_view(self.approvals@),
            completed: self.completed,
        }
    }
}

impl TxView {
    /// The invariant of the transaction stored at position `pos`: its id is
    /// that position, its approval count is the number of approvers, and no
    /// principal approved twice.
    pub open spec fn wf_at(self, pos: int) -> bool {
        &&& self.id == pos
        &&& self.approval_count == self.approvals.len()
        &&& self.approvals.no_duplicates()
    }
}

/// The configuration fixed at initialisation.
#[derive(Debug, Clone, PartialEq, Eq)]
pub struct Config {
    /// The principal that may create and finalise transactions.
    pub owner: String,
    /// The principals that may approve transactions, in listing order.
    pub signatories: Vec<String>,
    /// The exact number of approvals that a transaction needs to be finalised.
    pub threshold: u128,
}

/// The model of a [`Config`].
pub struct ConfigView {
    pub owner: PrincipalView,
    pub signatories: Seq<PrincipalView>,
    pub threshold: u128,
}

impl View for Config {
    type V = ConfigView;

    open spec fn view(&self) -> ConfigView {
        ConfigView {
            owner: self.owner@,
            signatories: principals_view(self.signatories@),
            threshold: self.threshold,
        }
    }
}

/// Why an operation was rejected.
#[derive(Debug, Clone, Copy, PartialEq, Eq, Structural)]
pub enum ContractError {
    /// The caller lacks the role that the operation needs.
    Unauthorized,
    /// No transaction has the given id.
    NotFound,
    /// The caller has already approved the transaction.
    AlreadyApproved,
    /// The transaction's approval count differs from the threshold.
    ThresholdNotMet,
    /// The transaction has already been finalised.
    AlreadyCompleted,
    /// The ledger has not been initialised yet.
    NotInitialized,
    /// The ledger has already been initialised.
    AlreadyInitialized,
}

/// The payout instruction that a successful finalisation emits.
#[derive(Debug, Clone, PartialEq, Eq)]
pub struct Transfer {
    pub to: String,
    pub amount: Asset,
}

/// The model of a [`Transfer`].
pub struct TransferView {
    pub to: PrincipalView,
    pub amount: AssetView,
}

impl View for Transfer {
    type V = TransferView;

    open spec fn view(&self) -> TransferView {
        TransferView { to: self.to@, amount: self.amount@ }
    }
}

/// What the owner supplies to propose a payout.
#[derive(Debug, Clone, PartialEq, Eq)]
pub struct CreateTxInfo {
    pub to: String,
    pub value: Asset,
}

/// What bootstraps the ledger; the instantiating principal becomes the owner.
#[derive(Debug, Clone, PartialEq, Eq)]
pub struct InstantiateMsg {
    pub signatories: Vec<String>,
    pub threshold: u128,
}

/// The state-changing requests.
#[derive(Debug, Clone, PartialEq, Eq)]
pub enum ExecuteMsg {
    CreateTx { tx: CreateTxInfo },
    ApproveTx { id: usize },
    SendFund { id: usize },
}

/// The read-only requests.
#[derive(Debug, Clone, PartialEq, Eq)]
pub enum QueryMsg {
    GetThresold {},
    GetSignatories {},
    GetTx { id: u128 },
}

/// Copies a string, keeping its text.
pub fn copy_string(s: &String) -> (r: String)
    ensures
        r@ == s@,
{
    s.clone()
}

/// Copies an asset, keeping its model.
pub fn copy_asset(a: &Asset) -> (r: Asset)
    ensures
        r@ == a@,
{
    Asset { denom: copy_string(&a.denom), amount: a.amount }
}

/// Copies a list of principals, keeping its model.
pub fn copy_principals(v: &Vec<String>) -> (r: Vec<String>)
    ensures
        principals_view(r@) == principals_view(v@),
{
    let mut r: Vec<String> = Vec::new();
    let mut i: usize = 0;
    while i < v.len()
        invariant
            i <= v.len(),
            r@.len() == i,
            forall|j: int| 0 <= j < i ==> #[trigger] r@[j]@ == v@[j]@,
        decreases v.len() - i,
    {
        r.push(copy_string(&v[i]));
        i = i + 1;
    }
    assert(principals_view(r@) =~= principals_view(v@));
    r
}

/// Copies a transaction, keeping its model.
pub fn copy_tx(t: &TX) -> (r: TX)
    ensures
        r@ == t@,
{
    TX {
        id: t.id,
        to: copy_string(&t.to),
        value: copy_asset(&t.value),
        approval_count: t.approval_count,
        approvals: copy_principals(&t.approvals),
        completed: t.completed,
    }
}

} // verus!
