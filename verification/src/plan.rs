//! What an accepted operation asks of the runtime: the calls to the token
//! program, in order, and what becomes of the record account.

use vstd::prelude::*;
use vstd::slice::slice_to_vec;
use crate::address::Address;
use crate::custody::{custody_label_bytes, custody_seeds};
use crate::state::EscrowState;
use crate::token::{TokenCall, TokenCallView};

verus! {

/// The seeds with which the program signs as the custody address of a trade.
#[derive(Clone, Copy, Debug)]
pub struct CustodySeeds {
    /// The initiator of the trade.
    pub initiator: Address,
    /// The seed byte that the record stores.
    pub bump: u8,
}

impl CustodySeeds {
    /// The seeds as the runtime takes them: the label, the initiator's
    /// identity and the seed byte.
    pub fn seeds(&self) -> (seeds: Vec<Vec<u8>>)
        ensures
            seeds.deep_view() == custody_seeds(self.initiator, self.bump),
    {
        let label = slice_to_vec(custody_label_bytes().as_slice());
        let initiator = slice_to_vec(self.initiator.as_slice());
        let bump: Vec<u8> = vec![self.bump];
        assert(bump@ =~= seq![self.bump]);
        assert(label.deep_view() =~= label@);
        assert(initiator.deep_view() =~= initiator@);
        assert(bump.deep_view() =~= bump@);
        let seeds: Vec<Vec<u8>> = vec![label, initiator, bump];
        assert(seeds.deep_view() =~= custody_seeds(self.initiator, self.bump));
        seeds
    }
}

/// One call to the token program, with what the runtime needs to carry it out.
#[derive(Clone, Debug)]
pub struct Invocation {
    /// The call.
    pub call: TokenCall,
    /// The positions, in the operation's account list, of the account
    /// references that go with the call.
    pub accounts: Vec<usize>,
    /// The seeds with which the program signs the call as the custody
    /// address; none where the signatures on the operation suffice.
    pub signer_seeds: Option<CustodySeeds>,
}

/// An invocation as a mathematical value.
pub struct InvocationView {
    pub call: TokenCallView,
    pub accounts: Seq<usize>,
    pub signer_seeds: Option<CustodySeeds>,
}

impl View for Invocation {
    type V = InvocationView;

    open spec fn view(&self) -> InvocationView {
        InvocationView {
            call: self.call@,
            accounts: self.accounts@,
            signer_seeds: self.signer_seeds,
        }
    }
}

/// Where the deposit of a closed record goes.
#[derive(Clone, Copy, Debug)]
pub struct Settlement {
    /// The position of the record account.
    pub record: usize,
    /// The position of the account that receives the record's balance.
    pub recipient: usize,
}

/// What an accepted initialization asks for: the record to persist, then one
/// call that hands the locked-asset account over to the custody address.
#[derive(Clone, Debug)]
pub struct InitializePlan {
    /// The record of the new trade.
    pub state: EscrowState,
    /// The position of the record account.
    pub record: usize,
    /// The new contents of the record account: the stored form of `state`.
    pub record_data: Vec<u8>,
    /// The custody address of the trade.
    pub custody_address: Address,
    /// The call that makes the custody address the owner of the locked-asset
    /// account.
    pub transfer_ownership: Invocation,
}

/// An initialization plan as a mathematical value.
pub struct InitializePlanView {
    pub state: EscrowState,
    pub record: usize,
    pub record_data: Seq<u8>,
    pub custody_address: Address,
    pub transfer_ownership: InvocationView,
}

impl View for InitializePlan {
    type V = InitializePlanView;

    open spec fn view(&self) -> InitializePlanView {
        InitializePlanView {
            state: self.state,
            record: self.record,
            record_data: self.record_data@,
            custody_address: self.custody_address,
            transfer_ownership: self.transfer_ownership@,
        }
    }
}

/// What an accepted exchange asks for: three calls in this order, then the
/// closing of the record.
#[derive(Clone, Debug)]
pub struct ExchangePlan {
    /// Pays the initiator what the record asks for.
    pub pay_initiator: Invocation,
    /// Releases the whole locked balance to the counterparty.
    pub release_asset: Invocation,
    /// Closes the emptied custody-held account; its deposit goes to the
    /// initiator.
    pub close_custody: Invocation,
    /// Where the record's deposit goes once the calls are through.
    pub settlement: Settlement,
}

/// An exchange plan as a mathematical value.
pub struct ExchangePlanView {
    pub pay_initiator: InvocationView,
    pub release_asset: InvocationView,
    pub close_custody: InvocationView,
    pub settlement: Settlement,
}

impl View for ExchangePlan {
    type V = ExchangePlanView;

    open spec fn view(&self) -> ExchangePlanView {
        ExchangePlanView {
            pay_initiator: self.pay_initiator@,
            release_asset: self.release_asset@,
            close_custody: self.close_custody@,
            settlement: self.settlement,
        }
    }
}

/// What an accepted cancellation asks for: two calls in this order, then the
/// closing of the record.
#[derive(Clone, Debug)]
pub struct CancelPlan {
    /// Returns the whole locked balance to the initiator.
    pub return_asset: Invocation,
    /// Closes the emptied custody-held account; its deposit goes to the
    /// initiator.
    pub close_custody: Invocation,
    /// Where the record's deposit goes once the calls are through.
    pub settlement: Settlement,
}

/// A cancellation plan as a mathematical value.
pub struct CancelPlanView {
    pub return_asset: InvocationView,
    pub close_custody: InvocationView,
    pub settlement: Settlement,
}

impl View for CancelPlan {
    type V = CancelPlanView;

    open spec fn view(&self) -> CancelPlanView {
        CancelPlanView {
            return_asset: self.return_asset@,
            close_custody: self.close_custody@,
            settlement: self.settlement,
        }
    }
}

/// What an accepted operation asks for.
#[derive(Clone, Debug)]
pub enum EscrowPlan {
    Initialize(InitializePlan),
    Exchange(ExchangePlan),
    Cancel(CancelPlan),
}

/// A plan as a mathematical value.
pub enum EscrowPlanView {
    Initialize(InitializePlanView),
    Exchange(ExchangePlanView),
    Cancel(CancelPlanView),
}

impl View for EscrowPlan {
    type V = EscrowPlanView;

    open spec fn view(&self) -> EscrowPlanView {
        match self {
            EscrowPlan::Initialize(plan) => EscrowPlanView::Initialize(plan@),
            EscrowPlan::Exchange(plan) => EscrowPlanView::Exchange(plan@),
            EscrowPlan::Cancel(plan) => EscrowPlanView::Cancel(plan@),
        }
    }
}

/// New contents for the record account.
#[derive(Clone, Debug)]
pub struct RecordWrite {
    /// The position of the record account.
    pub record: usize,
    /// What the account is to hold.
    pub data: Vec<u8>,
}

/// What the runtime is to do for an accepted operation, in this order: write
/// the record, if a write is asked for; make the calls, first to last; close
/// the record, if a settlement is asked for. The first step that fails ends
/// the operation.
#[derive(Clone, Debug)]
pub struct Steps {
    pub write: Option<RecordWrite>,
    pub calls: Vec<Invocation>,
    pub settlement: Option<Settlement>,
}

/// Steps as a mathematical value.
pub struct StepsView {
    pub write: Option<(usize, Seq<u8>)>,
    pub calls: Seq<InvocationView>,
    pub settlement: Option<Settlement>,
}

impl View for Steps {
    type V = StepsView;

    open spec fn view(&self) -> StepsView {
        StepsView {
            write: match self.write {
                Some(write) => Some((write.record, write.data@)),
                None => None,
            },
            calls: self.calls@.map_values(|call: Invocation| call@),
            settlement: self.settlement,
        }
    }
}

/// The steps of a plan: an initialization writes the record and then hands
/// the locked-asset account over; an exchange pays the initiator, releases
/// the locked asset, closes the custody-held account and then the record; a
/// cancellation returns the locked asset, closes the custody-held account
/// and then the record.
pub open spec fn steps_of(plan: EscrowPlanView) -> StepsView {
    match plan {
        EscrowPlanView::Initialize(plan) => StepsView {
            write: Some((plan.record, plan.record_data)),
            calls: seq![plan.transfer_ownership],
            settlement: None,
        },
        EscrowPlanView::Exchange(plan) => StepsView {
            write: None,
            calls: seq![plan.pay_initiator, plan.release_asset, plan.close_custody],
            settlement: Some(plan.settlement),
        },
        EscrowPlanView::Cancel(plan) => StepsView {
            write: None,
            calls: seq![plan.return_asset, plan.close_custody],
            settlement: Some(plan.settlement),
        },
    }
}

impl InitializePlan {
    /// The write and the call of an initialization, in the order in which the
    /// runtime is to carry them out.
    pub fn into_steps(self) -> (steps: (RecordWrite, Vec<Invocation>))
        ensures
            steps.0.record == self@.record,
            steps.0.data@ == self@.record_data,
            steps.1@.len() == 1,
            steps.1@[0]@ == self@.transfer_ownership,
    {
        let write = RecordWrite { record: self.record, data: self.record_data };
        let mut calls: Vec<Invocation> = Vec::new();
        calls.push(self.transfer_ownership);
        (write, calls)
    }
}

impl ExchangePlan {
    /// The calls of an exchange, in the order in which the runtime is to make
    /// them, and the settlement that follows the last.
    pub fn into_steps(self) -> (steps: (Vec<Invocation>, Settlement))
        ensures
            steps.0@.len() == 3,
            steps.0@[0]@ == self@.pay_initiator,
            steps.0@[1]@ == self@.release_asset,
            steps.0@[2]@ == self@.close_custody,
            steps.1 == self@.settlement,
    {
        let mut calls: Vec<Invocation> = Vec::new();
        calls.push(self.pay_initiator);
        calls.push(self.release_asset);
        calls.push(self.close_custody);
        (calls, self.settlement)
    }
}

impl CancelPlan {
    /// The calls of a cancellation, in the order in which the runtime is to
    /// make them, and the settlement that follows the last.
    pub fn into_steps(self) -> (steps: (Vec<Invocation>, Settlement))
        ensures
            steps.0@.len() == 2,
            steps.0@[0]@ == self@.return_asset,
            steps.0@[1]@ == self@.close_custody,
            steps.1 == self@.settlement,
    {
        let mut calls: Vec<Invocation> = Vec::new();
        calls.push(self.return_asset);
        calls.push(self.close_custody);
        (calls, self.settlement)
    }
}

impl EscrowPlan {
    /// The steps of this plan, in the order in which the runtime is to carry
    /// them out.
    pub fn into_steps(self) -> (steps: Steps)
        ensures
            steps@ == steps_of(self@),
    {
        match self {
            EscrowPlan::Initialize(plan) => {
                let (write, calls) = plan.into_steps();
                let steps = Steps { write: Some(write), calls, settlement: None };
                assert(steps@.calls =~= steps_of(self@).calls);
                steps
            },
            EscrowPlan::Exchange(plan) => {
                let (calls, settlement) = plan.into_steps();
                let steps = Steps { write: None, calls, settlement: Some(settlement) };
                assert(steps@.calls =~= steps_of(self@).calls);
                steps
            },
            EscrowPlan::Cancel(plan) => {
                let (calls, settlement) = plan.into_steps();
                let steps = Steps { write: None, calls, settlement: Some(settlement) };
                assert(steps@.calls =~= steps_of(self@).calls);
                steps
            },
        }
    }
}

/// What is left of a record account after its trade has ended.
#[derive(Clone, Debug)]
pub struct ClosedRecord {
    /// The new balance of the account that receives the deposit.
    pub recipient_lamports: u64,
    /// The new balance of the record account: nothing.
    pub record_lamports: u64,
    /// The new contents of the record account: none.
    pub record_data: Vec<u8>,
}

} // verus!
