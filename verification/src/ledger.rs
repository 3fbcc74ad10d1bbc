//! The token program's books, as far as the escrow relies on them: which token
//! accounts are open, and what each holds. The model says what a transfer and
//! a closing do to the books; it is the ground on which the library states
//! where the balances stand once a plan has been carried out.

use vstd::prelude::*;
use crate::account::{
    AccountSnapshot, CANCEL_LOCKED_ASSET, CANCEL_RECLAIM, EXCHANGE_LOCKED_ASSET, EXCHANGE_PAYMENT, EXCHANGE_PAYOUT, EXCHANGE_RECEIVING,
    EXCHANGE_RECORD,
};
use crate::address::Address;
use crate::cancel::{process_cancel_plan, process_cancel_rejection};
use crate::encoding::{le_bytes, le_u64, lemma_le_bytes_then_le_u64};
use crate::exchange::{process_exchange_plan, process_exchange_rejection};
use crate::state::unpacked_state;
use crate::plan::{steps_of, EscrowPlanView, InvocationView};
use crate::token::{token_account_amount, TokenCallView};

verus! {

/// The balance of every open token account.
pub type Books = Map<Address, nat>;

/// Whether a call is a transfer: the tag 3, an amount, and at least a source,
/// a destination and an authority.
pub open spec fn is_transfer(call: TokenCallView) -> bool {
    call.data.len() == 9 && call.data[0] == 3 && call.accounts.len() >= 3
}

/// Whether a call closes an account: the tag 9 alone, and at least the
/// account, a destination and an owner.
pub open spec fn is_close(call: TokenCallView) -> bool {
    call.data.len() == 1 && call.data[0] == 9 && call.accounts.len() >= 3
}

/// The books after one call, if the token program carries it out. A transfer
/// needs both accounts open and the amount in the source; a closing needs the
/// account open and empty. Any other call leaves the books as they are.
pub open spec fn after_call(books: Books, call: TokenCallView) -> Option<Books> {
    if is_transfer(call) {
        let source = call.accounts[0].pubkey;
        let destination = call.accounts[1].pubkey;
        let amount = le_u64(call.data.subrange(1, 9)) as nat;
        if books.dom().contains(source) && books.dom().contains(destination) && books[source]
            >= amount {
            let debited = books.insert(source, (books[source] - amount) as nat);
            Some(debited.insert(destination, debited[destination] + amount))
        } else {
            None
        }
    } else if is_close(call) {
        let account = call.accounts[0].pubkey;
        if books.dom().contains(account) && books[account] == 0 {
            Some(books.remove(account))
        } else {
            None
        }
    } else {
        Some(books)
    }
}

/// The books after a run of calls, if the token program carries out every
/// one of them; the first call that it refuses ends the run with nothing.
pub open spec fn after_calls(books: Books, calls: Seq<TokenCallView>) -> Option<Books>
    decreases calls.len(),
{
    if calls.len() == 0 {
        Some(books)
    } else {
        match after_call(books, calls[0]) {
            Some(next) => after_calls(next, calls.skip(1)),
            None => None,
        }
    }
}

/// The calls of the steps of a plan, in the order of the steps.
pub open spec fn calls_of(plan: EscrowPlanView) -> Seq<TokenCallView> {
    steps_of(plan).calls.map_values(|invocation: InvocationView| invocation.call)
}

/// The calls that an exchange on these accounts hands to the token program,
/// in order: those of its plan where it is accepted, none where it is
/// rejected.
pub open spec fn exchange_calls(
    program_id: Address,
    accounts: Seq<AccountSnapshot>,
    expected_x_token_amount: u64,
) -> Seq<TokenCallView> {
    if process_exchange_rejection(program_id, accounts, expected_x_token_amount) is None {
        calls_of(EscrowPlanView::Exchange(process_exchange_plan(accounts)))
    } else {
        Seq::empty()
    }
}

/// The calls that a cancellation on these accounts hands to the token
/// program, in order: those of its plan where it is accepted, none where it
/// is rejected.
pub open spec fn cancel_calls(program_id: Address, accounts: Seq<AccountSnapshot>) -> Seq<
    TokenCallView,
> {
    if process_cancel_rejection(program_id, accounts) is None {
        calls_of(EscrowPlanView::Cancel(process_cancel_plan(accounts)))
    } else {
        Seq::empty()
    }
}

/// A rejected exchange moves nothing: it hands the token program no call, so
/// every balance stays as it was, and the record with it.
pub proof fn lemma_rejected_exchange_moves_nothing(
    program_id: Address,
    accounts: Seq<AccountSnapshot>,
    expected_x_token_amount: u64,
    books: Books,
)
    requires
        process_exchange_rejection(program_id, accounts, expected_x_token_amount) is Some,
    ensures
        exchange_calls(program_id, accounts, expected_x_token_amount).len() == 0,
        after_calls(books, exchange_calls(program_id, accounts, expected_x_token_amount)) == Some(
            books,
        ),
{
}

/// A rejected cancellation moves nothing: it hands the token program no
/// call, so every balance stays as it was, and the record with it.
pub proof fn lemma_rejected_cancel_moves_nothing(
    program_id: Address,
    accounts: Seq<AccountSnapshot>,
    books: Books,
)
    requires
        process_cancel_rejection(program_id, accounts) is Some,
    ensures
        cancel_calls(program_id, accounts).len() == 0,
        after_calls(books, cancel_calls(program_id, accounts)) == Some(books),
{
}

/// After an accepted exchange whose calls are carried out, the initiator's
/// payout account holds more by exactly the amount that the record asks for,
/// the counterparty's receiving account holds more by exactly the custody
/// balance, the counterparty's payment account holds less by the payment, the
/// custody-held account is gone, and no other account has changed.
///
/// The books are taken to agree with the custody-held account on its
/// balance, and the four token accounts to be four different accounts.
pub proof fn lemma_exchange_settles(
    program_id: Address,
    accounts: Seq<AccountSnapshot>,
    expected_x_token_amount: u64,
    books: Books,
)
    requires
        process_exchange_rejection(program_id, accounts, expected_x_token_amount) is None,
        books.dom().contains(accounts[EXCHANGE_PAYMENT as int].key),
        books.dom().contains(accounts[EXCHANGE_PAYOUT as int].key),
        books.dom().contains(accounts[EXCHANGE_RECEIVING as int].key),
        books.dom().contains(accounts[EXCHANGE_LOCKED_ASSET as int].key),
        books[accounts[EXCHANGE_LOCKED_ASSET as int].key] == expected_x_token_amount,
        books[accounts[EXCHANGE_PAYMENT as int].key] >= unpacked_state(
            accounts[EXCHANGE_RECORD as int].data@,
        ).expected_y_token_amount,
        accounts[EXCHANGE_PAYMENT as int].key != accounts[EXCHANGE_PAYOUT as int].key,
        accounts[EXCHANGE_PAYMENT as int].key != accounts[EXCHANGE_RECEIVING as int].key,
        accounts[EXCHANGE_PAYMENT as int].key != accounts[EXCHANGE_LOCKED_ASSET as int].key,
        accounts[EXCHANGE_PAYOUT as int].key != accounts[EXCHANGE_RECEIVING as int].key,
        accounts[EXCHANGE_PAYOUT as int].key != accounts[EXCHANGE_LOCKED_ASSET as int].key,
        accounts[EXCHANGE_RECEIVING as int].key != accounts[EXCHANGE_LOCKED_ASSET as int].key,
    ensures
        ({
            let payment = accounts[EXCHANGE_PAYMENT as int].key;
            let payout = accounts[EXCHANGE_PAYOUT as int].key;
            let receiving = accounts[EXCHANGE_RECEIVING as int].key;
            let locked_asset = accounts[EXCHANGE_LOCKED_ASSET as int].key;
            let price = unpacked_state(accounts[EXCHANGE_RECORD as int].data@).expected_y_token_amount;
            &&& after_calls(
                books,
                exchange_calls(program_id, accounts, expected_x_token_amount),
            ) matches Some(after)
            &&& after.dom() == books.dom().remove(locked_asset)
            &&& after[payout] == books[payout] + price
            &&& after[receiving] == books[receiving] + expected_x_token_amount
            &&& after[payment] == books[payment] - price
            &&& forall|other: Address|
                #![trigger after[other]]
                books.dom().contains(other) && other != payment && other != payout && other
                    != receiving && other != locked_asset ==> after[other] == books[other]
        }),
{
    let plan = process_exchange_plan(accounts);
    let state = unpacked_state(accounts[EXCHANGE_RECORD as int].data@);
    let payment = accounts[EXCHANGE_PAYMENT as int].key;
    let payout = accounts[EXCHANGE_PAYOUT as int].key;
    let receiving = accounts[EXCHANGE_RECEIVING as int].key;
    let locked_asset = accounts[EXCHANGE_LOCKED_ASSET as int].key;
    let calls = exchange_calls(program_id, accounts, expected_x_token_amount);
    assert(calls =~= seq![
        plan.pay_initiator.call,
        plan.release_asset.call,
        plan.close_custody.call,
    ]);
    assert(token_account_amount(accounts[EXCHANGE_LOCKED_ASSET as int].data@)->Ok_0
        == expected_x_token_amount);
    lemma_transfer_amount(plan.pay_initiator.call, state.expected_y_token_amount);
    lemma_transfer_amount(plan.release_asset.call, expected_x_token_amount);
    let paid = after_call(books, calls[0])->Some_0;
    assert(after_call(books, calls[0]) is Some);
    let released = after_call(paid, calls[1])->Some_0;
    assert(after_call(paid, calls[1]) is Some);
    let closed = after_call(released, calls[2])->Some_0;
    assert(after_call(released, calls[2]) is Some);
    assert(calls.skip(1)[0] == calls[1]);
    assert(calls.skip(1).skip(1)[0] == calls[2]);
    assert(calls.skip(1).skip(1).skip(1).len() == 0);
    reveal_with_fuel(after_calls, 4);
    assert(after_calls(books, calls) == Some(closed));
    assert(closed.dom() =~= books.dom().remove(locked_asset));
}

/// After an accepted cancellation whose calls are carried out, the
/// initiator's reclaim account holds more by exactly the custody balance, the
/// custody-held account is gone, and no other account has changed: no balance
/// of the payment asset moves.
///
/// The books are taken to agree with the custody-held account on its
/// balance, and the reclaim account to be another account than the
/// custody-held one.
pub proof fn lemma_cancel_settles(
    program_id: Address,
    accounts: Seq<AccountSnapshot>,
    books: Books,
)
    requires
        process_cancel_rejection(program_id, accounts) is None,
        books.dom().contains(accounts[CANCEL_RECLAIM as int].key),
        books.dom().contains(accounts[CANCEL_LOCKED_ASSET as int].key),
        books[accounts[CANCEL_LOCKED_ASSET as int].key] == token_account_amount(
            accounts[CANCEL_LOCKED_ASSET as int].data@,
        )->Ok_0,
        accounts[CANCEL_RECLAIM as int].key != accounts[CANCEL_LOCKED_ASSET as int].key,
    ensures
        ({
            let reclaim = accounts[CANCEL_RECLAIM as int].key;
            let locked_asset = accounts[CANCEL_LOCKED_ASSET as int].key;
            &&& after_calls(books, cancel_calls(program_id, accounts)) matches Some(after)
            &&& after.dom() == books.dom().remove(locked_asset)
            &&& after[reclaim] == books[reclaim] + books[locked_asset]
            &&& forall|other: Address|
                #![trigger after[other]]
                books.dom().contains(other) && other != reclaim && other != locked_asset
                    ==> after[other] == books[other]
        }),
{
    let plan = process_cancel_plan(accounts);
    let reclaim = accounts[CANCEL_RECLAIM as int].key;
    let locked_asset = accounts[CANCEL_LOCKED_ASSET as int].key;
    let calls = cancel_calls(program_id, accounts);
    assert(calls =~= seq![plan.return_asset.call, plan.close_custody.call]);
    lemma_transfer_amount(
        plan.return_asset.call,
        token_account_amount(accounts[CANCEL_LOCKED_ASSET as int].data@)->Ok_0,
    );
    let returned = after_call(books, calls[0])->Some_0;
    assert(after_call(books, calls[0]) is Some);
    let closed = after_call(returned, calls[1])->Some_0;
    assert(after_call(returned, calls[1]) is Some);
    assert(calls.skip(1)[0] == calls[1]);
    assert(calls.skip(1).skip(1).len() == 0);
    reveal_with_fuel(after_calls, 3);
    assert(after_calls(books, calls) == Some(closed));
    assert(closed.dom() =~= books.dom().remove(locked_asset));
}

/// A transfer call that the library builds carries the amount it was built
/// for.
proof fn lemma_transfer_amount(call: TokenCallView, amount: u64)
    requires
        call.data == seq![3u8] + le_bytes(amount),
    ensures
        call.data.len() == 9,
        call.data[0] == 3,
        le_u64(call.data.subrange(1, 9)) == amount,
{
    lemma_le_bytes_then_le_u64(amount);
    assert(call.data.subrange(1, 9) =~= le_bytes(amount));
}

} // verus!
