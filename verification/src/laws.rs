//! What holds of the operations taken together.

use vstd::prelude::*;
use crate::accounts::{ConfirmSettlement, Issue, Pay};
use crate::address::{canonical_address, lemma_canonical_derives};
use crate::error::ErrorCode;
use crate::invoice::{text_bytes, total, total_moved, transfer_amount, InvoiceView};
use crate::key::Key;
use crate::program::{
    access_guard, confirm_spec, derives, issue_guard, issue_spec, pay_spec, Transfer,
};

verus! {

/// A run of payment attempts on one invoice: each attempt is a call of `pay`,
/// and each but the first starts from the record that the one before left.
pub open spec fn pay_run(
    pres: Seq<Pay>,
    posts: Seq<Pay>,
    amounts: Seq<u64>,
    transfers: Seq<Transfer>,
    results: Seq<Result<u64, ErrorCode>>,
) -> bool {
    &&& posts.len() == pres.len()
    &&& amounts.len() == pres.len()
    &&& transfers.len() == pres.len()
    &&& results.len() == pres.len()
    &&& forall|i: int|
        #![trigger pres[i]]
        0 <= i < pres.len() ==> pay_spec(pres[i], posts[i], amounts[i], transfers[i], results[i])
    &&& forall|i: int|
        #![trigger pres[i]]
        0 < i < pres.len() ==> pres[i].invoice.record == posts[i - 1].invoice.record
}

/// What a run of payment attempts has moved in all: the sum of what the
/// accepted ones returned.
pub open spec fn moved_in(results: Seq<Result<u64, ErrorCode>>) -> int
    decreases results.len(),
{
    if results.len() == 0 {
        0
    } else {
        (match results[0] {
            Ok(moved) => moved as int,
            Err(_) => 0,
        }) + moved_in(results.drop_first())
    }
}

/// The refusal of an issue as a duplicate.
pub open spec fn duplicate() -> Result<Key, ErrorCode> {
    Err(ErrorCode::AddressAlreadyInUse)
}

/// An invoice is issued once. After an issue has been accepted, every further
/// issue on the same storage is refused and leaves the record as the first
/// issue made it; one by the same parties for the same project, whatever its
/// bump, balance and memo, is refused as a duplicate, and so is any that would
/// have been accepted on empty storage.
pub proof fn lemma_issue_once(
    pre: Issue,
    mid: Issue,
    post: Issue,
    bump: u8,
    balance: u64,
    memo: String,
    project_id: String,
    first: Result<Key, ErrorCode>,
    next_bump: u8,
    next_balance: u64,
    next_memo: String,
    next_project_id: String,
    second: Result<Key, ErrorCode>,
)
    requires
        issue_spec(pre, mid, bump, balance, memo, project_id, first),
        first is Ok,
        issue_spec(mid, post, next_bump, next_balance, next_memo, next_project_id, second),
    ensures
        second is Err,
        post == mid,
        post.invoice.record matches Some(record) && record.balance == balance && record.memo
            == memo,
        issue_guard(pre, next_bump, next_memo@, next_project_id@) is None ==> second
            == duplicate(),
        next_project_id@ == project_id@ ==> second == duplicate(),
{
}

/// An accepted issue creates an open, well-formed record at the canonical
/// address of its parties and project, on which both parties may then act.
pub proof fn lemma_issue_opens(
    pre: Issue,
    post: Issue,
    bump: u8,
    balance: u64,
    memo: String,
    project_id: String,
    r: Result<Key, ErrorCode>,
)
    requires
        issue_spec(pre, post, bump, balance, memo, project_id, r),
        r is Ok,
    ensures
        pre.invoice.record is None,
        pre.creditor.is_signer,
        r == Ok::<Key, ErrorCode>(post.invoice.address),
        canonical_address(
            pre.creditor.key@,
            pre.debtor.key@,
            text_bytes(project_id@),
            pre.program_id@,
        ) == Some((post.invoice.address@, bump)),
        post.invoice.record matches Some(record) && {
            &&& !record@.is_settled()
            &&& record@.wf()
            &&& record@.balance == balance
            &&& derives(post.program_id, post.invoice.address, record)
        },
{
    lemma_canonical_derives(
        pre.creditor.key@,
        pre.debtor.key@,
        text_bytes(project_id@),
        pre.program_id@,
    );
}

/// One address per invoice. Two issues accepted under one program for the same
/// creditor, debtor and project were made at the same address with the same
/// bump, so that the second met the record of the first.
pub proof fn lemma_one_address_per_invoice(
    pre: Issue,
    post: Issue,
    bump: u8,
    balance: u64,
    memo: String,
    project_id: String,
    r: Result<Key, ErrorCode>,
    other_pre: Issue,
    other_post: Issue,
    other_bump: u8,
    other_balance: u64,
    other_memo: String,
    other_project_id: String,
    other_r: Result<Key, ErrorCode>,
)
    requires
        issue_spec(pre, post, bump, balance, memo, project_id, r),
        r is Ok,
        issue_spec(
            other_pre,
            other_post,
            other_bump,
            other_balance,
            other_memo,
            other_project_id,
            other_r,
        ),
        other_r is Ok,
        other_pre.program_id@ == pre.program_id@,
        other_pre.creditor.key@ == pre.creditor.key@,
        other_pre.debtor.key@ == pre.debtor.key@,
        other_project_id@ == project_id@,
    ensures
        other_pre.invoice.address@ == pre.invoice.address@,
        other_bump == bump,
{
}

/// A payment that goes through lowers the balance by exactly what it moved,
/// which is the amount asked for but no more than was owed, and touches
/// nothing else on the record.
pub proof fn lemma_pay_step(
    pre: Pay,
    post: Pay,
    amount: u64,
    transfer: Transfer,
    r: Result<u64, ErrorCode>,
)
    requires
        pay_spec(pre, post, amount, transfer, r),
        r is Ok,
    ensures
        transfer == Transfer::Completed,
        pre.invoice.record is Some,
        !pre.invoice.record->0@.is_settled(),
        post.invoice.record is Some,
        post.invoice.record->0@ == pre.invoice.record->0@.paid(amount),
        r->Ok_0 == transfer_amount(amount, pre.invoice.record->0.balance),
        r->Ok_0 <= amount,
        r->Ok_0 <= pre.debtor.lamports,
        post.invoice.record->0.balance + r->Ok_0 == pre.invoice.record->0.balance,
{
}

/// Payments never remove a record, never raise what is owed, never touch the
/// settlement stamp, and keep a well-formed record well-formed, whether they
/// go through or not. What is owed falls by exactly what the call returned.
pub proof fn lemma_pay_preserves(
    pre: Pay,
    post: Pay,
    amount: u64,
    transfer: Transfer,
    r: Result<u64, ErrorCode>,
)
    requires
        pay_spec(pre, post, amount, transfer, r),
    ensures
        pre.invoice.record is Some <==> post.invoice.record is Some,
        r is Err ==> post == pre,
        pre.invoice.record matches Some(before) ==> {
            &&& post.invoice.record->0.balance <= before.balance
            &&& post.invoice.record->0.balance + moved_in(seq![r]) == before.balance
            &&& post.invoice.record->0.confirmed_at == before.confirmed_at
            &&& before@.wf() ==> post.invoice.record->0@.wf()
        },
{
    assert(seq![r].drop_first().len() == 0);
    assert(moved_in(seq![r]) == (match r {
        Ok(moved) => moved as int,
        Err(_) => 0,
    }) + moved_in(seq![r].drop_first()));
}

/// A settled invoice takes no payment: every payment on a settled record is
/// refused and changes nothing, and one by a debtor who may act on the invoice
/// is refused as settled.
pub proof fn lemma_pay_after_settlement(
    pre: Pay,
    post: Pay,
    amount: u64,
    transfer: Transfer,
    r: Result<u64, ErrorCode>,
)
    requires
        pay_spec(pre, post, amount, transfer, r),
        pre.invoice.record matches Some(record) && record@.is_settled(),
    ensures
        r is Err,
        post == pre,
        access_guard(pre.program_id, pre.invoice, pre.debtor, pre.creditor, pre.debtor)
            is None ==> r == Err::<u64, ErrorCode>(ErrorCode::AlreadySettled),
{
}

/// Installments add up. After payments of `amounts` have gone through one
/// after the other, what is owed is what was owed less everything asked for,
/// or nothing where more was asked for than owed; what was moved and what is
/// still owed make up what was owed, so that no more than that has moved.
pub proof fn lemma_installments(record: InvoiceView, amounts: Seq<u64>)
    ensures
        record.paid_all(amounts) == (InvoiceView {
            balance: record.paid_all(amounts).balance,
            ..record
        }),
        record.paid_all(amounts).balance + total_moved(record.balance, amounts) == record.balance,
        0 <= total_moved(record.balance, amounts) <= record.balance,
        total_moved(record.balance, amounts) <= total(amounts),
        record.paid_all(amounts).balance == if total(amounts) >= record.balance {
            0
        } else {
            record.balance - total(amounts)
        },
        record.wf() ==> record.paid_all(amounts).wf(),
    decreases amounts.len(),
{
    if amounts.len() != 0 {
        lemma_installments(record.paid(amounts[0]), amounts.drop_first());
    }
}

/// A run of more than one attempt is its first attempt and then a run of the
/// rest, which starts from the record that the first attempt left.
proof fn lemma_pay_run_tail(
    pres: Seq<Pay>,
    posts: Seq<Pay>,
    amounts: Seq<u64>,
    transfers: Seq<Transfer>,
    results: Seq<Result<u64, ErrorCode>>,
)
    requires
        pay_run(pres, posts, amounts, transfers, results),
        pres.len() > 1,
    ensures
        pay_spec(pres[0], posts[0], amounts[0], transfers[0], results[0]),
        pay_run(
            pres.drop_first(),
            posts.drop_first(),
            amounts.drop_first(),
            transfers.drop_first(),
            results.drop_first(),
        ),
        pres.drop_first()[0].invoice.record == posts[0].invoice.record,
        posts.drop_first().last() == posts.last(),
{
    let pres1 = pres.drop_first();
    let posts1 = posts.drop_first();
    assert(pay_spec(pres[0], posts[0], amounts[0], transfers[0], results[0]));
    assert forall|i: int| #![trigger pres1[i]] 0 <= i < pres1.len() implies pay_spec(
        pres1[i],
        posts1[i],
        amounts.drop_first()[i],
        transfers.drop_first()[i],
        results.drop_first()[i],
    ) by {
        assert(pres1[i] == pres[i + 1]);
    }
    assert forall|i: int|
        #![trigger pres1[i]]
        0 < i < pres1.len() implies pres1[i].invoice.record == posts1[i - 1].invoice.record by {
        assert(pres1[i] == pres[i + 1]);
    }
    assert(pres1[0] == pres[1]);
}

/// Nothing is lost and nothing is made in a run of payment attempts, accepted
/// or refused. On an invoice that exists at the start, what the attempts moved
/// and what is still owed at the end make up what was owed at the start, so
/// that no more than that has moved; the settlement stamp is as it was, and a
/// well-formed record is still well-formed.
pub proof fn lemma_pay_run_conserves(
    pres: Seq<Pay>,
    posts: Seq<Pay>,
    amounts: Seq<u64>,
    transfers: Seq<Transfer>,
    results: Seq<Result<u64, ErrorCode>>,
)
    requires
        pay_run(pres, posts, amounts, transfers, results),
        pres.len() > 0,
        pres[0].invoice.record is Some,
    ensures
        posts.last().invoice.record is Some,
        posts.last().invoice.record->0.balance + moved_in(results)
            == pres[0].invoice.record->0.balance,
        0 <= moved_in(results) <= pres[0].invoice.record->0.balance,
        posts.last().invoice.record->0.confirmed_at == pres[0].invoice.record->0.confirmed_at,
        pres[0].invoice.record->0@.wf() ==> posts.last().invoice.record->0@.wf(),
    decreases pres.len(),
{
    assert(pay_spec(pres[0], posts[0], amounts[0], transfers[0], results[0]));
    lemma_pay_preserves(pres[0], posts[0], amounts[0], transfers[0], results[0]);
    lemma_moved_in_first(results);
    if pres.len() == 1 {
        assert(results.drop_first().len() == 0);
    } else {
        lemma_pay_run_tail(pres, posts, amounts, transfers, results);
        lemma_pay_run_conserves(
            pres.drop_first(),
            posts.drop_first(),
            amounts.drop_first(),
            transfers.drop_first(),
            results.drop_first(),
        );
    }
}

/// What a run moved is what its first attempt moved and what the rest moved.
proof fn lemma_moved_in_first(results: Seq<Result<u64, ErrorCode>>)
    requires
        results.len() > 0,
    ensures
        moved_in(results) == moved_in(seq![results[0]]) + moved_in(results.drop_first()),
{
    let first = seq![results[0]];
    assert(first.drop_first().len() == 0);
    assert(moved_in(first) == (match first[0] {
        Ok(moved) => moved as int,
        Err(_) => 0,
    }) + moved_in(first.drop_first()));
}

/// Installments add up over calls of `pay`. Where every payment of a run goes
/// through, the record at the end is the record at the start with all the
/// amounts paid, and what the calls returned sums to what those payments move.
pub proof fn lemma_pay_run_adds_up(
    pres: Seq<Pay>,
    posts: Seq<Pay>,
    amounts: Seq<u64>,
    transfers: Seq<Transfer>,
    results: Seq<Result<u64, ErrorCode>>,
)
    requires
        pay_run(pres, posts, amounts, transfers, results),
        pres.len() > 0,
        forall|i: int| 0 <= i < results.len() ==> results[i] is Ok,
    ensures
        pres[0].invoice.record is Some,
        posts.last().invoice.record is Some,
        posts.last().invoice.record->0@ == pres[0].invoice.record->0@.paid_all(amounts),
        moved_in(results) == total_moved(pres[0].invoice.record->0.balance, amounts),
    decreases pres.len(),
{
    let first = pres[0].invoice.record->0@;
    assert(pay_spec(pres[0], posts[0], amounts[0], transfers[0], results[0]));
    assert(results[0] is Ok);
    lemma_pay_step(pres[0], posts[0], amounts[0], transfers[0], results[0]);
    lemma_moved_in_first(results);
    lemma_pay_preserves(pres[0], posts[0], amounts[0], transfers[0], results[0]);
    let moved = transfer_amount(amounts[0], first.balance);
    assert(total_moved(first.balance, amounts) == moved + total_moved(
        (first.balance - moved) as u64,
        amounts.drop_first(),
    ));
    if pres.len() == 1 {
        assert(amounts.drop_first().len() == 0);
        assert(results.drop_first().len() == 0);
        assert(first.paid(amounts[0]).paid_all(amounts.drop_first()) == first.paid(amounts[0]));
    } else {
        lemma_pay_run_tail(pres, posts, amounts, transfers, results);
        let results1 = results.drop_first();
        assert forall|i: int| 0 <= i < results1.len() implies results1[i] is Ok by {
            assert(results1[i] == results[i + 1]);
        }
        lemma_pay_run_adds_up(
            pres.drop_first(),
            posts.drop_first(),
            amounts.drop_first(),
            transfers.drop_first(),
            results1,
        );
    }
}

/// A payment is refused for want of funds, and changes nothing, whenever the
/// debtor may act on a well-formed invoice but holds less than the payment
/// would move.
pub proof fn lemma_pay_needs_funds(
    pre: Pay,
    post: Pay,
    amount: u64,
    transfer: Transfer,
    r: Result<u64, ErrorCode>,
)
    requires
        pay_spec(pre, post, amount, transfer, r),
        access_guard(pre.program_id, pre.invoice, pre.debtor, pre.creditor, pre.debtor) is None,
        pre.invoice.record->0@.wf(),
        pre.debtor.lamports < transfer_amount(amount, pre.invoice.record->0.balance),
    ensures
        r == Err::<u64, ErrorCode>(ErrorCode::NotEnoughSOL),
        post == pre,
{
}

/// Only the debtor on the record pays: a payment is accepted only from a
/// signer whose identity is the record's debtor, towards the record's
/// creditor, on the record's own address.
pub proof fn lemma_only_debtor_pays(
    pre: Pay,
    post: Pay,
    amount: u64,
    transfer: Transfer,
    r: Result<u64, ErrorCode>,
)
    requires
        pay_spec(pre, post, amount, transfer, r),
        r is Ok,
    ensures
        pre.invoice.record matches Some(record) && {
            &&& pre.debtor.is_signer
            &&& pre.debtor.key@ == record.debtor@
            &&& pre.creditor.key@ == record.creditor@
            &&& derives(pre.program_id, pre.invoice.address, record)
        },
{
}

/// Only the creditor on the record confirms: a confirmation is accepted only
/// from a signer whose identity is the record's creditor, on the record's own
/// address.
pub proof fn lemma_only_creditor_confirms(
    pre: ConfirmSettlement,
    post: ConfirmSettlement,
    r: Result<(), ErrorCode>,
)
    requires
        confirm_spec(pre, post, r),
        r is Ok,
    ensures
        pre.invoice.record matches Some(record) && {
            &&& pre.creditor.is_signer
            &&& pre.creditor.key@ == record.creditor@
            &&& pre.debtor.key@ == record.debtor@
            &&& derives(pre.program_id, pre.invoice.address, record)
        },
{
}

/// A confirmation never removes a record, never changes what is owed, and
/// keeps a well-formed record well-formed, whether it is accepted or not.
pub proof fn lemma_confirm_preserves(
    pre: ConfirmSettlement,
    post: ConfirmSettlement,
    r: Result<(), ErrorCode>,
)
    requires
        confirm_spec(pre, post, r),
    ensures
        pre.invoice.record is Some <==> post.invoice.record is Some,
        r is Err ==> post == pre,
        pre.invoice.record matches Some(before) ==> {
            &&& post.invoice.record->0.balance == before.balance
            &&& before@.wf() ==> post.invoice.record->0@.wf()
            &&& before@.is_settled() ==> post.invoice.record->0@ == before@
        },
{
}

/// Settlement cannot be confirmed early: while something is owed on a
/// well-formed record, every confirmation is refused and changes nothing, and
/// one by a creditor who may act on the invoice is refused as premature.
pub proof fn lemma_confirm_needs_full_payment(
    pre: ConfirmSettlement,
    post: ConfirmSettlement,
    r: Result<(), ErrorCode>,
)
    requires
        confirm_spec(pre, post, r),
        pre.invoice.record matches Some(record) && record.balance > 0 && record@.wf(),
    ensures
        r is Err,
        post == pre,
        access_guard(pre.program_id, pre.invoice, pre.creditor, pre.creditor, pre.debtor)
            is None ==> r == Err::<(), ErrorCode>(ErrorCode::UnsettledConfirmAttempt),
{
}

/// An accepted confirmation settles. It stamps a fully paid, unsettled record
/// with the time of confirmation, which is not zero, and changes nothing else;
/// the record is settled from then on and stays well-formed.
pub proof fn lemma_confirm_settles(
    pre: ConfirmSettlement,
    post: ConfirmSettlement,
    r: Result<(), ErrorCode>,
)
    requires
        confirm_spec(pre, post, r),
        r is Ok,
    ensures
        pre.invoice.record matches Some(before) && {
            &&& !before@.is_settled()
            &&& before.balance == 0
            &&& post.invoice.record is Some
            &&& post.invoice.record->0@ == before@.confirmed(pre.clock.unix_timestamp)
            &&& before@.wf() ==> post.invoice.record->0@.wf()
            &&& post.invoice.record->0@.is_settled()
            &&& post.invoice.record->0.confirmed_at == pre.clock.unix_timestamp
        },
{
}

/// Settlement is confirmed once. On a settled record every confirmation is
/// refused and changes nothing, and one by a creditor who may act on the
/// invoice is refused as repeated.
pub proof fn lemma_confirm_once(
    pre: ConfirmSettlement,
    post: ConfirmSettlement,
    r: Result<(), ErrorCode>,
)
    requires
        confirm_spec(pre, post, r),
        pre.invoice.record matches Some(record) && record@.is_settled(),
    ensures
        r is Err,
        post == pre,
        access_guard(pre.program_id, pre.invoice, pre.creditor, pre.creditor, pre.debtor)
            is None ==> r == Err::<(), ErrorCode>(ErrorCode::AlreadySettled),
{
}

/// Settlement outlasts every payment attempt. On a settled record, every
/// attempt of a run is refused, leaves the record as it was, and moves
/// nothing.
pub proof fn lemma_pay_run_after_settlement(
    pres: Seq<Pay>,
    posts: Seq<Pay>,
    amounts: Seq<u64>,
    transfers: Seq<Transfer>,
    results: Seq<Result<u64, ErrorCode>>,
)
    requires
        pay_run(pres, posts, amounts, transfers, results),
        pres.len() > 0,
        pres[0].invoice.record matches Some(record) && record@.is_settled(),
    ensures
        forall|i: int|
            #![trigger posts[i]]
            0 <= i < posts.len() ==> results[i] is Err && posts[i].invoice.record
                == pres[0].invoice.record,
        moved_in(results) == 0,
    decreases pres.len(),
{
    assert(pay_spec(pres[0], posts[0], amounts[0], transfers[0], results[0]));
    lemma_pay_after_settlement(pres[0], posts[0], amounts[0], transfers[0], results[0]);
    lemma_moved_in_first(results);
    lemma_pay_preserves(pres[0], posts[0], amounts[0], transfers[0], results[0]);
    if pres.len() == 1 {
        assert(results.drop_first().len() == 0);
    } else {
        lemma_pay_run_tail(pres, posts, amounts, transfers, results);
        let posts1 = posts.drop_first();
        let results1 = results.drop_first();
        lemma_pay_run_after_settlement(
            pres.drop_first(),
            posts1,
            amounts.drop_first(),
            transfers.drop_first(),
            results1,
        );
        assert forall|i: int|
            #![trigger posts[i]]
            0 <= i < posts.len() implies results[i] is Err && posts[i].invoice.record
            == pres[0].invoice.record by {
            if i > 0 {
                assert(posts[i] == posts1[i - 1]);
                assert(results[i] == results1[i - 1]);
            }
        }
    }
}

/// Settlement is confirmed once, whatever is tried in between. After a
/// confirmation has been accepted, and after any run of payment attempts on
/// the record it left, the record is still as the confirmation left it, and a
/// further confirmation is refused and changes nothing; one by a creditor who
/// may act on the invoice is refused as repeated.
pub proof fn lemma_confirm_once_despite_payments(
    pre: ConfirmSettlement,
    post: ConfirmSettlement,
    first: Result<(), ErrorCode>,
    pres: Seq<Pay>,
    posts: Seq<Pay>,
    amounts: Seq<u64>,
    transfers: Seq<Transfer>,
    results: Seq<Result<u64, ErrorCode>>,
    again_pre: ConfirmSettlement,
    again_post: ConfirmSettlement,
    second: Result<(), ErrorCode>,
)
    requires
        confirm_spec(pre, post, first),
        first is Ok,
        pay_run(pres, posts, amounts, transfers, results),
        pres.len() > 0 ==> pres[0].invoice.record == post.invoice.record,
        again_pre.invoice.record == (if pres.len() > 0 {
            posts.last().invoice.record
        } else {
            post.invoice.record
        }),
        confirm_spec(again_pre, again_post, second),
    ensures
        second is Err,
        again_post == again_pre,
        again_post.invoice.record == post.invoice.record,
        again_post.invoice.record is Some,
        again_post.invoice.record->0@.is_settled(),
        access_guard(
            again_pre.program_id,
            again_pre.invoice,
            again_pre.creditor,
            again_pre.creditor,
            again_pre.debtor,
        ) is None ==> second == Err::<(), ErrorCode>(ErrorCode::AlreadySettled),
{
    lemma_confirm_settles(pre, post, first);
    if pres.len() > 0 {
        lemma_pay_run_after_settlement(pres, posts, amounts, transfers, results);
        assert(posts[posts.len() - 1].invoice.record == pres[0].invoice.record);
    }
    lemma_confirm_once(again_pre, again_post, second);
}

} // verus!
