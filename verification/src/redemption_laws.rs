//! Exactly-once redemption, stated over a whole run of calls: a user who
//! holds some vouchers and redeems each of them at least once, in any
//! order and as often as they like, is credited each voucher's points
//! once.

use crate::charging_session::{
    redeem_voucher_spec, voucher_buyer, voucher_points, ErrorCode, RedeemVoucher, UserAccount,
    VoucherAccount, VOUCHER_DATA_LEN,
};
use crate::identity::{marketplace_program, Identity};
use crate::laws::{slot_of, RedemptionBook};
use vstd::prelude::*;

verus! {

/// One call of `redeem_voucher` by the owner of a ledger: the number of
/// the voucher that it is made against, the time, and the bump.
pub struct RedeemCall {
    pub which: nat,
    pub now: i64,
    pub bump: u8,
}

/// Whether a voucher is one that a user can redeem: issued by the
/// marketplace, long enough, and made out to the user.
pub open spec fn redeemable_by(voucher: VoucherAccount, user: Identity) -> bool {
    &&& voucher.owner == marketplace_program()
    &&& voucher.data@.len() >= VOUCHER_DATA_LEN
    &&& voucher_buyer(voucher.data@) == user@
}

/// Whether every voucher is one that the user can redeem.
pub open spec fn all_redeemable(vouchers: Seq<VoucherAccount>, user: Identity) -> bool {
    forall|i: int| 0 <= i < vouchers.len() ==> redeemable_by(#[trigger] vouchers[i], user)
}

/// Whether the vouchers are different vouchers.
pub open spec fn all_different(vouchers: Seq<VoucherAccount>) -> bool {
    forall|i: int, j: int|
        0 <= i < j < vouchers.len() ==> (#[trigger] vouchers[i]).key != (#[trigger] vouchers[j]).key
}

/// Whether none of the vouchers has a redemption record in the book.
pub open spec fn none_redeemed(vouchers: Seq<VoucherAccount>, book: RedemptionBook) -> bool {
    forall|i: int|
        0 <= i < vouchers.len() ==> !book.dom().contains((#[trigger] vouchers[i]).key)
}

/// Whether every call is made against one of the vouchers.
pub open spec fn calls_in_range(vouchers: Seq<VoucherAccount>, calls: Seq<RedeemCall>) -> bool {
    forall|c: int| 0 <= c < calls.len() ==> (#[trigger] calls[c]).which < vouchers.len()
}

/// Whether some call is made against the voucher with the given number.
pub open spec fn called(calls: Seq<RedeemCall>, which: int) -> bool {
    exists|c: int| 0 <= c < calls.len() && (#[trigger] calls[c]).which == which
}

/// The points of all the vouchers together.
pub open spec fn points_of(vouchers: Seq<VoucherAccount>) -> int
    decreases vouchers.len(),
{
    if vouchers.len() == 0 {
        0
    } else {
        points_of(vouchers.drop_last()) + voucher_points(vouchers.last().data@)
    }
}

/// The points of those vouchers that have a redemption record in the
/// book.
pub open spec fn points_redeemed(vouchers: Seq<VoucherAccount>, book: RedemptionBook) -> int
    decreases vouchers.len(),
{
    if vouchers.len() == 0 {
        0
    } else {
        points_redeemed(vouchers.drop_last(), book) + (if book.dom().contains(
            vouchers.last().key,
        ) {
            voucher_points(vouchers.last().data@) as int
        } else {
            0
        })
    }
}

/// How many of the vouchers have a redemption record in the book.
pub open spec fn count_redeemed(vouchers: Seq<VoucherAccount>, book: RedemptionBook) -> nat
    decreases vouchers.len(),
{
    if vouchers.len() == 0 {
        0
    } else {
        count_redeemed(vouchers.drop_last(), book) + (if book.dom().contains(
            vouchers.last().key,
        ) {
            1nat
        } else {
            0nat
        })
    }
}

/// One call of `redeem_voucher` by the owner of the ledger against a
/// voucher: the result, the ledger and the book as the call leaves them.
pub open spec fn redeem_step(
    account: UserAccount,
    book: RedemptionBook,
    voucher: VoucherAccount,
    now: i64,
    bump: u8,
) -> (Result<(), ErrorCode>, UserAccount, RedemptionBook) {
    let (res, after) = redeem_voucher_spec(
        RedeemVoucher {
            user_account: account,
            redemption_record: slot_of(book, voucher.key),
            voucher,
            authority: account.authority,
        },
        now,
        bump,
    );
    (
        res,
        after.user_account,
        match after.redemption_record {
            Some(record) => book.insert(voucher.key, record),
            None => book,
        },
    )
}

/// A run of calls, taken in order: how many succeeded, and the ledger
/// and the book as the run leaves them.
pub open spec fn redeem_all(
    account: UserAccount,
    book: RedemptionBook,
    vouchers: Seq<VoucherAccount>,
    calls: Seq<RedeemCall>,
) -> (nat, UserAccount, RedemptionBook)
    decreases calls.len(),
{
    if calls.len() == 0 {
        (0, account, book)
    } else {
        let (successes, ledger, records) = redeem_all(account, book, vouchers, calls.drop_last());
        let call = calls.last();
        let (res, ledger, records) = redeem_step(
            ledger,
            records,
            vouchers[call.which as int],
            call.now,
            call.bump,
        );
        (
            successes + (if res is Ok {
                1nat
            } else {
                0nat
            }),
            ledger,
            records,
        )
    }
}

/// The result of the last call of a run.
pub open spec fn last_result(
    account: UserAccount,
    book: RedemptionBook,
    vouchers: Seq<VoucherAccount>,
    calls: Seq<RedeemCall>,
) -> Result<(), ErrorCode>
    recommends
        calls.len() > 0,
{
    let (successes, ledger, records) = redeem_all(account, book, vouchers, calls.drop_last());
    let call = calls.last();
    redeem_step(ledger, records, vouchers[call.which as int], call.now, call.bump).0
}

proof fn lemma_points_redeemed_bounds(vouchers: Seq<VoucherAccount>, book: RedemptionBook)
    ensures
        0 <= points_redeemed(vouchers, book) <= points_of(vouchers),
        count_redeemed(vouchers, book) <= vouchers.len(),
    decreases vouchers.len(),
{
    if vouchers.len() > 0 {
        lemma_points_redeemed_bounds(vouchers.drop_last(), book);
    }
}

proof fn lemma_nothing_redeemed(vouchers: Seq<VoucherAccount>, book: RedemptionBook)
    requires
        none_redeemed(vouchers, book),
    ensures
        points_redeemed(vouchers, book) == 0,
        count_redeemed(vouchers, book) == 0,
    decreases vouchers.len(),
{
    if vouchers.len() > 0 {
        let rest = vouchers.drop_last();
        assert forall|i: int| 0 <= i < rest.len() implies !book.dom().contains(
            (#[trigger] rest[i]).key,
        ) by {
            assert(rest[i] == vouchers[i]);
        }
        lemma_nothing_redeemed(rest, book);
        assert(vouchers.last() == vouchers[vouchers.len() - 1]);
    }
}

proof fn lemma_everything_redeemed(vouchers: Seq<VoucherAccount>, book: RedemptionBook)
    requires
        forall|i: int|
            0 <= i < vouchers.len() ==> book.dom().contains((#[trigger] vouchers[i]).key),
    ensures
        points_redeemed(vouchers, book) == points_of(vouchers),
        count_redeemed(vouchers, book) == vouchers.len(),
    decreases vouchers.len(),
{
    if vouchers.len() > 0 {
        let rest = vouchers.drop_last();
        assert forall|i: int| 0 <= i < rest.len() implies book.dom().contains(
            (#[trigger] rest[i]).key,
        ) by {
            assert(rest[i] == vouchers[i]);
        }
        lemma_everything_redeemed(rest, book);
        assert(vouchers.last() == vouchers[vouchers.len() - 1]);
    }
}

proof fn lemma_record_of_another_voucher(
    vouchers: Seq<VoucherAccount>,
    book: RedemptionBook,
    key: Identity,
    record: crate::charging_session::VoucherRedemption,
)
    requires
        forall|i: int| 0 <= i < vouchers.len() ==> (#[trigger] vouchers[i]).key != key,
    ensures
        points_redeemed(vouchers, book.insert(key, record)) == points_redeemed(vouchers, book),
        count_redeemed(vouchers, book.insert(key, record)) == count_redeemed(vouchers, book),
    decreases vouchers.len(),
{
    if vouchers.len() > 0 {
        let rest = vouchers.drop_last();
        assert forall|i: int| 0 <= i < rest.len() implies (#[trigger] rest[i]).key != key by {
            assert(rest[i] == vouchers[i]);
        }
        lemma_record_of_another_voucher(rest, book, key, record);
        assert(vouchers.last() == vouchers[vouchers.len() - 1]);
    }
}

proof fn lemma_record_of_one_voucher(
    vouchers: Seq<VoucherAccount>,
    book: RedemptionBook,
    which: int,
    record: crate::charging_session::VoucherRedemption,
)
    requires
        0 <= which < vouchers.len(),
        all_different(vouchers),
        !book.dom().contains(vouchers[which].key),
    ensures
        points_redeemed(vouchers, book.insert(vouchers[which].key, record)) == points_redeemed(
            vouchers,
            book,
        ) + voucher_points(vouchers[which].data@),
        count_redeemed(vouchers, book.insert(vouchers[which].key, record)) == count_redeemed(
            vouchers,
            book,
        ) + 1,
    decreases vouchers.len(),
{
    let rest = vouchers.drop_last();
    let key = vouchers[which].key;
    assert(vouchers.last() == vouchers[vouchers.len() - 1]);
    if which == vouchers.len() - 1 {
        assert forall|i: int| 0 <= i < rest.len() implies (#[trigger] rest[i]).key != key by {
            assert(rest[i] == vouchers[i]);
        }
        lemma_record_of_another_voucher(rest, book, key, record);
    } else {
        assert(rest[which] == vouchers[which]);
        assert forall|i: int, j: int| 0 <= i < j < rest.len() implies (#[trigger] rest[i]).key != (
        #[trigger] rest[j]).key by {
            assert(rest[i] == vouchers[i]);
            assert(rest[j] == vouchers[j]);
        }
        lemma_record_of_one_voucher(rest, book, which, record);
        assert(vouchers[vouchers.len() - 1].key != vouchers[which].key);
    }
}

/// What holds of a run so far, whichever vouchers have been called:
/// the book holds a record for exactly those vouchers that a call was
/// made against, the records of other vouchers are as they were, the
/// ledger has been credited the points of the vouchers redeemed and is
/// otherwise as it was, and as many calls succeeded as vouchers were
/// redeemed.
pub open spec fn run_so_far(
    account: UserAccount,
    book: RedemptionBook,
    vouchers: Seq<VoucherAccount>,
    calls: Seq<RedeemCall>,
) -> bool {
    let (successes, ledger, records) = redeem_all(account, book, vouchers, calls);
    &&& forall|i: int|
        0 <= i < vouchers.len() ==> (records.dom().contains((#[trigger] vouchers[i]).key)
            <==> called(calls, i))
    &&& forall|key: Identity|
        (forall|i: int| 0 <= i < vouchers.len() ==> (#[trigger] vouchers[i]).key != key) ==> (
        #[trigger] records.dom().contains(key) <==> book.dom().contains(key))
    &&& ledger.total_points == account.total_points + points_redeemed(vouchers, records)
    &&& ledger.available_points == account.available_points + points_redeemed(vouchers, records)
    &&& ledger == UserAccount {
        total_points: ledger.total_points,
        available_points: ledger.available_points,
        ..account
    }
    &&& successes == count_redeemed(vouchers, records)
}

/// The record that a call leaves where it redeems a voucher.
pub open spec fn record_of(
    ledger: UserAccount,
    voucher: VoucherAccount,
    now: i64,
    bump: u8,
) -> crate::charging_session::VoucherRedemption {
    crate::charging_session::VoucherRedemption {
        voucher: voucher.key,
        user: ledger.authority,
        points_amount: voucher_points(voucher.data@),
        redeemed_at: now,
        bump,
    }
}

/// One call by the owner against a voucher that the owner can redeem:
/// it fails with `AlreadyExists` and changes nothing where the record
/// exists, and else, where the ledger has room, succeeds, credits the
/// points and leaves the record.
pub proof fn lemma_redeem_step(
    ledger: UserAccount,
    records: RedemptionBook,
    voucher: VoucherAccount,
    now: i64,
    bump: u8,
)
    requires
        redeemable_by(voucher, ledger.authority),
    ensures
        records.dom().contains(voucher.key) ==> {
            &&& redeem_step(ledger, records, voucher, now, bump).0 == Err::<(), ErrorCode>(
                ErrorCode::AlreadyExists,
            )
            &&& redeem_step(ledger, records, voucher, now, bump).1 == ledger
            &&& redeem_step(ledger, records, voucher, now, bump).2 == records
        },
        !records.dom().contains(voucher.key) && ledger.total_points + voucher_points(
            voucher.data@,
        ) <= u64::MAX && ledger.available_points + voucher_points(voucher.data@) <= u64::MAX ==> {
            &&& redeem_step(ledger, records, voucher, now, bump).0 is Ok
            &&& redeem_step(ledger, records, voucher, now, bump).1 == (UserAccount {
                total_points: (ledger.total_points + voucher_points(voucher.data@)) as u64,
                available_points: (ledger.available_points + voucher_points(
                    voucher.data@,
                )) as u64,
                ..ledger
            })
            &&& redeem_step(ledger, records, voucher, now, bump).2 == records.insert(
                voucher.key,
                record_of(ledger, voucher, now, bump),
            )
        },
{
    if records.dom().contains(voucher.key) {
        assert(records.insert(voucher.key, records[voucher.key]) =~= records);
    }
}

proof fn lemma_called_grows(calls: Seq<RedeemCall>, which: int)
    requires
        calls.len() > 0,
    ensures
        called(calls, which) <==> called(calls.drop_last(), which) || calls.last().which == which,
{
    let before = calls.drop_last();
    if called(calls, which) {
        let c = choose|c: int| 0 <= c < calls.len() && (#[trigger] calls[c]).which == which;
        if c < calls.len() - 1 {
            assert(before[c] == calls[c]);
        }
    }
    if called(before, which) {
        let c = choose|c: int| 0 <= c < before.len() && (#[trigger] before[c]).which == which;
        assert(calls[c] == before[c]);
    }
    if calls.last().which == which {
        assert(calls[calls.len() - 1].which == which);
    }
}

/// The state of a run of calls by the owner of a ledger against
/// vouchers that the owner can redeem, whatever the order of the calls
/// and however many are made against each voucher.
pub proof fn lemma_run_so_far(
    account: UserAccount,
    book: RedemptionBook,
    vouchers: Seq<VoucherAccount>,
    calls: Seq<RedeemCall>,
)
    requires
        all_redeemable(vouchers, account.authority),
        all_different(vouchers),
        none_redeemed(vouchers, book),
        calls_in_range(vouchers, calls),
        account.total_points + points_of(vouchers) <= u64::MAX,
        account.available_points + points_of(vouchers) <= u64::MAX,
    ensures
        run_so_far(account, book, vouchers, calls),
    decreases calls.len(),
{
    if calls.len() == 0 {
        lemma_nothing_redeemed(vouchers, book);
        assert forall|i: int| 0 <= i < vouchers.len() implies !(#[trigger] called(calls, i)) by {}
    } else {
        let before = calls.drop_last();
        assert forall|c: int| 0 <= c < before.len() implies (#[trigger] before[c]).which
            < vouchers.len() by {
            assert(before[c] == calls[c]);
        }
        lemma_run_so_far(account, book, vouchers, before);
        let (successes, ledger, records) = redeem_all(account, book, vouchers, before);
        let call = calls.last();
        assert(call == calls[calls.len() - 1]);
        let which = call.which as int;
        let voucher = vouchers[which];
        let (res, ledger2, records2) = redeem_step(ledger, records, voucher, call.now, call.bump);
        assert(redeemable_by(voucher, account.authority));
        assert forall|i: int| 0 <= i < vouchers.len() implies (called(calls, i) <==> called(
            before,
            i,
        ) || i == which) by {
            lemma_called_grows(calls, i);
        }
        lemma_redeem_step(ledger, records, voucher, call.now, call.bump);
        if !records.dom().contains(voucher.key) {
            let record = record_of(ledger, voucher, call.now, call.bump);
            lemma_record_of_one_voucher(vouchers, records, which, record);
            lemma_points_redeemed_bounds(vouchers, records.insert(voucher.key, record));
            assert(res is Ok);
            assert(records2 == records.insert(voucher.key, record));
            assert forall|i: int| 0 <= i < vouchers.len() implies (records2.dom().contains(
                (#[trigger] vouchers[i]).key,
            ) <==> called(calls, i)) by {
                if i != which {
                    if i < which {
                        assert(vouchers[i].key != vouchers[which].key);
                    } else {
                        assert(vouchers[which].key != vouchers[i].key);
                    }
                }
            }
        }
    }
}

/// Exactly-once redemption over a whole run. A user holds some
/// vouchers, all different, all redeemable by the user and none
/// redeemed. Calls are made against them in any order, at least one
/// against each, and the ledger has room for all the points. Then as
/// many calls succeed as there are vouchers, every voucher has its
/// redemption record, the records of other vouchers are as they were,
/// and the total and the available points have each grown by the points
/// of all the vouchers together: however many calls were made and in
/// whatever order.
pub proof fn lemma_every_voucher_is_redeemed_once(
    account: UserAccount,
    book: RedemptionBook,
    vouchers: Seq<VoucherAccount>,
    calls: Seq<RedeemCall>,
)
    requires
        all_redeemable(vouchers, account.authority),
        all_different(vouchers),
        none_redeemed(vouchers, book),
        calls_in_range(vouchers, calls),
        forall|i: int| 0 <= i < vouchers.len() ==> called(calls, i),
        account.total_points + points_of(vouchers) <= u64::MAX,
        account.available_points + points_of(vouchers) <= u64::MAX,
    ensures
        redeem_all(account, book, vouchers, calls).0 == vouchers.len(),
        redeem_all(account, book, vouchers, calls).1 == (UserAccount {
            total_points: (account.total_points + points_of(vouchers)) as u64,
            available_points: (account.available_points + points_of(vouchers)) as u64,
            ..account
        }),
        forall|i: int|
            0 <= i < vouchers.len() ==> redeem_all(account, book, vouchers, calls).2.dom().contains(
                (#[trigger] vouchers[i]).key,
            ),
        forall|key: Identity|
            (forall|i: int| 0 <= i < vouchers.len() ==> (#[trigger] vouchers[i]).key != key) ==> (
            #[trigger] redeem_all(account, book, vouchers, calls).2.dom().contains(key)
                <==> book.dom().contains(key)),
{
    lemma_run_so_far(account, book, vouchers, calls);
    lemma_everything_redeemed(vouchers, redeem_all(account, book, vouchers, calls).2);
}

/// Which call redeems: in a run of calls as above, a call succeeds
/// exactly where no earlier call was made against the same voucher, and
/// fails with `AlreadyExists` otherwise.
pub proof fn lemma_the_first_call_redeems(
    account: UserAccount,
    book: RedemptionBook,
    vouchers: Seq<VoucherAccount>,
    calls: Seq<RedeemCall>,
)
    requires
        calls.len() > 0,
        all_redeemable(vouchers, account.authority),
        all_different(vouchers),
        none_redeemed(vouchers, book),
        calls_in_range(vouchers, calls),
        account.total_points + points_of(vouchers) <= u64::MAX,
        account.available_points + points_of(vouchers) <= u64::MAX,
    ensures
        last_result(account, book, vouchers, calls) is Ok <==> !called(
            calls.drop_last(),
            calls.last().which as int,
        ),
        last_result(account, book, vouchers, calls) is Err ==> last_result(
            account,
            book,
            vouchers,
            calls,
        ) == Err::<(), ErrorCode>(ErrorCode::AlreadyExists),
{
    let before = calls.drop_last();
    assert forall|c: int| 0 <= c < before.len() implies (#[trigger] before[c]).which
        < vouchers.len() by {
        assert(before[c] == calls[c]);
    }
    lemma_run_so_far(account, book, vouchers, before);
    let (successes, ledger, records) = redeem_all(account, book, vouchers, before);
    let call = calls.last();
    assert(call == calls[calls.len() - 1]);
    let which = call.which as int;
    let voucher = vouchers[which];
    assert(redeemable_by(voucher, account.authority));
    lemma_redeem_step(ledger, records, voucher, call.now, call.bump);
    if !records.dom().contains(voucher.key) {
        let record = record_of(ledger, voucher, call.now, call.bump);
        lemma_record_of_one_voucher(vouchers, records, which, record);
        lemma_points_redeemed_bounds(vouchers, records.insert(voucher.key, record));
    }
}

} // verus!
