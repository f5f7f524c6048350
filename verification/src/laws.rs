//! What holds of the services over more than one call.

use crate::charging_session::{
    credit_points_spec, debit_points_spec, end_session_spec, initialize_user_spec,
    redeem_voucher_spec, update_session_spec, voucher_buyer, voucher_points, ChargingSession,
    EndSession, InitializeUser, ModifyPoints, RedeemVoucher, UpdateSession, UserAccount,
    VoucherAccount, VoucherRedemption,
};
use crate::error::ErrorKind;
use crate::identity::{
    marketplace_program, points_allow_list, revenue_allow_list, voucher_allow_list, Identity,
};
use crate::points_marketplace::{
    mark_voucher_redeemed_spec, voucher_data, MarkVoucherRedeemed, PointsVoucher,
};
use crate::seeds::i64_le_bytes;
use crate::transfer::TransferOutcome;
use crate::virtual_plot::{record_session_spec, RecordSession};
use vstd::bytes::{lemma_auto_spec_u64_to_from_le_bytes, spec_u64_to_le_bytes};
use vstd::prelude::*;

verus! {

/// One call that touches a user's ledger, with everything that the call
/// is given besides the ledger itself.
pub enum LedgerCall {
    EndSession { session: ChargingSession, user: Identity, now: i64 },
    CreditPoints { caller: Identity, amount: u64 },
    DebitPoints { caller: Identity, amount: u64 },
    RedeemVoucher {
        redemption_record: Option<VoucherRedemption>,
        voucher: VoucherAccount,
        authority: Identity,
        now: i64,
        bump: u8,
    },
}

/// The ledger as one call leaves it, whether the call succeeds or fails.
pub open spec fn ledger_after(account: UserAccount, call: LedgerCall) -> UserAccount {
    match call {
        LedgerCall::EndSession { session, user, now } => end_session_spec(
            EndSession { session, user_account: account, user },
            now,
        ).1.user_account,
        LedgerCall::CreditPoints { caller, amount } => credit_points_spec(
            ModifyPoints { user_account: account, caller_authority: caller },
            amount,
        ).1.user_account,
        LedgerCall::DebitPoints { caller, amount } => debit_points_spec(
            ModifyPoints { user_account: account, caller_authority: caller },
            amount,
        ).1.user_account,
        LedgerCall::RedeemVoucher {
            redemption_record,
            voucher,
            authority,
            now,
            bump,
        } => redeem_voucher_spec(
            RedeemVoucher { user_account: account, redemption_record, voucher, authority },
            now,
            bump,
        ).1.user_account,
    }
}

/// The ledger as a run of calls leaves it, the calls taken in order.
pub open spec fn ledger_after_all(account: UserAccount, calls: Seq<LedgerCall>) -> UserAccount
    decreases calls.len(),
{
    if calls.len() == 0 {
        account
    } else {
        ledger_after(ledger_after_all(account, calls.drop_last()), calls.last())
    }
}

/// Ledger conservation: a ledger whose available points do not exceed
/// its total points stays so under every call, in whatever order the
/// calls come and whether they succeed or fail.
pub proof fn lemma_ledger_conservation(account: UserAccount, calls: Seq<LedgerCall>)
    requires
        account.well_formed(),
    ensures
        ledger_after_all(account, calls).well_formed(),
    decreases calls.len(),
{
    if calls.len() > 0 {
        lemma_ledger_conservation(account, calls.drop_last());
    }
}

/// A ledger that has just been created is consistent.
pub proof fn lemma_new_ledger_is_consistent(ctx: InitializeUser, bump: u8)
    requires
        initialize_user_spec(ctx, bump).0 is Ok,
    ensures
        initialize_user_spec(ctx, bump).1.user_account->0.well_formed(),
{
}

/// A session that has ended is frozen: neither an update nor a second
/// end changes it, its points least of all.
pub proof fn lemma_ended_session_is_frozen(
    session: ChargingSession,
    user: Identity,
    user_account: UserAccount,
    energy_wh_increment: u64,
    now: i64,
)
    requires
        !session.is_active,
    ensures
        update_session_spec(UpdateSession { session, user }, energy_wh_increment).0 is Err,
        update_session_spec(UpdateSession { session, user }, energy_wh_increment).1.session
            == session,
        end_session_spec(EndSession { session, user_account, user }, now).0 is Err,
        end_session_spec(EndSession { session, user_account, user }, now).1 == (EndSession {
            session,
            user_account,
            user,
        }),
{
}

/// While a session is active its points never decrease, and ending it
/// leaves them as they are.
pub proof fn lemma_session_points_never_decrease(
    session: ChargingSession,
    user: Identity,
    user_account: UserAccount,
    energy_wh_increment: u64,
    now: i64,
)
    ensures
        update_session_spec(
            UpdateSession { session, user },
            energy_wh_increment,
        ).1.session.points_earned >= session.points_earned,
        end_session_spec(
            EndSession { session, user_account, user },
            now,
        ).1.session.points_earned == session.points_earned,
{
}

/// One attempt to redeem a voucher, with everything that the attempt is
/// given besides the slot of the redemption record.
pub struct RedeemAttempt {
    pub user_account: UserAccount,
    pub voucher: VoucherAccount,
    pub authority: Identity,
    pub now: i64,
    pub bump: u8,
}

/// The result of one attempt on a slot, and the slot as the attempt
/// leaves it.
pub open spec fn attempt_on(slot: Option<VoucherRedemption>, attempt: RedeemAttempt) -> (
    Result<(), crate::charging_session::ErrorCode>,
    Option<VoucherRedemption>,
) {
    let (res, after) = redeem_voucher_spec(
        RedeemVoucher {
            user_account: attempt.user_account,
            redemption_record: slot,
            voucher: attempt.voucher,
            authority: attempt.authority,
        },
        attempt.now,
        attempt.bump,
    );
    (res, after.redemption_record)
}

/// The redemption records that exist, each under the identity of its
/// voucher.
pub type RedemptionBook = Map<Identity, VoucherRedemption>;

/// The slot of a voucher's redemption record in the book.
pub open spec fn slot_of(book: RedemptionBook, voucher: Identity) -> Option<VoucherRedemption> {
    if book.dom().contains(voucher) {
        Some(book[voucher])
    } else {
        None
    }
}

/// The result of one attempt on the slot that its voucher has in the
/// book, and the book as the attempt leaves it.
pub open spec fn book_after(book: RedemptionBook, attempt: RedeemAttempt) -> (
    Result<(), crate::charging_session::ErrorCode>,
    RedemptionBook,
) {
    let (res, slot) = attempt_on(slot_of(book, attempt.voucher.key), attempt);
    (
        res,
        match slot {
            Some(record) => book.insert(attempt.voucher.key, record),
            None => book,
        },
    )
}

/// How many attempts on one voucher succeed in a run of attempts on any
/// vouchers, the attempts taken in order.
pub open spec fn successes(
    book: RedemptionBook,
    attempts: Seq<RedeemAttempt>,
    voucher: Identity,
) -> nat
    decreases attempts.len(),
{
    if attempts.len() == 0 {
        0
    } else {
        let (res, after) = book_after(book, attempts.first());
        (if res is Ok && attempts.first().voucher.key == voucher {
            1nat
        } else {
            0nat
        }) + successes(after, attempts.drop_first(), voucher)
    }
}

/// Once a redemption record exists, every attempt on its slot fails with
/// `AlreadyExists`, whoever makes it and with whatever voucher, and
/// changes neither the record nor the ledger.
pub proof fn lemma_redeemed_voucher_stays_redeemed(ctx: RedeemVoucher, now: i64, bump: u8)
    requires
        ctx.redemption_record is Some,
    ensures
        redeem_voucher_spec(ctx, now, bump) == (
            Err::<(), crate::charging_session::ErrorCode>(
                crate::charging_session::ErrorCode::AlreadyExists,
            ),
            ctx,
        ),
        crate::charging_session::ErrorCode::AlreadyExists.kind() == ErrorKind::AlreadyExists,
{
}

/// A redemption that succeeds found the slot empty and leaves the record
/// in it.
pub proof fn lemma_redemption_creates_the_record(ctx: RedeemVoucher, now: i64, bump: u8)
    requires
        redeem_voucher_spec(ctx, now, bump).0 is Ok,
    ensures
        ctx.redemption_record is None,
        redeem_voucher_spec(ctx, now, bump).1.redemption_record is Some,
{
}

/// Exactly-once redemption: in any run of attempts on any vouchers, in
/// whatever order and by whomever, at most one attempt on a given voucher
/// succeeds, and none where its record exists at the start.
pub proof fn lemma_exactly_once_redemption(
    book: RedemptionBook,
    attempts: Seq<RedeemAttempt>,
    voucher: Identity,
)
    ensures
        successes(book, attempts, voucher) <= 1,
        book.dom().contains(voucher) ==> successes(book, attempts, voucher) == 0,
    decreases attempts.len(),
{
    if attempts.len() > 0 {
        let (res, after) = book_after(book, attempts.first());
        lemma_exactly_once_redemption(after, attempts.drop_first(), voucher);
        if res is Ok && attempts.first().voucher.key == voucher {
            assert(after.dom().contains(voucher));
        }
    }
}

/// The first attempt on a voucher that succeeds is the only one: where an
/// attempt succeeds, no attempt on the same voucher in any later run does.
pub proof fn lemma_no_redemption_after_the_first(
    book: RedemptionBook,
    first: RedeemAttempt,
    later: Seq<RedeemAttempt>,
)
    requires
        book_after(book, first).0 is Ok,
    ensures
        successes(book_after(book, first).1, later, first.voucher.key) == 0,
{
    lemma_exactly_once_redemption(book_after(book, first).1, later, first.voucher.key);
}

/// The marketplace's own mark is set once: marking a voucher that has
/// been marked fails with `VoucherAlreadyRedeemed` and changes nothing.
pub proof fn lemma_voucher_is_marked_once(ctx: MarkVoucherRedeemed)
    requires
        mark_voucher_redeemed_spec(ctx).0 is Ok,
    ensures
        mark_voucher_redeemed_spec(mark_voucher_redeemed_spec(ctx).1) == (
            Err::<(), crate::points_marketplace::ErrorCode>(
                crate::points_marketplace::ErrorCode::VoucherAlreadyRedeemed,
            ),
            mark_voucher_redeemed_spec(ctx).1,
        ),
        crate::points_marketplace::ErrorCode::VoucherAlreadyRedeemed.kind()
            == ErrorKind::InvalidState,
{
}

/// Authorization of `credit_points` and `debit_points`: a caller that is
/// not on the allow-list gets `UnauthorizedCaller`, of the class
/// `Unauthorized`, and nothing changes.
pub proof fn lemma_points_need_an_allowed_caller(ctx: ModifyPoints, amount: u64)
    requires
        !points_allow_list().contains(ctx.caller_authority),
    ensures
        credit_points_spec(ctx, amount) == (
            Err::<(), crate::charging_session::ErrorCode>(
                crate::charging_session::ErrorCode::UnauthorizedCaller,
            ),
            ctx,
        ),
        debit_points_spec(ctx, amount) == (
            Err::<(), crate::charging_session::ErrorCode>(
                crate::charging_session::ErrorCode::UnauthorizedCaller,
            ),
            ctx,
        ),
        crate::charging_session::ErrorCode::UnauthorizedCaller.kind() == ErrorKind::Unauthorized,
{
}

/// Authorization of `mark_voucher_redeemed`: a caller that is not on the
/// allow-list gets `UnauthorizedCaller`, of the class `Unauthorized`, and
/// nothing changes.
pub proof fn lemma_marking_needs_an_allowed_caller(ctx: MarkVoucherRedeemed)
    requires
        !voucher_allow_list().contains(ctx.caller_authority),
    ensures
        mark_voucher_redeemed_spec(ctx) == (
            Err::<(), crate::points_marketplace::ErrorCode>(
                crate::points_marketplace::ErrorCode::UnauthorizedCaller,
            ),
            ctx,
        ),
        crate::points_marketplace::ErrorCode::UnauthorizedCaller.kind()
            == ErrorKind::Unauthorized,
{
}

/// Authorization of `record_session`: a caller that is not on the
/// allow-list gets `UnauthorizedCaller`, of the class `Unauthorized`,
/// whatever the transfer's outcome, and nothing changes.
pub proof fn lemma_revenue_needs_an_allowed_caller(
    ctx: RecordSession,
    revenue_lamports: u64,
    payment: TransferOutcome,
)
    requires
        !revenue_allow_list().contains(ctx.authority),
    ensures
        record_session_spec(ctx, revenue_lamports, payment) == (
            Err::<(), crate::virtual_plot::ErrorCode>(
                crate::virtual_plot::ErrorCode::UnauthorizedCaller,
            ),
            ctx,
        ),
        crate::virtual_plot::record_session_due(ctx, revenue_lamports) == Err::<
            crate::transfer::Transfer,
            crate::virtual_plot::ErrorCode,
        >(crate::virtual_plot::ErrorCode::UnauthorizedCaller),
        crate::virtual_plot::ErrorCode::UnauthorizedCaller.kind() == ErrorKind::Unauthorized,
{
}

/// Initialisation happens once: after a user's ledger has been created,
/// a second initialisation fails with `AlreadyExists` and leaves the
/// first record as it is.
pub proof fn lemma_initialize_user_once(ctx: InitializeUser, first_bump: u8, second_bump: u8)
    requires
        initialize_user_spec(ctx, first_bump).0 is Ok,
    ensures
        initialize_user_spec(initialize_user_spec(ctx, first_bump).1, second_bump) == (
            Err::<(), crate::charging_session::ErrorCode>(
                crate::charging_session::ErrorCode::AlreadyExists,
            ),
            initialize_user_spec(ctx, first_bump).1,
        ),
{
}

/// A voucher written as bytes is 58 bytes long, and the session ledger
/// reads from them the buyer and the points that were written.
pub proof fn lemma_voucher_data_round_trip(voucher: PointsVoucher)
    ensures
        voucher_data(voucher).len() == 58,
        voucher_buyer(voucher_data(voucher)) == voucher.buyer@,
        voucher_points(voucher_data(voucher)) == voucher.points_amount,
{
    lemma_auto_spec_u64_to_from_le_bytes();
    let data = voucher_data(voucher);
    assert(spec_u64_to_le_bytes(voucher.points_amount).len() == 8);
    assert(i64_le_bytes(voucher.created_at).len() == 8);
    assert(data.subrange(8, 40) =~= voucher.buyer@);
    assert(data.subrange(40, 48) =~= spec_u64_to_le_bytes(voucher.points_amount));
}

/// A voucher that the marketplace has issued can be redeemed by its
/// buyer: with the voucher's bytes, an empty slot and counters that have
/// room, the redemption succeeds, adds exactly the voucher's points to
/// the total and to the available points, and leaves the record.
pub proof fn lemma_issued_voucher_redeems(
    voucher: PointsVoucher,
    voucher_key: Identity,
    data: Vec<u8>,
    account: UserAccount,
    now: i64,
    bump: u8,
)
    requires
        data@ == voucher_data(voucher),
        account.authority == voucher.buyer,
        account.total_points + voucher.points_amount <= u64::MAX,
        account.available_points + voucher.points_amount <= u64::MAX,
    ensures
        redeem_voucher_spec(
            RedeemVoucher {
                user_account: account,
                redemption_record: None,
                voucher: VoucherAccount { key: voucher_key, owner: marketplace_program(), data },
                authority: account.authority,
            },
            now,
            bump,
        ) == (
            Ok::<(), crate::charging_session::ErrorCode>(()),
            RedeemVoucher {
                user_account: UserAccount {
                    total_points: (account.total_points + voucher.points_amount) as u64,
                    available_points: (account.available_points + voucher.points_amount) as u64,
                    ..account
                },
                redemption_record: Some(
                    VoucherRedemption {
                        voucher: voucher_key,
                        user: account.authority,
                        points_amount: voucher.points_amount,
                        redeemed_at: now,
                        bump,
                    },
                ),
                voucher: VoucherAccount { key: voucher_key, owner: marketplace_program(), data },
                authority: account.authority,
            },
        ),
{
    lemma_voucher_data_round_trip(voucher);
}

} // verus!
