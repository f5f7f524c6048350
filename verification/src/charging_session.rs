//! The session ledger: charging sessions, user point balances and the
//! redemption of vouchers.

use crate::error::ErrorKind;
use crate::identity::{
    charging_session_program, charging_session_program_id, derive_identity, is_derived, seeds_view,
    lemma_identity_extensional, marketplace_program, marketplace_program_id, points_allow_list,
    points_callers, verify_caller, Identity,
};
use crate::seeds::{array_to_vec, i64_le_bytes, i64_to_le_bytes};
use vstd::bytes::{spec_u32_to_le_bytes, spec_u64_from_le_bytes, u32_to_le_bytes, u64_from_le_bytes};
use vstd::prelude::*;
use vstd::slice::slice_subrange;

verus! {

/// Why an operation of the session ledger failed.
#[derive(Clone, Copy, Debug, PartialEq, Eq, Structural)]
pub enum ErrorCode {
    /// The session has ended.
    SessionNotActive,
    /// A counter would leave its range upwards.
    Overflow,
    /// The user has fewer available points than the amount asked for.
    InsufficientPoints,
    /// A counter would leave its range downwards.
    Underflow,
    /// The record is not one of the marketplace's.
    InvalidVoucherProgram,
    /// The voucher's data is too short to hold a voucher.
    InvalidVoucherData,
    /// The voucher was not issued by the marketplace, or was issued to
    /// another user.
    UnauthorizedVoucher,
    /// The voucher has been redeemed.
    VoucherAlreadyRedeemed,
    /// The caller is not one of the services that may modify points.
    UnauthorizedCaller,
    /// A record already exists where one was to be created.
    AlreadyExists,
    /// The signer does not own the record.
    Unauthorized,
}

impl ErrorCode {
    /// The class that the error falls into.
    pub open spec fn kind_spec(self) -> ErrorKind {
        match self {
            ErrorCode::SessionNotActive => ErrorKind::InvalidState,
            ErrorCode::Overflow => ErrorKind::ArithmeticOverflow,
            ErrorCode::InsufficientPoints => ErrorKind::InsufficientBalance,
            ErrorCode::Underflow => ErrorKind::ArithmeticUnderflow,
            ErrorCode::InvalidVoucherProgram => ErrorKind::InvalidInput,
            ErrorCode::InvalidVoucherData => ErrorKind::InvalidInput,
            ErrorCode::UnauthorizedVoucher => ErrorKind::Unauthorized,
            ErrorCode::VoucherAlreadyRedeemed => ErrorKind::InvalidState,
            ErrorCode::UnauthorizedCaller => ErrorKind::Unauthorized,
            ErrorCode::AlreadyExists => ErrorKind::AlreadyExists,
            ErrorCode::Unauthorized => ErrorKind::Unauthorized,
        }
    }

    /// The class that the error falls into.
    #[verifier::when_used_as_spec(kind_spec)]
    pub fn kind(self) -> (k: ErrorKind)
        ensures
            k == self.kind_spec(),
    {
        match self {
            ErrorCode::SessionNotActive => ErrorKind::InvalidState,
            ErrorCode::Overflow => ErrorKind::ArithmeticOverflow,
            ErrorCode::InsufficientPoints => ErrorKind::InsufficientBalance,
            ErrorCode::Underflow => ErrorKind::ArithmeticUnderflow,
            ErrorCode::InvalidVoucherProgram => ErrorKind::InvalidInput,
            ErrorCode::InvalidVoucherData => ErrorKind::InvalidInput,
            ErrorCode::UnauthorizedVoucher => ErrorKind::Unauthorized,
            ErrorCode::VoucherAlreadyRedeemed => ErrorKind::InvalidState,
            ErrorCode::UnauthorizedCaller => ErrorKind::Unauthorized,
            ErrorCode::AlreadyExists => ErrorKind::AlreadyExists,
            ErrorCode::Unauthorized => ErrorKind::Unauthorized,
        }
    }

    /// What the error says, in words.
    pub open spec fn message_spec(self) -> Seq<char> {
        match self {
            ErrorCode::SessionNotActive => "Session is not active"@,
            ErrorCode::Overflow => "Arithmetic overflow"@,
            ErrorCode::InsufficientPoints => "Insufficient points"@,
            ErrorCode::Underflow => "Arithmetic underflow"@,
            ErrorCode::InvalidVoucherProgram => "Invalid voucher program"@,
            ErrorCode::InvalidVoucherData => "Invalid voucher data"@,
            ErrorCode::UnauthorizedVoucher => "Unauthorized voucher"@,
            ErrorCode::VoucherAlreadyRedeemed => "Voucher already redeemed"@,
            ErrorCode::UnauthorizedCaller => {
                "Unauthorized caller - only whitelisted programs can modify points"@
            },
            ErrorCode::AlreadyExists => "Record already exists"@,
            ErrorCode::Unauthorized => "Signer does not own the record"@,
        }
    }

    /// What the error says, in words.
    pub fn message(self) -> (text: &'static str)
        ensures
            text@ == self.message_spec(),
    {
        match self {
            ErrorCode::SessionNotActive => "Session is not active",
            ErrorCode::Overflow => "Arithmetic overflow",
            ErrorCode::InsufficientPoints => "Insufficient points",
            ErrorCode::Underflow => "Arithmetic underflow",
            ErrorCode::InvalidVoucherProgram => "Invalid voucher program",
            ErrorCode::InvalidVoucherData => "Invalid voucher data",
            ErrorCode::UnauthorizedVoucher => "Unauthorized voucher",
            ErrorCode::VoucherAlreadyRedeemed => "Voucher already redeemed",
            ErrorCode::UnauthorizedCaller => {
                "Unauthorized caller - only whitelisted programs can modify points"
            },
            ErrorCode::AlreadyExists => "Record already exists",
            ErrorCode::Unauthorized => "Signer does not own the record",
        }
    }
}

/// One charge event.
#[derive(Clone, Debug, PartialEq, Eq)]
pub struct ChargingSession {
    pub user: Identity,
    pub charger_code: String,
    pub charger_power_kw: u16,
    pub pricing_per_kwh: u64,
    pub start_time: i64,
    pub nonce: u32,
    pub end_time: Option<i64>,
    /// Energy consumed so far, in watt-hours.
    pub energy_consumed_wh: u64,
    pub points_earned: u64,
    pub is_active: bool,
    pub bump: u8,
}

/// One user's points ledger.
#[derive(Clone, Copy, Debug, PartialEq, Eq)]
pub struct UserAccount {
    pub authority: Identity,
    /// Points earned over the account's lifetime.
    pub total_points: u64,
    /// Points that can be spent.
    pub available_points: u64,
    pub total_energy_kwh: u64,
    pub total_sessions: u64,
    pub bump: u8,
}

impl UserAccount {
    /// The ledger is consistent: no more points can be spent than were
    /// ever earned.
    pub open spec fn well_formed(self) -> bool {
        self.available_points <= self.total_points
    }
}

/// Proof that a voucher was claimed. There is at most one per voucher.
#[derive(Clone, Copy, Debug, PartialEq, Eq)]
pub struct VoucherRedemption {
    pub voucher: Identity,
    pub user: Identity,
    pub points_amount: u64,
    pub redeemed_at: i64,
    pub bump: u8,
}

/// Energy that earns one point, in watt-hours.
pub const WH_PER_POINT: u64 = 100;

/// Watt-hours in a kilowatt-hour.
pub const WH_PER_KWH: u64 = 1000;

/// The points that an amount of energy earns: one per full 100 Wh. What
/// is left below 100 Wh is lost.
pub open spec fn points_for_energy(energy_wh: u64) -> int {
    energy_wh as int / 100
}

/// The records that starting a session touches.
#[derive(Clone, Debug, PartialEq, Eq)]
pub struct StartSession {
    /// The slot at the identity that the user, the timestamp and the nonce
    /// derive. It is `None` while no session exists there.
    pub session: Option<ChargingSession>,
    /// The signer, who owns the new session.
    pub user: Identity,
}

/// What `start_session` returns and leaves behind.
pub open spec fn start_session_spec(
    ctx: StartSession,
    charger_code: String,
    charger_power_kw: u16,
    pricing_per_kwh: u64,
    timestamp: i64,
    nonce: u32,
    bump: u8,
) -> (Result<(), ErrorCode>, StartSession) {
    if ctx.session is Some {
        (Err(ErrorCode::AlreadyExists), ctx)
    } else {
        (
            Ok(()),
            StartSession {
                session: Some(
                    ChargingSession {
                        user: ctx.user,
                        charger_code,
                        charger_power_kw,
                        pricing_per_kwh,
                        start_time: timestamp,
                        nonce,
                        end_time: None,
                        energy_consumed_wh: 0,
                        points_earned: 0,
                        is_active: true,
                        bump,
                    },
                ),
                user: ctx.user,
            },
        )
    }
}

/// Starts a charging session for the signer. The session is keyed by the
/// owner, the timestamp and the nonce, so that two sessions started in the
/// same second do not collide. It starts active, with no energy and no
/// points.
///
/// Fails with `AlreadyExists`, and changes nothing, where a session already
/// exists in the slot.
pub fn start_session(
    ctx: &mut StartSession,
    charger_code: String,
    charger_power_kw: u16,
    pricing_per_kwh: u64,
    timestamp: i64,
    nonce: u32,
    bump: u8,
) -> (res: Result<(), ErrorCode>)
    ensures
        res is Err ==> *final(ctx) == *old(ctx),
        (res, *final(ctx)) == start_session_spec(
            *old(ctx),
            charger_code,
            charger_power_kw,
            pricing_per_kwh,
            timestamp,
            nonce,
            bump,
        ),
{
    if ctx.session.is_some() {
        return Err(ErrorCode::AlreadyExists);
    }
    ctx.session = Some(
        ChargingSession {
            user: ctx.user,
            charger_code,
            charger_power_kw,
            pricing_per_kwh,
            start_time: timestamp,
            nonce,
            end_time: None,
            energy_consumed_wh: 0,
            points_earned: 0,
            is_active: true,
            bump,
        },
    );
    Ok(())
}

/// The records that updating a session touches.
#[derive(Clone, Debug, PartialEq, Eq)]
pub struct UpdateSession {
    pub session: ChargingSession,
    /// The signer, who must own the session.
    pub user: Identity,
}

/// What `update_session` returns and leaves behind.
pub open spec fn update_session_spec(ctx: UpdateSession, energy_wh_increment: u64) -> (
    Result<(), ErrorCode>,
    UpdateSession,
) {
    if ctx.session.user != ctx.user {
        (Err(ErrorCode::Unauthorized), ctx)
    } else if !ctx.session.is_active {
        (Err(ErrorCode::SessionNotActive), ctx)
    } else if ctx.session.energy_consumed_wh + energy_wh_increment > u64::MAX {
        (Err(ErrorCode::Overflow), ctx)
    } else if ctx.session.points_earned + points_for_energy(energy_wh_increment) > u64::MAX {
        (Err(ErrorCode::Overflow), ctx)
    } else {
        (
            Ok(()),
            UpdateSession {
                session: ChargingSession {
                    energy_consumed_wh: (ctx.session.energy_consumed_wh
                        + energy_wh_increment) as u64,
                    points_earned: (ctx.session.points_earned + points_for_energy(
                        energy_wh_increment,
                    )) as u64,
                    ..ctx.session
                },
                user: ctx.user,
            },
        )
    }
}

/// Adds energy to an active session, and the points that this energy
/// earns: one per full 100 Wh of the increment. What the increment leaves
/// below 100 Wh earns nothing and is not carried over.
///
/// Fails, and changes nothing, where the signer does not own the session
/// (`Unauthorized`), the session has ended (`SessionNotActive`), or a
/// counter would overflow (`Overflow`). Points earned never decrease.
pub fn update_session(ctx: &mut UpdateSession, energy_wh_increment: u64) -> (res: Result<
    (),
    ErrorCode,
>)
    ensures
        res is Err ==> *final(ctx) == *old(ctx),
        (res, *final(ctx)) == update_session_spec(*old(ctx), energy_wh_increment),
        final(ctx).session.points_earned >= old(ctx).session.points_earned,
        final(ctx).session.energy_consumed_wh >= old(ctx).session.energy_consumed_wh,
{
    if ctx.session.user != ctx.user {
        return Err(ErrorCode::Unauthorized);
    }
    if !ctx.session.is_active {
        return Err(ErrorCode::SessionNotActive);
    }
    let energy = match ctx.session.energy_consumed_wh.checked_add(energy_wh_increment) {
        Some(energy) => energy,
        None => {
            return Err(ErrorCode::Overflow);
        },
    };
    let new_points: u64 = energy_wh_increment / WH_PER_POINT;
    let points = match ctx.session.points_earned.checked_add(new_points) {
        Some(points) => points,
        None => {
            return Err(ErrorCode::Overflow);
        },
    };
    ctx.session.energy_consumed_wh = energy;
    ctx.session.points_earned = points;
    Ok(())
}

/// The records that ending a session touches.
#[derive(Clone, Debug, PartialEq, Eq)]
pub struct EndSession {
    pub session: ChargingSession,
    /// The ledger of the signer.
    pub user_account: UserAccount,
    /// The signer, who must own the session and the ledger.
    pub user: Identity,
}

/// Whether finalising the session would take a counter of the ledger out
/// of its range.
pub open spec fn end_session_overflows(session: ChargingSession, account: UserAccount) -> bool {
    ||| account.total_points + session.points_earned > u64::MAX
    ||| account.available_points + session.points_earned > u64::MAX
    ||| account.total_energy_kwh + session.energy_consumed_wh / 1000 > u64::MAX
    ||| account.total_sessions + 1 > u64::MAX
}

/// What `end_session` returns and leaves behind.
pub open spec fn end_session_spec(ctx: EndSession, now: i64) -> (
    Result<(), ErrorCode>,
    EndSession,
) {
    if ctx.session.user != ctx.user || ctx.user_account.authority != ctx.user {
        (Err(ErrorCode::Unauthorized), ctx)
    } else if !ctx.session.is_active {
        (Err(ErrorCode::SessionNotActive), ctx)
    } else if end_session_overflows(ctx.session, ctx.user_account) {
        (Err(ErrorCode::Overflow), ctx)
    } else {
        (
            Ok(()),
            EndSession {
                session: ChargingSession { end_time: Some(now), is_active: false, ..ctx.session },
                user_account: UserAccount {
                    total_points: (ctx.user_account.total_points
                        + ctx.session.points_earned) as u64,
                    available_points: (ctx.user_account.available_points
                        + ctx.session.points_earned) as u64,
                    total_energy_kwh: (ctx.user_account.total_energy_kwh
                        + ctx.session.energy_consumed_wh / 1000) as u64,
                    total_sessions: (ctx.user_account.total_sessions + 1) as u64,
                    ..ctx.user_account
                },
                user: ctx.user,
            },
        )
    }
}

/// Ends an active session at the time `now` and books it into the user's
/// ledger: the points earned are added to the total and to the available
/// points, the energy in whole kilowatt-hours to the energy total, and the
/// session count grows by one. The session is then inactive for good.
///
/// Fails, and changes nothing, where the signer does not own the session
/// and the ledger (`Unauthorized`), the session has ended
/// (`SessionNotActive`), or a counter would overflow (`Overflow`). A
/// consistent ledger stays consistent.
pub fn end_session(ctx: &mut EndSession, now: i64) -> (res: Result<(), ErrorCode>)
    ensures
        res is Err ==> *final(ctx) == *old(ctx),
        (res, *final(ctx)) == end_session_spec(*old(ctx), now),
        old(ctx).user_account.well_formed() ==> final(ctx).user_account.well_formed(),
{
    if ctx.session.user != ctx.user || ctx.user_account.authority != ctx.user {
        return Err(ErrorCode::Unauthorized);
    }
    if !ctx.session.is_active {
        return Err(ErrorCode::SessionNotActive);
    }
    let total = match ctx.user_account.total_points.checked_add(ctx.session.points_earned) {
        Some(total) => total,
        None => {
            return Err(ErrorCode::Overflow);
        },
    };
    let available = match ctx.user_account.available_points.checked_add(
        ctx.session.points_earned,
    ) {
        Some(available) => available,
        None => {
            return Err(ErrorCode::Overflow);
        },
    };
    let energy = match ctx.user_account.total_energy_kwh.checked_add(
        ctx.session.energy_consumed_wh / WH_PER_KWH,
    ) {
        Some(energy) => energy,
        None => {
            return Err(ErrorCode::Overflow);
        },
    };
    let sessions = match ctx.user_account.total_sessions.checked_add(1) {
        Some(sessions) => sessions,
        None => {
            return Err(ErrorCode::Overflow);
        },
    };
    ctx.session.end_time = Some(now);
    ctx.session.is_active = false;
    ctx.user_account.total_points = total;
    ctx.user_account.available_points = available;
    ctx.user_account.total_energy_kwh = energy;
    ctx.user_account.total_sessions = sessions;
    Ok(())
}

/// The records that initialising a user touches.
#[derive(Clone, Copy, Debug, PartialEq, Eq)]
pub struct InitializeUser {
    /// The slot at the identity that the authority derives. It is `None`
    /// while the user has no ledger.
    pub user_account: Option<UserAccount>,
    /// The signer, who will own the ledger.
    pub authority: Identity,
}

/// What `initialize_user` returns and leaves behind.
pub open spec fn initialize_user_spec(ctx: InitializeUser, bump: u8) -> (
    Result<(), ErrorCode>,
    InitializeUser,
) {
    if ctx.user_account is Some {
        (Err(ErrorCode::AlreadyExists), ctx)
    } else {
        (
            Ok(()),
            InitializeUser {
                user_account: Some(
                    UserAccount {
                        authority: ctx.authority,
                        total_points: 0,
                        available_points: 0,
                        total_energy_kwh: 0,
                        total_sessions: 0,
                        bump,
                    },
                ),
                authority: ctx.authority,
            },
        )
    }
}

/// Creates the signer's ledger, with every counter at zero.
///
/// Fails with `AlreadyExists`, and changes nothing, where the user has a
/// ledger already: a second initialisation is an error of the caller, not
/// a step that is passed over in silence.
pub fn initialize_user(ctx: &mut InitializeUser, bump: u8) -> (res: Result<(), ErrorCode>)
    ensures
        res is Err ==> *final(ctx) == *old(ctx),
        (res, *final(ctx)) == initialize_user_spec(*old(ctx), bump),
        res is Ok ==> final(ctx).user_account->0.well_formed(),
{
    if ctx.user_account.is_some() {
        return Err(ErrorCode::AlreadyExists);
    }
    ctx.user_account = Some(
        UserAccount {
            authority: ctx.authority,
            total_points: 0,
            available_points: 0,
            total_energy_kwh: 0,
            total_sessions: 0,
            bump,
        },
    );
    Ok(())
}

/// The records that crediting or debiting points touches.
#[derive(Clone, Copy, Debug, PartialEq, Eq)]
pub struct ModifyPoints {
    pub user_account: UserAccount,
    /// The identity of the calling service, as the platform authenticated
    /// it.
    pub caller_authority: Identity,
}

/// What `credit_points` returns and leaves behind.
pub open spec fn credit_points_spec(ctx: ModifyPoints, amount: u64) -> (
    Result<(), ErrorCode>,
    ModifyPoints,
) {
    if !points_allow_list().contains(ctx.caller_authority) {
        (Err(ErrorCode::UnauthorizedCaller), ctx)
    } else if ctx.user_account.total_points + amount > u64::MAX
        || ctx.user_account.available_points + amount > u64::MAX {
        (Err(ErrorCode::Overflow), ctx)
    } else {
        (
            Ok(()),
            ModifyPoints {
                user_account: UserAccount {
                    total_points: (ctx.user_account.total_points + amount) as u64,
                    available_points: (ctx.user_account.available_points + amount) as u64,
                    ..ctx.user_account
                },
                caller_authority: ctx.caller_authority,
            },
        )
    }
}

/// Adds points to a user's total and available points, on behalf of the
/// marketplace or the virtual-plot registry.
///
/// Fails, and changes nothing, where the caller is neither of these
/// (`UnauthorizedCaller`) or a counter would overflow (`Overflow`). A
/// consistent ledger stays consistent.
pub fn credit_points(ctx: &mut ModifyPoints, amount: u64) -> (res: Result<(), ErrorCode>)
    ensures
        res is Err ==> *final(ctx) == *old(ctx),
        (res, *final(ctx)) == credit_points_spec(*old(ctx), amount),
        old(ctx).user_account.well_formed() ==> final(ctx).user_account.well_formed(),
{
    let allowed = points_callers();
    if !verify_caller(&ctx.caller_authority, allowed.as_slice()) {
        return Err(ErrorCode::UnauthorizedCaller);
    }
    let total = match ctx.user_account.total_points.checked_add(amount) {
        Some(total) => total,
        None => {
            return Err(ErrorCode::Overflow);
        },
    };
    let available = match ctx.user_account.available_points.checked_add(amount) {
        Some(available) => available,
        None => {
            return Err(ErrorCode::Overflow);
        },
    };
    ctx.user_account.total_points = total;
    ctx.user_account.available_points = available;
    Ok(())
}

/// What `debit_points` returns and leaves behind.
pub open spec fn debit_points_spec(ctx: ModifyPoints, amount: u64) -> (
    Result<(), ErrorCode>,
    ModifyPoints,
) {
    if !points_allow_list().contains(ctx.caller_authority) {
        (Err(ErrorCode::UnauthorizedCaller), ctx)
    } else if ctx.user_account.available_points < amount {
        (Err(ErrorCode::InsufficientPoints), ctx)
    } else {
        (
            Ok(()),
            ModifyPoints {
                user_account: UserAccount {
                    available_points: (ctx.user_account.available_points - amount) as u64,
                    ..ctx.user_account
                },
                caller_authority: ctx.caller_authority,
            },
        )
    }
}

/// Takes points from a user's available points, on behalf of the
/// marketplace or the virtual-plot registry. The total, which counts the
/// points of a lifetime, stays.
///
/// Fails, and changes nothing, where the caller is neither of these
/// (`UnauthorizedCaller`) or the user has fewer available points than the
/// amount (`InsufficientPoints`). A consistent ledger stays consistent.
pub fn debit_points(ctx: &mut ModifyPoints, amount: u64) -> (res: Result<(), ErrorCode>)
    ensures
        res is Err ==> *final(ctx) == *old(ctx),
        (res, *final(ctx)) == debit_points_spec(*old(ctx), amount),
        old(ctx).user_account.well_formed() ==> final(ctx).user_account.well_formed(),
{
    let allowed = points_callers();
    if !verify_caller(&ctx.caller_authority, allowed.as_slice()) {
        return Err(ErrorCode::UnauthorizedCaller);
    }
    if ctx.user_account.available_points < amount {
        return Err(ErrorCode::InsufficientPoints);
    }
    let available = match ctx.user_account.available_points.checked_sub(amount) {
        Some(available) => available,
        None => {
            return Err(ErrorCode::Underflow);
        },
    };
    ctx.user_account.available_points = available;
    Ok(())
}

/// A voucher as the session ledger sees it: a record of another service,
/// read as bytes.
#[derive(Clone, Debug, PartialEq, Eq)]
pub struct VoucherAccount {
    /// The identity of the voucher.
    pub key: Identity,
    /// The service that owns the voucher.
    pub owner: Identity,
    /// The voucher's data: 8 bytes that tag the kind of record, the
    /// buyer's 32 bytes, the points as 8 bytes with the least significant
    /// first, then the redeemed flag, the creation time and the bump.
    pub data: Vec<u8>,
}

/// The least number of bytes that hold a voucher.
pub const VOUCHER_DATA_LEN: usize = 58;

/// The bytes of the buyer in a voucher's data.
pub open spec fn voucher_buyer(data: Seq<u8>) -> Seq<u8> {
    data.subrange(8, 40)
}

/// The points in a voucher's data.
pub open spec fn voucher_points(data: Seq<u8>) -> u64 {
    spec_u64_from_le_bytes(data.subrange(40, 48))
}

/// The records that redeeming a voucher touches.
#[derive(Clone, Debug, PartialEq, Eq)]
pub struct RedeemVoucher {
    /// The ledger of the signer.
    pub user_account: UserAccount,
    /// The slot at the identity that the voucher derives. It is `None`
    /// while the voucher has not been redeemed.
    pub redemption_record: Option<VoucherRedemption>,
    pub voucher: VoucherAccount,
    /// The signer, who redeems the voucher.
    pub authority: Identity,
}

/// What `redeem_voucher` returns and leaves behind.
pub open spec fn redeem_voucher_spec(ctx: RedeemVoucher, now: i64, bump: u8) -> (
    Result<(), ErrorCode>,
    RedeemVoucher,
) {
    let points = voucher_points(ctx.voucher.data@);
    if ctx.redemption_record is Some {
        (Err(ErrorCode::AlreadyExists), ctx)
    } else if ctx.user_account.authority != ctx.authority {
        (Err(ErrorCode::Unauthorized), ctx)
    } else if ctx.voucher.owner != marketplace_program() {
        (Err(ErrorCode::UnauthorizedVoucher), ctx)
    } else if ctx.voucher.data@.len() < VOUCHER_DATA_LEN {
        (Err(ErrorCode::InvalidVoucherData), ctx)
    } else if voucher_buyer(ctx.voucher.data@) != ctx.user_account.authority@ {
        (Err(ErrorCode::UnauthorizedVoucher), ctx)
    } else if ctx.user_account.total_points + points > u64::MAX
        || ctx.user_account.available_points + points > u64::MAX {
        (Err(ErrorCode::Overflow), ctx)
    } else {
        (
            Ok(()),
            RedeemVoucher {
                user_account: UserAccount {
                    total_points: (ctx.user_account.total_points + points) as u64,
                    available_points: (ctx.user_account.available_points + points) as u64,
                    ..ctx.user_account
                },
                redemption_record: Some(
                    VoucherRedemption {
                        voucher: ctx.voucher.key,
                        user: ctx.user_account.authority,
                        points_amount: points,
                        redeemed_at: now,
                        bump,
                    },
                ),
                voucher: ctx.voucher,
                authority: ctx.authority,
            },
        )
    }
}

/// Redeems a voucher of the marketplace at the time `now`: creates the
/// redemption record in its slot and adds the voucher's points to the
/// signer's total and available points.
///
/// The redemption record is the guard against spending a voucher twice.
/// Where one exists in the slot the call fails with `AlreadyExists`,
/// whatever else holds and whatever the voucher's own flag says. The call
/// also fails where the signer does not own the ledger (`Unauthorized`),
/// the voucher was not issued by the marketplace (`UnauthorizedVoucher`),
/// its data is shorter than a voucher (`InvalidVoucherData`), it was
/// issued to another user (`UnauthorizedVoucher`), or a counter would
/// overflow (`Overflow`). A call that fails changes nothing. A consistent
/// ledger stays consistent.
pub fn redeem_voucher(ctx: &mut RedeemVoucher, now: i64, bump: u8) -> (res: Result<
    (),
    ErrorCode,
>)
    ensures
        res is Err ==> *final(ctx) == *old(ctx),
        (res, *final(ctx)) == redeem_voucher_spec(*old(ctx), now, bump),
        old(ctx).user_account.well_formed() ==> final(ctx).user_account.well_formed(),
{
    if ctx.redemption_record.is_some() {
        return Err(ErrorCode::AlreadyExists);
    }
    if ctx.user_account.authority != ctx.authority {
        return Err(ErrorCode::Unauthorized);
    }
    if ctx.voucher.owner != marketplace_program_id() {
        return Err(ErrorCode::UnauthorizedVoucher);
    }
    if ctx.voucher.data.len() < VOUCHER_DATA_LEN {
        return Err(ErrorCode::InvalidVoucherData);
    }
    let buyer = match Identity::from_slice(slice_subrange(ctx.voucher.data.as_slice(), 8, 40)) {
        Some(buyer) => buyer,
        None => {
            return Err(ErrorCode::InvalidVoucherData);
        },
    };
    let points_amount = u64_from_le_bytes(slice_subrange(ctx.voucher.data.as_slice(), 40, 48));
    proof {
        lemma_identity_extensional(buyer, ctx.user_account.authority);
    }
    if buyer != ctx.user_account.authority {
        return Err(ErrorCode::UnauthorizedVoucher);
    }
    let total = match ctx.user_account.total_points.checked_add(points_amount) {
        Some(total) => total,
        None => {
            return Err(ErrorCode::Overflow);
        },
    };
    let available = match ctx.user_account.available_points.checked_add(points_amount) {
        Some(available) => available,
        None => {
            return Err(ErrorCode::Overflow);
        },
    };
    ctx.user_account.total_points = total;
    ctx.user_account.available_points = available;
    ctx.redemption_record = Some(
        VoucherRedemption {
            voucher: ctx.voucher.key,
            user: ctx.user_account.authority,
            points_amount,
            redeemed_at: now,
            bump,
        },
    );
    Ok(())
}

/// The seed that marks the identity of a session: `session`.
pub const SESSION_SEED: [u8; 7] = [115, 101, 115, 115, 105, 111, 110];

/// The seed that marks the identity of a user's ledger: `user`.
pub const USER_SEED: [u8; 4] = [117, 115, 101, 114];

/// The seed that marks the identity of a redemption record: `redemption`.
pub const REDEMPTION_SEED: [u8; 10] = [114, 101, 100, 101, 109, 112, 116, 105, 111, 110];

/// The seeds of a session: the mark, the owner, the start time and the
/// nonce, the numbers least significant byte first.
pub open spec fn session_seeds(user: Identity, timestamp: i64, nonce: u32) -> Seq<Seq<u8>> {
    seq![SESSION_SEED@, user@, i64_le_bytes(timestamp), spec_u32_to_le_bytes(nonce)]
}

/// The seeds of a user's ledger: the mark and the authority.
pub open spec fn user_seeds(authority: Identity) -> Seq<Seq<u8>> {
    seq![USER_SEED@, authority@]
}

/// The seeds of a redemption record: the mark and the voucher.
pub open spec fn redemption_seeds(voucher: Identity) -> Seq<Seq<u8>> {
    seq![REDEMPTION_SEED@, voucher@]
}

/// The identity of the session that a user starts at a time with a
/// nonce, and its bump. Two sessions of one user in one second differ in
/// the nonce, and so in their seeds.
pub fn session_address(user: &Identity, timestamp: i64, nonce: u32) -> (r: Option<(Identity, u8)>)
    ensures
        is_derived(r, charging_session_program(), session_seeds(*user, timestamp, nonce)),
{
    let mut seeds: Vec<Vec<u8>> = Vec::new();
    seeds.push(array_to_vec(&SESSION_SEED));
    seeds.push(user.to_vec());
    seeds.push(i64_to_le_bytes(timestamp));
    seeds.push(u32_to_le_bytes(nonce));
    proof {
        assert(seeds_view(seeds) =~= session_seeds(*user, timestamp, nonce));
    }
    derive_identity(&charging_session_program_id(), &seeds)
}

/// The identity of a user's ledger, and its bump.
pub fn user_address(authority: &Identity) -> (r: Option<(Identity, u8)>)
    ensures
        is_derived(r, charging_session_program(), user_seeds(*authority)),
{
    let mut seeds: Vec<Vec<u8>> = Vec::new();
    seeds.push(array_to_vec(&USER_SEED));
    seeds.push(authority.to_vec());
    proof {
        assert(seeds_view(seeds) =~= user_seeds(*authority));
    }
    derive_identity(&charging_session_program_id(), &seeds)
}

/// The identity of the redemption record of a voucher, and its bump.
pub fn redemption_address(voucher: &Identity) -> (r: Option<(Identity, u8)>)
    ensures
        is_derived(r, charging_session_program(), redemption_seeds(*voucher)),
{
    let mut seeds: Vec<Vec<u8>> = Vec::new();
    seeds.push(array_to_vec(&REDEMPTION_SEED));
    seeds.push(voucher.to_vec());
    proof {
        assert(seeds_view(seeds) =~= redemption_seeds(*voucher));
    }
    derive_identity(&charging_session_program_id(), &seeds)
}

} // verus!
