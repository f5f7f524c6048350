//! The virtual-plot registry: who owns a simulated charging location, what
//! charger stands on it, and the revenue it has gathered.

use crate::error::ErrorKind;
use crate::identity::{
    derive_identity, is_derived, revenue_allow_list, revenue_callers, seeds_view, verify_caller,
    virtual_plot_program, virtual_plot_program_id, Identity,
};
use crate::seeds::array_to_vec;
use crate::transfer::{Transfer, TransferOutcome};
use vstd::bytes::{spec_u32_to_le_bytes, u32_to_le_bytes};
use vstd::prelude::*;

verus! {

/// Why an operation of the registry failed.
#[derive(Clone, Copy, Debug, PartialEq, Eq, Structural)]
pub enum ErrorCode {
    /// The charger power is not one of 3, 7, 11, 22 and 30 kW.
    InvalidChargerPower,
    /// No charger stands on the plot.
    NoChargerInstalled,
    /// The new power is not greater than the current one.
    InvalidUpgrade,
    /// The plot has no working charger.
    PlotNotOperational,
    /// The plot has gathered less revenue than the amount asked for.
    InsufficientRevenue,
    /// A counter would leave its range upwards.
    Overflow,
    /// A counter would leave its range downwards.
    Underflow,
    /// A record already exists where one was to be created.
    AlreadyExists,
    /// The signer does not own the plot.
    Unauthorized,
    /// The caller is not the game-engine dispatcher.
    UnauthorizedCaller,
    /// The payment did not go through.
    TransferFailed,
}

impl ErrorCode {
    /// The class that the error falls into.
    pub open spec fn kind_spec(self) -> ErrorKind {
        match self {
            ErrorCode::InvalidChargerPower => ErrorKind::InvalidInput,
            ErrorCode::NoChargerInstalled => ErrorKind::InvalidState,
            ErrorCode::InvalidUpgrade => ErrorKind::InvalidInput,
            ErrorCode::PlotNotOperational => ErrorKind::InvalidState,
            ErrorCode::InsufficientRevenue => ErrorKind::InsufficientBalance,
            ErrorCode::Overflow => ErrorKind::ArithmeticOverflow,
            ErrorCode::Underflow => ErrorKind::ArithmeticUnderflow,
            ErrorCode::AlreadyExists => ErrorKind::AlreadyExists,
            ErrorCode::Unauthorized => ErrorKind::Unauthorized,
            ErrorCode::UnauthorizedCaller => ErrorKind::Unauthorized,
            ErrorCode::TransferFailed => ErrorKind::TransferFailed,
        }
    }

    /// The class that the error falls into.
    #[verifier::when_used_as_spec(kind_spec)]
    pub fn kind(self) -> (k: ErrorKind)
        ensures
            k == self.kind_spec(),
    {
        match self {
            ErrorCode::InvalidChargerPower => ErrorKind::InvalidInput,
            ErrorCode::NoChargerInstalled => ErrorKind::InvalidState,
            ErrorCode::InvalidUpgrade => ErrorKind::InvalidInput,
            ErrorCode::PlotNotOperational => ErrorKind::InvalidState,
            ErrorCode::InsufficientRevenue => ErrorKind::InsufficientBalance,
            ErrorCode::Overflow => ErrorKind::ArithmeticOverflow,
            ErrorCode::Underflow => ErrorKind::ArithmeticUnderflow,
            ErrorCode::AlreadyExists => ErrorKind::AlreadyExists,
            ErrorCode::Unauthorized => ErrorKind::Unauthorized,
            ErrorCode::UnauthorizedCaller => ErrorKind::Unauthorized,
            ErrorCode::TransferFailed => ErrorKind::TransferFailed,
        }
    }

    /// What the error says, in words.
    pub open spec fn message_spec(self) -> Seq<char> {
        match self {
            ErrorCode::InvalidChargerPower => {
                "Invalid charger power. Must be 3, 7, 11, 22, or 30 kW"@
            },
            ErrorCode::NoChargerInstalled => "No charger installed on this plot"@,
            ErrorCode::InvalidUpgrade => "Invalid upgrade: new power must be greater than current"@,
            ErrorCode::PlotNotOperational => "Plot is not operational"@,
            ErrorCode::InsufficientRevenue => "Insufficient revenue to withdraw"@,
            ErrorCode::Overflow => "Arithmetic overflow"@,
            ErrorCode::Underflow => "Arithmetic underflow"@,
            ErrorCode::AlreadyExists => "Record already exists"@,
            ErrorCode::Unauthorized => "Signer does not own the plot"@,
            ErrorCode::UnauthorizedCaller => {
                "Unauthorized caller - only the game engine can record sessions"@
            },
            ErrorCode::TransferFailed => "Transfer failed"@,
        }
    }

    /// What the error says, in words.
    pub fn message(self) -> (text: &'static str)
        ensures
            text@ == self.message_spec(),
    {
        match self {
            ErrorCode::InvalidChargerPower => {
                "Invalid charger power. Must be 3, 7, 11, 22, or 30 kW"
            },
            ErrorCode::NoChargerInstalled => "No charger installed on this plot",
            ErrorCode::InvalidUpgrade => "Invalid upgrade: new power must be greater than current",
            ErrorCode::PlotNotOperational => "Plot is not operational",
            ErrorCode::InsufficientRevenue => "Insufficient revenue to withdraw",
            ErrorCode::Overflow => "Arithmetic overflow",
            ErrorCode::Underflow => "Arithmetic underflow",
            ErrorCode::AlreadyExists => "Record already exists",
            ErrorCode::Unauthorized => "Signer does not own the plot",
            ErrorCode::UnauthorizedCaller => {
                "Unauthorized caller - only the game engine can record sessions"
            },
            ErrorCode::TransferFailed => "Transfer failed",
        }
    }
}

/// A simulated charging location.
#[derive(Clone, Copy, Debug, PartialEq, Eq)]
pub struct VirtualPlot {
    pub owner: Identity,
    pub plot_id: u32,
    /// Degrees of latitude times 1,000,000.
    pub latitude: i32,
    /// Degrees of longitude times 1,000,000.
    pub longitude: i32,
    pub purchase_price: u64,
    /// The power of the charger in kW; 0 while none is installed.
    pub charger_power_kw: u16,
    pub total_revenue: u64,
    pub total_sessions: u64,
    pub is_operational: bool,
    pub bump: u8,
}

/// Whether a charger of this power, in kW, can be installed.
pub open spec fn valid_charger_power(power_kw: u16) -> bool {
    power_kw == 3 || power_kw == 7 || power_kw == 11 || power_kw == 22 || power_kw == 30
}

/// Whether a charger of this power, in kW, can be installed: one of 3, 7,
/// 11, 22 and 30.
#[verifier::when_used_as_spec(valid_charger_power)]
pub fn is_valid_charger_power(power_kw: u16) -> (valid: bool)
    ensures
        valid == valid_charger_power(power_kw),
{
    power_kw == 3 || power_kw == 7 || power_kw == 11 || power_kw == 22 || power_kw == 30
}

/// The records that purchasing a plot touches.
#[derive(Clone, Copy, Debug, PartialEq, Eq)]
pub struct PurchasePlot {
    /// The slot at the identity that the plot's number derives. It is
    /// `None` while nobody owns the plot.
    pub plot: Option<VirtualPlot>,
    /// The signer, who pays.
    pub buyer: Identity,
    /// The treasury, which is paid.
    pub treasury: Identity,
}

/// The transfer that the purchase of a plot requires, or the reason for
/// which the purchase cannot go ahead.
pub open spec fn purchase_plot_due(ctx: PurchasePlot, price_lamports: u64) -> Result<
    Transfer,
    ErrorCode,
> {
    if ctx.plot is Some {
        Err(ErrorCode::AlreadyExists)
    } else {
        Ok(Transfer { from: ctx.buyer, to: ctx.treasury, amount: price_lamports })
    }
}

/// Names the transfer that purchasing a plot requires: the price, from the
/// buyer to the treasury.
///
/// Fails with `AlreadyExists` where the plot is owned. No transfer is to
/// be attempted then.
pub fn purchase_plot_transfer(ctx: &PurchasePlot, price_lamports: u64) -> (res: Result<
    Transfer,
    ErrorCode,
>)
    ensures
        res == purchase_plot_due(*ctx, price_lamports),
{
    if ctx.plot.is_some() {
        return Err(ErrorCode::AlreadyExists);
    }
    Ok(Transfer { from: ctx.buyer, to: ctx.treasury, amount: price_lamports })
}

/// What `purchase_plot` returns and leaves behind.
pub open spec fn purchase_plot_spec(
    ctx: PurchasePlot,
    plot_id: u32,
    latitude: i32,
    longitude: i32,
    price_lamports: u64,
    bump: u8,
    payment: TransferOutcome,
) -> (Result<(), ErrorCode>, PurchasePlot) {
    match purchase_plot_due(ctx, price_lamports) {
        Err(e) => (Err(e), ctx),
        Ok(_) => if payment == TransferOutcome::Failed {
            (Err(ErrorCode::TransferFailed), ctx)
        } else {
            (
                Ok(()),
                PurchasePlot {
                    plot: Some(
                        VirtualPlot {
                            owner: ctx.buyer,
                            plot_id,
                            latitude,
                            longitude,
                            purchase_price: price_lamports,
                            charger_power_kw: 0,
                            total_revenue: 0,
                            total_sessions: 0,
                            is_operational: false,
                            bump,
                        },
                    ),
                    ..ctx
                },
            )
        },
    }
}

/// Settles the purchase of a plot, given the outcome of the transfer that
/// `purchase_plot_transfer` named. Where the transfer completed, the plot
/// belongs to the buyer, with no charger, no revenue and no sessions.
///
/// Fails, and changes nothing, with `AlreadyExists` where the plot is
/// owned and with `TransferFailed` where the transfer failed.
pub fn purchase_plot(
    ctx: &mut PurchasePlot,
    plot_id: u32,
    latitude: i32,
    longitude: i32,
    price_lamports: u64,
    bump: u8,
    payment: TransferOutcome,
) -> (res: Result<(), ErrorCode>)
    ensures
        res is Ok <==> purchase_plot_due(*old(ctx), price_lamports) is Ok && payment
            == TransferOutcome::Completed,
        res is Err ==> *final(ctx) == *old(ctx),
        (res, *final(ctx)) == purchase_plot_spec(
            *old(ctx),
            plot_id,
            latitude,
            longitude,
            price_lamports,
            bump,
            payment,
        ),
{
    match purchase_plot_transfer(ctx, price_lamports) {
        Err(e) => {
            return Err(e);
        },
        Ok(_) => {},
    }
    match payment {
        TransferOutcome::Failed => {
            return Err(ErrorCode::TransferFailed);
        },
        TransferOutcome::Completed => {},
    }
    ctx.plot = Some(
        VirtualPlot {
            owner: ctx.buyer,
            plot_id,
            latitude,
            longitude,
            purchase_price: price_lamports,
            charger_power_kw: 0,
            total_revenue: 0,
            total_sessions: 0,
            is_operational: false,
            bump,
        },
    );
    Ok(())
}

/// The records that installing a charger touches.
#[derive(Clone, Copy, Debug, PartialEq, Eq)]
pub struct InstallCharger {
    pub plot: VirtualPlot,
    /// The signer, who must own the plot and pays.
    pub owner: Identity,
    /// The treasury, which is paid.
    pub treasury: Identity,
}

/// The transfer that installing a charger requires, or the reason for
/// which the installation cannot go ahead.
pub open spec fn install_charger_due(
    ctx: InstallCharger,
    charger_power_kw: u16,
    installation_cost: u64,
) -> Result<Transfer, ErrorCode> {
    if ctx.plot.owner != ctx.owner {
        Err(ErrorCode::Unauthorized)
    } else if !valid_charger_power(charger_power_kw) {
        Err(ErrorCode::InvalidChargerPower)
    } else {
        Ok(Transfer { from: ctx.owner, to: ctx.treasury, amount: installation_cost })
    }
}

/// Names the transfer that installing a charger requires: the cost, from
/// the owner to the treasury.
///
/// Fails where the signer does not own the plot (`Unauthorized`) or the
/// power is not one of 3, 7, 11, 22 and 30 kW (`InvalidChargerPower`). No
/// transfer is to be attempted then.
pub fn install_charger_transfer(
    ctx: &InstallCharger,
    charger_power_kw: u16,
    installation_cost: u64,
) -> (res: Result<Transfer, ErrorCode>)
    ensures
        res == install_charger_due(*ctx, charger_power_kw, installation_cost),
{
    if ctx.plot.owner != ctx.owner {
        return Err(ErrorCode::Unauthorized);
    }
    if !is_valid_charger_power(charger_power_kw) {
        return Err(ErrorCode::InvalidChargerPower);
    }
    Ok(Transfer { from: ctx.owner, to: ctx.treasury, amount: installation_cost })
}

/// What `install_charger` returns and leaves behind.
pub open spec fn install_charger_spec(
    ctx: InstallCharger,
    charger_power_kw: u16,
    installation_cost: u64,
    payment: TransferOutcome,
) -> (Result<(), ErrorCode>, InstallCharger) {
    match install_charger_due(ctx, charger_power_kw, installation_cost) {
        Err(e) => (Err(e), ctx),
        Ok(_) => if payment == TransferOutcome::Failed {
            (Err(ErrorCode::TransferFailed), ctx)
        } else {
            (
                Ok(()),
                InstallCharger {
                    plot: VirtualPlot { charger_power_kw, is_operational: true, ..ctx.plot },
                    ..ctx
                },
            )
        },
    }
}

/// Settles the installation of a charger, given the outcome of the
/// transfer that `install_charger_transfer` named. Where the transfer
/// completed, the plot has a charger of the given power and is
/// operational.
///
/// Fails, and changes nothing, for the reasons for which no transfer is
/// due, and with `TransferFailed` where the transfer failed.
pub fn install_charger(
    ctx: &mut InstallCharger,
    charger_power_kw: u16,
    installation_cost: u64,
    payment: TransferOutcome,
) -> (res: Result<(), ErrorCode>)
    ensures
        res is Ok <==> install_charger_due(
            *old(ctx),
            charger_power_kw,
            installation_cost,
        ) is Ok && payment == TransferOutcome::Completed,
        res is Err ==> *final(ctx) == *old(ctx),
        (res, *final(ctx)) == install_charger_spec(
            *old(ctx),
            charger_power_kw,
            installation_cost,
            payment,
        ),
{
    match install_charger_transfer(ctx, charger_power_kw, installation_cost) {
        Err(e) => {
            return Err(e);
        },
        Ok(_) => {},
    }
    match payment {
        TransferOutcome::Failed => {
            return Err(ErrorCode::TransferFailed);
        },
        TransferOutcome::Completed => {},
    }
    ctx.plot.charger_power_kw = charger_power_kw;
    ctx.plot.is_operational = true;
    Ok(())
}

/// The records that upgrading a charger touches.
#[derive(Clone, Copy, Debug, PartialEq, Eq)]
pub struct UpgradeCharger {
    pub plot: VirtualPlot,
    /// The signer, who must own the plot and pays.
    pub owner: Identity,
    /// The treasury, which is paid.
    pub treasury: Identity,
}

/// The transfer that upgrading a charger requires, or the reason for
/// which the upgrade cannot go ahead.
pub open spec fn upgrade_charger_due(
    ctx: UpgradeCharger,
    new_power_kw: u16,
    upgrade_cost: u64,
) -> Result<Transfer, ErrorCode> {
    if ctx.plot.owner != ctx.owner {
        Err(ErrorCode::Unauthorized)
    } else if ctx.plot.charger_power_kw == 0 {
        Err(ErrorCode::NoChargerInstalled)
    } else if new_power_kw <= ctx.plot.charger_power_kw {
        Err(ErrorCode::InvalidUpgrade)
    } else {
        Ok(Transfer { from: ctx.owner, to: ctx.treasury, amount: upgrade_cost })
    }
}

/// Names the transfer that upgrading a charger requires: the cost, from
/// the owner to the treasury.
///
/// Fails where the signer does not own the plot (`Unauthorized`), no
/// charger is installed (`NoChargerInstalled`), or the new power is not
/// greater than the current one (`InvalidUpgrade`). No transfer is to be
/// attempted then.
pub fn upgrade_charger_transfer(ctx: &UpgradeCharger, new_power_kw: u16, upgrade_cost: u64) -> (res:
    Result<Transfer, ErrorCode>)
    ensures
        res == upgrade_charger_due(*ctx, new_power_kw, upgrade_cost),
{
    if ctx.plot.owner != ctx.owner {
        return Err(ErrorCode::Unauthorized);
    }
    if ctx.plot.charger_power_kw == 0 {
        return Err(ErrorCode::NoChargerInstalled);
    }
    if new_power_kw <= ctx.plot.charger_power_kw {
        return Err(ErrorCode::InvalidUpgrade);
    }
    Ok(Transfer { from: ctx.owner, to: ctx.treasury, amount: upgrade_cost })
}

/// What `upgrade_charger` returns and leaves behind.
pub open spec fn upgrade_charger_spec(
    ctx: UpgradeCharger,
    new_power_kw: u16,
    upgrade_cost: u64,
    payment: TransferOutcome,
) -> (Result<(), ErrorCode>, UpgradeCharger) {
    match upgrade_charger_due(ctx, new_power_kw, upgrade_cost) {
        Err(e) => (Err(e), ctx),
        Ok(_) => if payment == TransferOutcome::Failed {
            (Err(ErrorCode::TransferFailed), ctx)
        } else {
            (
                Ok(()),
                UpgradeCharger {
                    plot: VirtualPlot { charger_power_kw: new_power_kw, ..ctx.plot },
                    ..ctx
                },
            )
        },
    }
}

/// Settles the upgrade of a charger, given the outcome of the transfer
/// that `upgrade_charger_transfer` named. Where the transfer completed,
/// the charger has the new power.
///
/// Fails, and changes nothing, for the reasons for which no transfer is
/// due, and with `TransferFailed` where the transfer failed.
pub fn upgrade_charger(
    ctx: &mut UpgradeCharger,
    new_power_kw: u16,
    upgrade_cost: u64,
    payment: TransferOutcome,
) -> (res: Result<(), ErrorCode>)
    ensures
        res is Ok <==> upgrade_charger_due(*old(ctx), new_power_kw, upgrade_cost) is Ok && payment
            == TransferOutcome::Completed,
        res is Err ==> *final(ctx) == *old(ctx),
        (res, *final(ctx)) == upgrade_charger_spec(*old(ctx), new_power_kw, upgrade_cost, payment),
{
    match upgrade_charger_transfer(ctx, new_power_kw, upgrade_cost) {
        Err(e) => {
            return Err(e);
        },
        Ok(_) => {},
    }
    match payment {
        TransferOutcome::Failed => {
            return Err(ErrorCode::TransferFailed);
        },
        TransferOutcome::Completed => {},
    }
    ctx.plot.charger_power_kw = new_power_kw;
    Ok(())
}

/// The records that recording a session on a plot touches.
#[derive(Clone, Copy, Debug, PartialEq, Eq)]
pub struct RecordSession {
    /// The identity of the plot, which is paid.
    pub plot_key: Identity,
    pub plot: VirtualPlot,
    /// The signer who uses the charger and pays for the session.
    pub payer: Identity,
    /// The identity of the calling service, as the platform authenticated
    /// it.
    pub authority: Identity,
}

/// The transfer that recording a session requires, or the reason for
/// which the session cannot be recorded.
pub open spec fn record_session_due(ctx: RecordSession, revenue_lamports: u64) -> Result<
    Transfer,
    ErrorCode,
> {
    if !revenue_allow_list().contains(ctx.authority) {
        Err(ErrorCode::UnauthorizedCaller)
    } else if !ctx.plot.is_operational {
        Err(ErrorCode::PlotNotOperational)
    } else if ctx.plot.total_revenue + revenue_lamports > u64::MAX || ctx.plot.total_sessions + 1
        > u64::MAX {
        Err(ErrorCode::Overflow)
    } else {
        Ok(Transfer { from: ctx.payer, to: ctx.plot_key, amount: revenue_lamports })
    }
}

/// Names the transfer that recording a session requires: the revenue,
/// from the payer to the plot.
///
/// Fails where the caller is not the game-engine dispatcher
/// (`UnauthorizedCaller`), the plot is not operational
/// (`PlotNotOperational`), or the plot's revenue or session count has no
/// room (`Overflow`). No transfer is to be attempted then.
pub fn record_session_transfer(ctx: &RecordSession, revenue_lamports: u64) -> (res: Result<
    Transfer,
    ErrorCode,
>)
    ensures
        res == record_session_due(*ctx, revenue_lamports),
{
    let allowed = revenue_callers();
    if !verify_caller(&ctx.authority, allowed.as_slice()) {
        return Err(ErrorCode::UnauthorizedCaller);
    }
    if !ctx.plot.is_operational {
        return Err(ErrorCode::PlotNotOperational);
    }
    if ctx.plot.total_revenue.checked_add(revenue_lamports).is_none() {
        return Err(ErrorCode::Overflow);
    }
    if ctx.plot.total_sessions.checked_add(1).is_none() {
        return Err(ErrorCode::Overflow);
    }
    Ok(Transfer { from: ctx.payer, to: ctx.plot_key, amount: revenue_lamports })
}

/// What `record_session` returns and leaves behind.
pub open spec fn record_session_spec(
    ctx: RecordSession,
    revenue_lamports: u64,
    payment: TransferOutcome,
) -> (Result<(), ErrorCode>, RecordSession) {
    match record_session_due(ctx, revenue_lamports) {
        Err(e) => (Err(e), ctx),
        Ok(_) => if payment == TransferOutcome::Failed {
            (Err(ErrorCode::TransferFailed), ctx)
        } else {
            (
                Ok(()),
                RecordSession {
                    plot: VirtualPlot {
                        total_revenue: (ctx.plot.total_revenue + revenue_lamports) as u64,
                        total_sessions: (ctx.plot.total_sessions + 1) as u64,
                        ..ctx.plot
                    },
                    ..ctx
                },
            )
        },
    }
}

/// Records a session on a plot, on behalf of the game-engine dispatcher,
/// given the outcome of the transfer that `record_session_transfer`
/// named. Where the transfer completed, the revenue is added to the
/// plot's total and the session count grows by one.
///
/// Fails, and changes nothing, for the reasons for which no transfer is
/// due, and with `TransferFailed` where the transfer failed.
pub fn record_session(
    ctx: &mut RecordSession,
    revenue_lamports: u64,
    payment: TransferOutcome,
) -> (res: Result<(), ErrorCode>)
    ensures
        res is Ok <==> record_session_due(*old(ctx), revenue_lamports) is Ok && payment
            == TransferOutcome::Completed,
        res is Err ==> *final(ctx) == *old(ctx),
        (res, *final(ctx)) == record_session_spec(*old(ctx), revenue_lamports, payment),
{
    match record_session_transfer(ctx, revenue_lamports) {
        Err(e) => {
            return Err(e);
        },
        Ok(_) => {},
    }
    match payment {
        TransferOutcome::Failed => {
            return Err(ErrorCode::TransferFailed);
        },
        TransferOutcome::Completed => {},
    }
    ctx.plot.total_revenue = ctx.plot.total_revenue + revenue_lamports;
    ctx.plot.total_sessions = ctx.plot.total_sessions + 1;
    Ok(())
}

/// The records that withdrawing revenue touches.
#[derive(Clone, Copy, Debug, PartialEq, Eq)]
pub struct WithdrawRevenue {
    /// The identity of the plot, which pays.
    pub plot_key: Identity,
    pub plot: VirtualPlot,
    /// The signer, who must own the plot and is paid.
    pub owner: Identity,
}

/// The transfer that a withdrawal requires, or the reason for which the
/// withdrawal cannot go ahead.
pub open spec fn withdraw_revenue_due(ctx: WithdrawRevenue, amount: u64) -> Result<
    Transfer,
    ErrorCode,
> {
    if ctx.plot.owner != ctx.owner {
        Err(ErrorCode::Unauthorized)
    } else if ctx.plot.total_revenue < amount {
        Err(ErrorCode::InsufficientRevenue)
    } else {
        Ok(Transfer { from: ctx.plot_key, to: ctx.owner, amount })
    }
}

/// Names the transfer that a withdrawal requires: the amount, from the
/// plot to its owner.
///
/// Fails where the signer does not own the plot (`Unauthorized`) or the
/// plot has gathered less than the amount (`InsufficientRevenue`). No
/// transfer is to be attempted then.
pub fn withdraw_revenue_transfer(ctx: &WithdrawRevenue, amount: u64) -> (res: Result<
    Transfer,
    ErrorCode,
>)
    ensures
        res == withdraw_revenue_due(*ctx, amount),
{
    if ctx.plot.owner != ctx.owner {
        return Err(ErrorCode::Unauthorized);
    }
    if ctx.plot.total_revenue < amount {
        return Err(ErrorCode::InsufficientRevenue);
    }
    Ok(Transfer { from: ctx.plot_key, to: ctx.owner, amount })
}

/// What `withdraw_revenue` returns and leaves behind.
pub open spec fn withdraw_revenue_spec(
    ctx: WithdrawRevenue,
    amount: u64,
    payment: TransferOutcome,
) -> (Result<(), ErrorCode>, WithdrawRevenue) {
    match withdraw_revenue_due(ctx, amount) {
        Err(e) => (Err(e), ctx),
        Ok(_) => if payment == TransferOutcome::Failed {
            (Err(ErrorCode::TransferFailed), ctx)
        } else {
            (
                Ok(()),
                WithdrawRevenue {
                    plot: VirtualPlot {
                        total_revenue: (ctx.plot.total_revenue - amount) as u64,
                        ..ctx.plot
                    },
                    ..ctx
                },
            )
        },
    }
}

/// Settles a withdrawal of revenue, given the outcome of the transfer
/// that `withdraw_revenue_transfer` named. Where the transfer completed,
/// the plot's revenue is lower by the amount.
///
/// Fails, and changes nothing, for the reasons for which no transfer is
/// due, and with `TransferFailed` where the transfer failed.
pub fn withdraw_revenue(ctx: &mut WithdrawRevenue, amount: u64, payment: TransferOutcome) -> (res:
    Result<(), ErrorCode>)
    ensures
        res is Ok <==> withdraw_revenue_due(*old(ctx), amount) is Ok && payment
            == TransferOutcome::Completed,
        res is Err ==> *final(ctx) == *old(ctx),
        (res, *final(ctx)) == withdraw_revenue_spec(*old(ctx), amount, payment),
{
    match withdraw_revenue_transfer(ctx, amount) {
        Err(e) => {
            return Err(e);
        },
        Ok(_) => {},
    }
    match payment {
        TransferOutcome::Failed => {
            return Err(ErrorCode::TransferFailed);
        },
        TransferOutcome::Completed => {},
    }
    let revenue = match ctx.plot.total_revenue.checked_sub(amount) {
        Some(revenue) => revenue,
        None => {
            return Err(ErrorCode::Underflow);
        },
    };
    ctx.plot.total_revenue = revenue;
    Ok(())
}

/// The seed that marks the identity of a plot: `plot`.
pub const PLOT_SEED: [u8; 4] = [112, 108, 111, 116];

/// The seed that marks the identity of the treasury: `treasury`.
pub const TREASURY_SEED: [u8; 8] = [116, 114, 101, 97, 115, 117, 114, 121];

/// The seeds of a plot: the mark and the plot's number, least
/// significant byte first.
pub open spec fn plot_seeds(plot_id: u32) -> Seq<Seq<u8>> {
    seq![PLOT_SEED@, spec_u32_to_le_bytes(plot_id)]
}

/// The seeds of the treasury: the mark alone.
pub open spec fn treasury_seeds() -> Seq<Seq<u8>> {
    seq![TREASURY_SEED@]
}

/// The identity of the plot with a number, and its bump.
pub fn plot_address(plot_id: u32) -> (r: Option<(Identity, u8)>)
    ensures
        is_derived(r, virtual_plot_program(), plot_seeds(plot_id)),
{
    let mut seeds: Vec<Vec<u8>> = Vec::new();
    seeds.push(array_to_vec(&PLOT_SEED));
    seeds.push(u32_to_le_bytes(plot_id));
    proof {
        assert(seeds_view(seeds) =~= plot_seeds(plot_id));
    }
    derive_identity(&virtual_plot_program_id(), &seeds)
}

/// The identity of the treasury, which is paid for plots and chargers,
/// and its bump.
pub fn treasury_address() -> (r: Option<(Identity, u8)>)
    ensures
        is_derived(r, virtual_plot_program(), treasury_seeds()),
{
    let mut seeds: Vec<Vec<u8>> = Vec::new();
    seeds.push(array_to_vec(&TREASURY_SEED));
    proof {
        assert(seeds_view(seeds) =~= treasury_seeds());
    }
    derive_identity(&virtual_plot_program_id(), &seeds)
}

} // verus!
