//! The points marketplace: points sold for value, listings between users,
//! and the vouchers that a purchase issues.

use crate::error::ErrorKind;
use crate::identity::{
    derive_identity, is_derived, marketplace_program, marketplace_program_id, seeds_view,
    verify_caller, voucher_allow_list, voucher_callers, Identity,
};
use crate::seeds::{array_to_vec, i64_le_bytes, i64_to_le_bytes};
use crate::transfer::{Transfer, TransferOutcome};
use vstd::bytes::{spec_u64_to_le_bytes, u64_to_le_bytes};
use vstd::prelude::*;

verus! {

/// Why an operation of the marketplace failed.
#[derive(Clone, Copy, Debug, PartialEq, Eq, Structural)]
pub enum ErrorCode {
    /// The listing was bought or cancelled.
    ListingNotActive,
    /// A price would leave its range upwards.
    Overflow,
    /// A division by zero.
    DivisionByZero,
    /// The voucher has been marked redeemed.
    VoucherAlreadyRedeemed,
    /// The caller is not the session ledger.
    UnauthorizedCaller,
    /// A record already exists where one was to be created.
    AlreadyExists,
    /// The signer does not own the record.
    Unauthorized,
    /// The payment did not go through.
    TransferFailed,
}

impl ErrorCode {
    /// The class that the error falls into.
    pub open spec fn kind_spec(self) -> ErrorKind {
        match self {
            ErrorCode::ListingNotActive => ErrorKind::InvalidState,
            ErrorCode::Overflow => ErrorKind::ArithmeticOverflow,
            ErrorCode::DivisionByZero => ErrorKind::InvalidInput,
            ErrorCode::VoucherAlreadyRedeemed => ErrorKind::InvalidState,
            ErrorCode::UnauthorizedCaller => ErrorKind::Unauthorized,
            ErrorCode::AlreadyExists => ErrorKind::AlreadyExists,
            ErrorCode::Unauthorized => ErrorKind::Unauthorized,
            ErrorCode::TransferFailed => ErrorKind::TransferFailed,
        }
    }

    /// The class that the error falls into.
    #[verifier::when_used_as_spec(kind_spec)]
    pub fn kind(self) -> (k: ErrorKind)
        ensures
            k == self.kind_spec(),
    {
        match self {
            ErrorCode::ListingNotActive => ErrorKind::InvalidState,
            ErrorCode::Overflow => ErrorKind::ArithmeticOverflow,
            ErrorCode::DivisionByZero => ErrorKind::InvalidInput,
            ErrorCode::VoucherAlreadyRedeemed => ErrorKind::InvalidState,
            ErrorCode::UnauthorizedCaller => ErrorKind::Unauthorized,
            ErrorCode::AlreadyExists => ErrorKind::AlreadyExists,
            ErrorCode::Unauthorized => ErrorKind::Unauthorized,
            ErrorCode::TransferFailed => ErrorKind::TransferFailed,
        }
    }

    /// What the error says, in words.
    pub open spec fn message_spec(self) -> Seq<char> {
        match self {
            ErrorCode::ListingNotActive => "Listing is not active"@,
            ErrorCode::Overflow => "Arithmetic overflow"@,
            ErrorCode::DivisionByZero => "Division by zero"@,
            ErrorCode::VoucherAlreadyRedeemed => "Voucher already redeemed"@,
            ErrorCode::UnauthorizedCaller => {
                "Unauthorized caller - only charging_session program can mark vouchers as redeemed"@
            },
            ErrorCode::AlreadyExists => "Record already exists"@,
            ErrorCode::Unauthorized => "Signer does not own the record"@,
            ErrorCode::TransferFailed => "Transfer failed"@,
        }
    }

    /// What the error says, in words.
    pub fn message(self) -> (text: &'static str)
        ensures
            text@ == self.message_spec(),
    {
        match self {
            ErrorCode::ListingNotActive => "Listing is not active",
            ErrorCode::Overflow => "Arithmetic overflow",
            ErrorCode::DivisionByZero => "Division by zero",
            ErrorCode::VoucherAlreadyRedeemed => "Voucher already redeemed",
            ErrorCode::UnauthorizedCaller => {
                "Unauthorized caller - only charging_session program can mark vouchers as redeemed"
            },
            ErrorCode::AlreadyExists => "Record already exists",
            ErrorCode::Unauthorized => "Signer does not own the record",
            ErrorCode::TransferFailed => "Transfer failed",
        }
    }
}

/// The marketplace's pricing and revenue, of which there is one. Each
/// purchase from the marketplace adds to the points sold and the revenue.
#[derive(Clone, Copy, Debug, PartialEq, Eq)]
pub struct Marketplace {
    pub authority: Identity,
    pub total_points_sold: u64,
    pub total_revenue_lamports: u64,
    pub price_per_point_lamports: u64,
    pub bump: u8,
}

/// A seller's offer. The points are not held back: the listing is a
/// commitment, not a transfer.
#[derive(Clone, Copy, Debug, PartialEq, Eq)]
pub struct PointsListing {
    pub seller: Identity,
    pub points_amount: u64,
    pub price_per_point: u64,
    pub is_active: bool,
    pub created_at: i64,
    pub bump: u8,
}

/// A claim on points that can be redeemed once.
#[derive(Clone, Copy, Debug, PartialEq, Eq)]
pub struct PointsVoucher {
    pub buyer: Identity,
    pub points_amount: u64,
    pub is_redeemed: bool,
    pub created_at: i64,
    pub bump: u8,
}

/// The price of a point when the marketplace is created.
pub const INITIAL_PRICE_PER_POINT: u64 = 1_000_000;

/// The part of the full price that a buyer pays the marketplace, in
/// percent.
pub const DISCOUNT_PERCENTAGE: u64 = 50;

/// The records that initialising the marketplace touches.
#[derive(Clone, Copy, Debug, PartialEq, Eq)]
pub struct InitializeMarketplace {
    /// The slot of the marketplace. It is `None` while none exists.
    pub marketplace: Option<Marketplace>,
    /// The signer, who will be the marketplace's authority.
    pub authority: Identity,
}

/// What `initialize_marketplace` returns and leaves behind.
pub open spec fn initialize_marketplace_spec(ctx: InitializeMarketplace, bump: u8) -> (
    Result<(), ErrorCode>,
    InitializeMarketplace,
) {
    if ctx.marketplace is Some {
        (Err(ErrorCode::AlreadyExists), ctx)
    } else {
        (
            Ok(()),
            InitializeMarketplace {
                marketplace: Some(
                    Marketplace {
                        authority: ctx.authority,
                        total_points_sold: 0,
                        total_revenue_lamports: 0,
                        price_per_point_lamports: INITIAL_PRICE_PER_POINT,
                        bump,
                    },
                ),
                authority: ctx.authority,
            },
        )
    }
}

/// Creates the marketplace, with nothing sold and the starting price of
/// 1,000,000 per point.
///
/// Fails with `AlreadyExists`, and changes nothing, where the marketplace
/// exists.
pub fn initialize_marketplace(ctx: &mut InitializeMarketplace, bump: u8) -> (res: Result<
    (),
    ErrorCode,
>)
    ensures
        res is Err ==> *final(ctx) == *old(ctx),
        (res, *final(ctx)) == initialize_marketplace_spec(*old(ctx), bump),
{
    if ctx.marketplace.is_some() {
        return Err(ErrorCode::AlreadyExists);
    }
    ctx.marketplace = Some(
        Marketplace {
            authority: ctx.authority,
            total_points_sold: 0,
            total_revenue_lamports: 0,
            price_per_point_lamports: INITIAL_PRICE_PER_POINT,
            bump,
        },
    );
    Ok(())
}

/// The records that creating a listing touches.
#[derive(Clone, Copy, Debug, PartialEq, Eq)]
pub struct CreateListing {
    /// The slot at the identity that the seller and the timestamp derive.
    pub listing: Option<PointsListing>,
    /// The signer, who offers the points.
    pub seller: Identity,
}

/// What `create_listing` returns and leaves behind.
pub open spec fn create_listing_spec(
    ctx: CreateListing,
    points_amount: u64,
    price_per_point: u64,
    timestamp: i64,
    bump: u8,
) -> (Result<(), ErrorCode>, CreateListing) {
    if ctx.listing is Some {
        (Err(ErrorCode::AlreadyExists), ctx)
    } else {
        (
            Ok(()),
            CreateListing {
                listing: Some(
                    PointsListing {
                        seller: ctx.seller,
                        points_amount,
                        price_per_point,
                        is_active: true,
                        created_at: timestamp,
                        bump,
                    },
                ),
                seller: ctx.seller,
            },
        )
    }
}

/// Creates an active listing of the signer. The seller's balance is
/// neither checked nor held back.
///
/// Fails with `AlreadyExists`, and changes nothing, where a listing exists
/// in the slot.
pub fn create_listing(
    ctx: &mut CreateListing,
    points_amount: u64,
    price_per_point: u64,
    timestamp: i64,
    bump: u8,
) -> (res: Result<(), ErrorCode>)
    ensures
        res is Err ==> *final(ctx) == *old(ctx),
        (res, *final(ctx)) == create_listing_spec(
            *old(ctx),
            points_amount,
            price_per_point,
            timestamp,
            bump,
        ),
{
    if ctx.listing.is_some() {
        return Err(ErrorCode::AlreadyExists);
    }
    ctx.listing = Some(
        PointsListing {
            seller: ctx.seller,
            points_amount,
            price_per_point,
            is_active: true,
            created_at: timestamp,
            bump,
        },
    );
    Ok(())
}

/// The records that buying from the marketplace touches.
#[derive(Clone, Copy, Debug, PartialEq, Eq)]
pub struct BuyFromMarketplace {
    /// The identity of the marketplace, which is paid.
    pub marketplace_key: Identity,
    pub marketplace: Marketplace,
    /// The slot at the identity that the buyer and the timestamp derive.
    pub voucher: Option<PointsVoucher>,
    /// The signer, who pays.
    pub buyer: Identity,
}

/// The full price of a number of points.
pub open spec fn full_price(price_per_point: u64, points_amount: u64) -> int {
    price_per_point * points_amount
}

/// What a buyer pays the marketplace for a number of points: half the
/// full price, rounded down.
pub open spec fn discounted_price(price_per_point: u64, points_amount: u64) -> int {
    full_price(price_per_point, points_amount) * 50 / 100
}

/// Whether the price of a purchase from the marketplace can be computed
/// in 64 bits: the full price and fifty times the full price both fit.
pub open spec fn discounted_price_fits(price_per_point: u64, points_amount: u64) -> bool {
    full_price(price_per_point, points_amount) * 50 <= u64::MAX
}

/// Whether the marketplace's counters have room for a purchase: the
/// points sold with the points bought, and the revenue with the price
/// paid, both fit in 64 bits.
pub open spec fn sale_fits(marketplace: Marketplace, points_amount: u64) -> bool {
    &&& marketplace.total_points_sold + points_amount <= u64::MAX
    &&& marketplace.total_revenue_lamports + discounted_price(
        marketplace.price_per_point_lamports,
        points_amount,
    ) <= u64::MAX
}

/// The marketplace after it has sold a number of points: the points are
/// added to the points sold, and the price paid to the revenue.
pub open spec fn marketplace_after_sale(
    marketplace: Marketplace,
    points_amount: u64,
) -> Marketplace {
    Marketplace {
        total_points_sold: (marketplace.total_points_sold + points_amount) as u64,
        total_revenue_lamports: (marketplace.total_revenue_lamports + discounted_price(
            marketplace.price_per_point_lamports,
            points_amount,
        )) as u64,
        ..marketplace
    }
}

/// The transfer that a purchase from the marketplace requires, or the
/// reason for which the purchase cannot go ahead.
pub open spec fn buy_from_marketplace_due(ctx: BuyFromMarketplace, points_amount: u64) -> Result<
    Transfer,
    ErrorCode,
> {
    if ctx.voucher is Some {
        Err(ErrorCode::AlreadyExists)
    } else if !discounted_price_fits(ctx.marketplace.price_per_point_lamports, points_amount) {
        Err(ErrorCode::Overflow)
    } else if !sale_fits(ctx.marketplace, points_amount) {
        Err(ErrorCode::Overflow)
    } else {
        Ok(
            Transfer {
                from: ctx.buyer,
                to: ctx.marketplace_key,
                amount: discounted_price(
                    ctx.marketplace.price_per_point_lamports,
                    points_amount,
                ) as u64,
            },
        )
    }
}

/// Names the transfer that buying `points_amount` points from the
/// marketplace requires: from the buyer to the marketplace, half the full
/// price, rounded down.
///
/// Fails where a voucher exists in the slot (`AlreadyExists`), the price
/// cannot be computed in 64 bits (`Overflow`), or the marketplace's
/// counters have no room for the points and the price (`Overflow`). No
/// transfer is to be attempted then.
pub fn buy_from_marketplace_transfer(ctx: &BuyFromMarketplace, points_amount: u64) -> (res: Result<
    Transfer,
    ErrorCode,
>)
    ensures
        res == buy_from_marketplace_due(*ctx, points_amount),
{
    if ctx.voucher.is_some() {
        return Err(ErrorCode::AlreadyExists);
    }
    let full = match ctx.marketplace.price_per_point_lamports.checked_mul(points_amount) {
        Some(full) => full,
        None => {
            return Err(ErrorCode::Overflow);
        },
    };
    let scaled = match full.checked_mul(DISCOUNT_PERCENTAGE) {
        Some(scaled) => scaled,
        None => {
            return Err(ErrorCode::Overflow);
        },
    };
    let discounted = match scaled.checked_div(100) {
        Some(discounted) => discounted,
        None => {
            return Err(ErrorCode::DivisionByZero);
        },
    };
    if ctx.marketplace.total_points_sold.checked_add(points_amount).is_none() {
        return Err(ErrorCode::Overflow);
    }
    if ctx.marketplace.total_revenue_lamports.checked_add(discounted).is_none() {
        return Err(ErrorCode::Overflow);
    }
    Ok(Transfer { from: ctx.buyer, to: ctx.marketplace_key, amount: discounted })
}

/// What `buy_from_marketplace` returns and leaves behind.
pub open spec fn buy_from_marketplace_spec(
    ctx: BuyFromMarketplace,
    points_amount: u64,
    timestamp: i64,
    bump: u8,
    payment: TransferOutcome,
) -> (Result<(), ErrorCode>, BuyFromMarketplace) {
    match buy_from_marketplace_due(ctx, points_amount) {
        Err(e) => (Err(e), ctx),
        Ok(_) => if payment == TransferOutcome::Failed {
            (Err(ErrorCode::TransferFailed), ctx)
        } else {
            (
                Ok(()),
                BuyFromMarketplace {
                    marketplace: marketplace_after_sale(ctx.marketplace, points_amount),
                    voucher: Some(
                        PointsVoucher {
                            buyer: ctx.buyer,
                            points_amount,
                            is_redeemed: false,
                            created_at: timestamp,
                            bump,
                        },
                    ),
                    ..ctx
                },
            )
        },
    }
}

/// Settles a purchase of `points_amount` points from the marketplace,
/// given the outcome of the transfer that `buy_from_marketplace_transfer`
/// named. Where the transfer completed, the buyer gets a voucher for the
/// points, not yet redeemed, and the marketplace books the sale: the
/// points are added to its points sold and the price paid to its revenue.
///
/// Fails, and changes nothing, for the reasons for which no transfer is
/// due, and with `TransferFailed` where the transfer failed.
pub fn buy_from_marketplace(
    ctx: &mut BuyFromMarketplace,
    points_amount: u64,
    timestamp: i64,
    bump: u8,
    payment: TransferOutcome,
) -> (res: Result<(), ErrorCode>)
    ensures
        res is Ok <==> buy_from_marketplace_due(*old(ctx), points_amount) is Ok && payment
            == TransferOutcome::Completed,
        res is Err ==> *final(ctx) == *old(ctx),
        (res, *final(ctx)) == buy_from_marketplace_spec(
            *old(ctx),
            points_amount,
            timestamp,
            bump,
            payment,
        ),
{
    let paid = match buy_from_marketplace_transfer(ctx, points_amount) {
        Err(e) => {
            return Err(e);
        },
        Ok(due) => due.amount,
    };
    match payment {
        TransferOutcome::Failed => {
            return Err(ErrorCode::TransferFailed);
        },
        TransferOutcome::Completed => {},
    }
    ctx.marketplace.total_points_sold = ctx.marketplace.total_points_sold + points_amount;
    ctx.marketplace.total_revenue_lamports = ctx.marketplace.total_revenue_lamports + paid;
    ctx.voucher = Some(
        PointsVoucher {
            buyer: ctx.buyer,
            points_amount,
            is_redeemed: false,
            created_at: timestamp,
            bump,
        },
    );
    Ok(())
}

/// The records that buying from a listing touches.
#[derive(Clone, Copy, Debug, PartialEq, Eq)]
pub struct BuyFromListing {
    pub listing: PointsListing,
    /// The slot at the identity that the buyer and the timestamp derive.
    pub voucher: Option<PointsVoucher>,
    /// The signer, who pays the seller.
    pub buyer: Identity,
}

/// The price of all the points of a listing.
pub open spec fn listing_price(listing: PointsListing) -> int {
    listing.price_per_point * listing.points_amount
}

/// The transfer that a purchase from a listing requires, or the reason
/// for which the purchase cannot go ahead.
pub open spec fn buy_from_listing_due(ctx: BuyFromListing) -> Result<Transfer, ErrorCode> {
    if ctx.voucher is Some {
        Err(ErrorCode::AlreadyExists)
    } else if !ctx.listing.is_active {
        Err(ErrorCode::ListingNotActive)
    } else if listing_price(ctx.listing) > u64::MAX {
        Err(ErrorCode::Overflow)
    } else {
        Ok(
            Transfer {
                from: ctx.buyer,
                to: ctx.listing.seller,
                amount: listing_price(ctx.listing) as u64,
            },
        )
    }
}

/// Names the transfer that buying a listing requires: from the buyer to
/// the seller, the price per point times the points.
///
/// Fails where a voucher exists in the slot (`AlreadyExists`), the listing
/// is not active (`ListingNotActive`), or the price does not fit in 64
/// bits (`Overflow`). No transfer is to be attempted then.
pub fn buy_from_listing_transfer(ctx: &BuyFromListing) -> (res: Result<Transfer, ErrorCode>)
    ensures
        res == buy_from_listing_due(*ctx),
{
    if ctx.voucher.is_some() {
        return Err(ErrorCode::AlreadyExists);
    }
    if !ctx.listing.is_active {
        return Err(ErrorCode::ListingNotActive);
    }
    let total = match ctx.listing.price_per_point.checked_mul(ctx.listing.points_amount) {
        Some(total) => total,
        None => {
            return Err(ErrorCode::Overflow);
        },
    };
    Ok(Transfer { from: ctx.buyer, to: ctx.listing.seller, amount: total })
}

/// What `buy_from_listing` returns and leaves behind.
pub open spec fn buy_from_listing_spec(
    ctx: BuyFromListing,
    timestamp: i64,
    bump: u8,
    payment: TransferOutcome,
) -> (Result<(), ErrorCode>, BuyFromListing) {
    match buy_from_listing_due(ctx) {
        Err(e) => (Err(e), ctx),
        Ok(_) => if payment == TransferOutcome::Failed {
            (Err(ErrorCode::TransferFailed), ctx)
        } else {
            (
                Ok(()),
                BuyFromListing {
                    listing: PointsListing { is_active: false, ..ctx.listing },
                    voucher: Some(
                        PointsVoucher {
                            buyer: ctx.buyer,
                            points_amount: ctx.listing.points_amount,
                            is_redeemed: false,
                            created_at: timestamp,
                            bump,
                        },
                    ),
                    buyer: ctx.buyer,
                },
            )
        },
    }
}

/// Settles the purchase of a listing, given the outcome of the transfer
/// that `buy_from_listing_transfer` named. Where the transfer completed,
/// the buyer gets a voucher for the listing's points and the listing is
/// no longer active: both or neither.
///
/// Fails, and changes nothing, for the reasons for which no transfer is
/// due, and with `TransferFailed` where the transfer failed: a failed
/// transfer leaves the listing as it was.
pub fn buy_from_listing(
    ctx: &mut BuyFromListing,
    timestamp: i64,
    bump: u8,
    payment: TransferOutcome,
) -> (res: Result<(), ErrorCode>)
    ensures
        res is Ok <==> buy_from_listing_due(*old(ctx)) is Ok && payment
            == TransferOutcome::Completed,
        res is Err ==> *final(ctx) == *old(ctx),
        (res, *final(ctx)) == buy_from_listing_spec(*old(ctx), timestamp, bump, payment),
{
    match buy_from_listing_transfer(ctx) {
        Err(e) => {
            return Err(e);
        },
        Ok(_) => {},
    }
    match payment {
        TransferOutcome::Failed => {
            return Err(ErrorCode::TransferFailed);
        },
        TransferOutcome::Completed => {},
    }
    ctx.voucher = Some(
        PointsVoucher {
            buyer: ctx.buyer,
            points_amount: ctx.listing.points_amount,
            is_redeemed: false,
            created_at: timestamp,
            bump,
        },
    );
    ctx.listing.is_active = false;
    Ok(())
}

/// The records that cancelling a listing touches.
#[derive(Clone, Copy, Debug, PartialEq, Eq)]
pub struct CancelListing {
    pub listing: PointsListing,
    /// The signer, who must be the seller.
    pub seller: Identity,
}

/// What `cancel_listing` returns and leaves behind.
pub open spec fn cancel_listing_spec(ctx: CancelListing) -> (Result<(), ErrorCode>, CancelListing) {
    if ctx.listing.seller != ctx.seller {
        (Err(ErrorCode::Unauthorized), ctx)
    } else if !ctx.listing.is_active {
        (Err(ErrorCode::ListingNotActive), ctx)
    } else {
        (
            Ok(()),
            CancelListing {
                listing: PointsListing { is_active: false, ..ctx.listing },
                seller: ctx.seller,
            },
        )
    }
}

/// Withdraws an active listing of the signer.
///
/// Fails, and changes nothing, where the signer is not the seller
/// (`Unauthorized`) or the listing is not active (`ListingNotActive`).
pub fn cancel_listing(ctx: &mut CancelListing) -> (res: Result<(), ErrorCode>)
    ensures
        res is Err ==> *final(ctx) == *old(ctx),
        (res, *final(ctx)) == cancel_listing_spec(*old(ctx)),
{
    if ctx.listing.seller != ctx.seller {
        return Err(ErrorCode::Unauthorized);
    }
    if !ctx.listing.is_active {
        return Err(ErrorCode::ListingNotActive);
    }
    ctx.listing.is_active = false;
    Ok(())
}

/// The records that marking a voucher redeemed touches.
#[derive(Clone, Copy, Debug, PartialEq, Eq)]
pub struct MarkVoucherRedeemed {
    pub voucher: PointsVoucher,
    /// The identity of the calling service, as the platform authenticated
    /// it.
    pub caller_authority: Identity,
}

/// What `mark_voucher_redeemed` returns and leaves behind.
pub open spec fn mark_voucher_redeemed_spec(ctx: MarkVoucherRedeemed) -> (
    Result<(), ErrorCode>,
    MarkVoucherRedeemed,
) {
    if !voucher_allow_list().contains(ctx.caller_authority) {
        (Err(ErrorCode::UnauthorizedCaller), ctx)
    } else if ctx.voucher.is_redeemed {
        (Err(ErrorCode::VoucherAlreadyRedeemed), ctx)
    } else {
        (
            Ok(()),
            MarkVoucherRedeemed {
                voucher: PointsVoucher { is_redeemed: true, ..ctx.voucher },
                caller_authority: ctx.caller_authority,
            },
        )
    }
}

/// Marks a voucher redeemed, on behalf of the session ledger. This is the
/// marketplace's own note of a redemption; the guard against redeeming
/// twice is the session ledger's redemption record.
///
/// Fails, and changes nothing, where the caller is not the session ledger
/// (`UnauthorizedCaller`) or the voucher is marked already
/// (`VoucherAlreadyRedeemed`).
pub fn mark_voucher_redeemed(ctx: &mut MarkVoucherRedeemed) -> (res: Result<(), ErrorCode>)
    ensures
        res is Err ==> *final(ctx) == *old(ctx),
        (res, *final(ctx)) == mark_voucher_redeemed_spec(*old(ctx)),
{
    let allowed = voucher_callers();
    if !verify_caller(&ctx.caller_authority, allowed.as_slice()) {
        return Err(ErrorCode::UnauthorizedCaller);
    }
    if ctx.voucher.is_redeemed {
        return Err(ErrorCode::VoucherAlreadyRedeemed);
    }
    ctx.voucher.is_redeemed = true;
    Ok(())
}

/// The seed that marks the identity of the marketplace: `marketplace`.
pub const MARKETPLACE_SEED: [u8; 11] = [109, 97, 114, 107, 101, 116, 112, 108, 97, 99, 101];

/// The seed that marks the identity of a listing: `listing`.
pub const LISTING_SEED: [u8; 7] = [108, 105, 115, 116, 105, 110, 103];

/// The seed that marks the identity of a voucher: `voucher`.
pub const VOUCHER_SEED: [u8; 7] = [118, 111, 117, 99, 104, 101, 114];

/// The seeds of the marketplace: the mark alone.
pub open spec fn marketplace_seeds() -> Seq<Seq<u8>> {
    seq![MARKETPLACE_SEED@]
}

/// The seeds of a listing: the mark, the seller and the creation time,
/// least significant byte first.
pub open spec fn listing_seeds(seller: Identity, timestamp: i64) -> Seq<Seq<u8>> {
    seq![LISTING_SEED@, seller@, i64_le_bytes(timestamp)]
}

/// The seeds of a voucher: the mark, the buyer and the creation time,
/// least significant byte first.
pub open spec fn voucher_seeds(buyer: Identity, timestamp: i64) -> Seq<Seq<u8>> {
    seq![VOUCHER_SEED@, buyer@, i64_le_bytes(timestamp)]
}

/// The identity of the marketplace, and its bump.
pub fn marketplace_address() -> (r: Option<(Identity, u8)>)
    ensures
        is_derived(r, marketplace_program(), marketplace_seeds()),
{
    let mut seeds: Vec<Vec<u8>> = Vec::new();
    seeds.push(array_to_vec(&MARKETPLACE_SEED));
    proof {
        assert(seeds_view(seeds) =~= marketplace_seeds());
    }
    derive_identity(&marketplace_program_id(), &seeds)
}

/// The identity of the listing that a seller creates at a time, and its
/// bump.
pub fn listing_address(seller: &Identity, timestamp: i64) -> (r: Option<(Identity, u8)>)
    ensures
        is_derived(r, marketplace_program(), listing_seeds(*seller, timestamp)),
{
    let mut seeds: Vec<Vec<u8>> = Vec::new();
    seeds.push(array_to_vec(&LISTING_SEED));
    seeds.push(seller.to_vec());
    seeds.push(i64_to_le_bytes(timestamp));
    proof {
        assert(seeds_view(seeds) =~= listing_seeds(*seller, timestamp));
    }
    derive_identity(&marketplace_program_id(), &seeds)
}

/// The identity of the voucher that a buyer is issued at a time, and its
/// bump.
pub fn voucher_address(buyer: &Identity, timestamp: i64) -> (r: Option<(Identity, u8)>)
    ensures
        is_derived(r, marketplace_program(), voucher_seeds(*buyer, timestamp)),
{
    let mut seeds: Vec<Vec<u8>> = Vec::new();
    seeds.push(array_to_vec(&VOUCHER_SEED));
    seeds.push(buyer.to_vec());
    seeds.push(i64_to_le_bytes(timestamp));
    proof {
        assert(seeds_view(seeds) =~= voucher_seeds(*buyer, timestamp));
    }
    derive_identity(&marketplace_program_id(), &seeds)
}

/// The eight bytes that tag a record as a voucher.
pub const VOUCHER_TAG: [u8; 8] = [192, 66, 34, 54, 8, 53, 195, 239];

/// A voucher as bytes: the tag, the buyer, the points least significant
/// byte first, the redeemed flag as one byte, the creation time least
/// significant byte first, and the bump. That is 58 bytes.
pub open spec fn voucher_data(voucher: PointsVoucher) -> Seq<u8> {
    VOUCHER_TAG@ + voucher.buyer@ + spec_u64_to_le_bytes(voucher.points_amount) + seq![
        if voucher.is_redeemed {
            1u8
        } else {
            0u8
        },
    ] + i64_le_bytes(voucher.created_at) + seq![voucher.bump]
}

/// Appends the bytes of `part` to `out`.
fn append_bytes(out: &mut Vec<u8>, part: &Vec<u8>)
    ensures
        final(out)@ == old(out)@ + part@,
{
    let mut i: usize = 0;
    while i < part.len()
        invariant
            i <= part@.len(),
            out@ == old(out)@ + part@.subrange(0, i as int),
        decreases part@.len() - i,
    {
        out.push(part[i]);
        i = i + 1;
        proof {
            assert(part@.subrange(0, i as int) =~= part@.subrange(0, i - 1).push(part@[i - 1]));
            assert(out@ =~= old(out)@ + part@.subrange(0, i as int));
        }
    }
    proof {
        assert(part@.subrange(0, i as int) =~= part@);
    }
}

/// Writes a voucher as the bytes under which other services read it.
pub fn voucher_account_data(voucher: &PointsVoucher) -> (data: Vec<u8>)
    ensures
        data@ == voucher_data(*voucher),
{
    let mut data: Vec<u8> = array_to_vec(&VOUCHER_TAG);
    append_bytes(&mut data, &voucher.buyer.to_vec());
    append_bytes(&mut data, &u64_to_le_bytes(voucher.points_amount));
    data.push(if voucher.is_redeemed { 1u8 } else { 0u8 });
    append_bytes(&mut data, &i64_to_le_bytes(voucher.created_at));
    data.push(voucher.bump);
    proof {
        assert(data@ =~= voucher_data(*voucher));
    }
    data
}

} // verus!
