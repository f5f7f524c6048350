use ev_rewards::charging_session::{
    redeem_voucher, ErrorCode as LedgerError, RedeemVoucher, UserAccount, VoucherAccount,
    VoucherRedemption,
};
use ev_rewards::error::ErrorKind;
use ev_rewards::identity::{
    charging_session_program_id, derive_identity, marketplace_program_id,
    virtual_plot_program_id, Identity,
};
use ev_rewards::points_marketplace::{
    buy_from_listing, buy_from_listing_transfer, buy_from_marketplace,
    buy_from_marketplace_transfer, cancel_listing, create_listing, initialize_marketplace,
    listing_address, mark_voucher_redeemed, marketplace_address, voucher_account_data,
    voucher_address, BuyFromListing, BuyFromMarketplace, CancelListing, CreateListing, ErrorCode,
    InitializeMarketplace, MarkVoucherRedeemed, Marketplace, PointsListing, PointsVoucher,
};
use ev_rewards::transfer::{Transfer, TransferOutcome};

fn id(byte: u8) -> Identity {
    Identity::new([byte; 32])
}

fn marketplace() -> Marketplace {
    let mut ctx = InitializeMarketplace { marketplace: None, authority: id(9) };
    initialize_marketplace(&mut ctx, 255).unwrap();
    ctx.marketplace.unwrap()
}

fn purchase(buyer: Identity) -> BuyFromMarketplace {
    BuyFromMarketplace { marketplace_key: id(8), marketplace: marketplace(), voucher: None, buyer }
}

fn listing(seller: Identity, points: u64, price: u64) -> PointsListing {
    let mut ctx = CreateListing { listing: None, seller };
    create_listing(&mut ctx, points, price, 500, 251).unwrap();
    ctx.listing.unwrap()
}

fn ledger(authority: Identity, total: u64, available: u64) -> UserAccount {
    UserAccount {
        authority,
        total_points: total,
        available_points: available,
        total_energy_kwh: 0,
        total_sessions: 0,
        bump: 254,
    }
}

#[test]
fn initialize_marketplace_sets_the_starting_price_once() {
    let mut ctx = InitializeMarketplace { marketplace: None, authority: id(9) };
    assert_eq!(initialize_marketplace(&mut ctx, 255), Ok(()));
    assert_eq!(
        ctx.marketplace,
        Some(Marketplace {
            authority: id(9),
            total_points_sold: 0,
            total_revenue_lamports: 0,
            price_per_point_lamports: 1_000_000,
            bump: 255,
        })
    );
    let first = ctx;
    assert_eq!(initialize_marketplace(&mut ctx, 1), Err(ErrorCode::AlreadyExists));
    assert_eq!(ctx, first);
}

#[test]
fn create_listing_is_active_and_unchecked() {
    let mut ctx = CreateListing { listing: None, seller: id(2) };
    assert_eq!(create_listing(&mut ctx, u64::MAX, 3, 500, 251), Ok(()));
    assert_eq!(
        ctx.listing,
        Some(PointsListing {
            seller: id(2),
            points_amount: u64::MAX,
            price_per_point: 3,
            is_active: true,
            created_at: 500,
            bump: 251,
        })
    );
    let first = ctx;
    assert_eq!(create_listing(&mut ctx, 1, 1, 500, 251), Err(ErrorCode::AlreadyExists));
    assert_eq!(ctx, first);
}

#[test]
fn scenario_buy_ten_points_from_the_marketplace() {
    let buyer = id(1);
    let mut ctx = purchase(buyer);
    assert_eq!(
        buy_from_marketplace_transfer(&ctx, 10),
        Ok(Transfer { from: buyer, to: id(8), amount: 5_000_000 })
    );
    assert_eq!(buy_from_marketplace(&mut ctx, 10, 700, 250, TransferOutcome::Completed), Ok(()));
    assert_eq!(
        ctx.voucher,
        Some(PointsVoucher {
            buyer,
            points_amount: 10,
            is_redeemed: false,
            created_at: 700,
            bump: 250,
        })
    );
    assert_eq!(
        ctx.marketplace,
        Marketplace {
            authority: id(9),
            total_points_sold: 10,
            total_revenue_lamports: 5_000_000,
            price_per_point_lamports: 1_000_000,
            bump: 255,
        }
    );
}

#[test]
fn marketplace_counters_add_up_over_purchases() {
    let mut stored = marketplace();
    stored.price_per_point_lamports = 3;
    for (points, timestamp) in [(1u64, 700i64), (5, 701), (0, 702)] {
        let mut ctx = BuyFromMarketplace {
            marketplace_key: id(8),
            marketplace: stored,
            voucher: None,
            buyer: id(1),
        };
        buy_from_marketplace(&mut ctx, points, timestamp, 250, TransferOutcome::Completed)
            .unwrap();
        stored = ctx.marketplace;
    }
    assert_eq!(stored.total_points_sold, 6);
    assert_eq!(stored.total_revenue_lamports, 1 + 7);
    assert_eq!(stored.price_per_point_lamports, 3);
    assert_eq!(stored.authority, id(9));
}

#[test]
fn marketplace_counters_without_room_stop_the_purchase_before_any_transfer() {
    let mut ctx = purchase(id(1));
    ctx.marketplace.total_points_sold = u64::MAX - 9;
    let before = ctx;
    assert_eq!(buy_from_marketplace_transfer(&ctx, 10), Err(ErrorCode::Overflow));
    assert_eq!(
        buy_from_marketplace(&mut ctx, 10, 700, 250, TransferOutcome::Completed),
        Err(ErrorCode::Overflow)
    );
    assert_eq!(ctx, before);
    assert_eq!(buy_from_marketplace(&mut ctx, 9, 700, 250, TransferOutcome::Completed), Ok(()));
    assert_eq!(ctx.marketplace.total_points_sold, u64::MAX);

    let mut ctx = purchase(id(1));
    ctx.marketplace.total_revenue_lamports = u64::MAX - 4_999_999;
    let before = ctx;
    assert_eq!(buy_from_marketplace_transfer(&ctx, 10), Err(ErrorCode::Overflow));
    assert_eq!(
        buy_from_marketplace(&mut ctx, 10, 700, 250, TransferOutcome::Completed),
        Err(ErrorCode::Overflow)
    );
    assert_eq!(ctx, before);
    ctx.marketplace.total_revenue_lamports = u64::MAX - 5_000_000;
    assert_eq!(buy_from_marketplace(&mut ctx, 10, 700, 250, TransferOutcome::Completed), Ok(()));
    assert_eq!(ctx.marketplace.total_revenue_lamports, u64::MAX);
}

#[test]
fn marketplace_price_is_half_rounded_down() {
    let mut ctx = purchase(id(1));
    ctx.marketplace.price_per_point_lamports = 3;
    assert_eq!(buy_from_marketplace_transfer(&ctx, 1).unwrap().amount, 1);
    assert_eq!(buy_from_marketplace_transfer(&ctx, 5).unwrap().amount, 7);
    assert_eq!(buy_from_marketplace_transfer(&ctx, 0).unwrap().amount, 0);
}

#[test]
fn marketplace_price_overflow_stops_the_purchase_before_any_transfer() {
    let mut ctx = purchase(id(1));
    ctx.marketplace.price_per_point_lamports = u64::MAX / 50;
    assert_eq!(buy_from_marketplace_transfer(&ctx, 1).unwrap().amount, u64::MAX / 50 / 2);
    ctx.marketplace.price_per_point_lamports = u64::MAX / 50 + 1;
    assert_eq!(buy_from_marketplace_transfer(&ctx, 1), Err(ErrorCode::Overflow));
    ctx.marketplace.price_per_point_lamports = u64::MAX;
    assert_eq!(buy_from_marketplace_transfer(&ctx, 2), Err(ErrorCode::Overflow));
    let before = ctx;
    assert_eq!(
        buy_from_marketplace(&mut ctx, 2, 700, 250, TransferOutcome::Completed),
        Err(ErrorCode::Overflow)
    );
    assert_eq!(ctx, before);
}

#[test]
fn failed_payment_issues_no_voucher() {
    let mut ctx = purchase(id(1));
    let before = ctx;
    assert_eq!(
        buy_from_marketplace(&mut ctx, 10, 700, 250, TransferOutcome::Failed),
        Err(ErrorCode::TransferFailed)
    );
    assert_eq!(ctx, before);
    assert_eq!(ErrorCode::TransferFailed.kind(), ErrorKind::TransferFailed);
    assert_eq!(TransferOutcome::from_success(true), TransferOutcome::Completed);
    assert_eq!(TransferOutcome::from_success(false), TransferOutcome::Failed);
}

#[test]
fn voucher_slot_in_use_stops_the_purchase() {
    let mut ctx = purchase(id(1));
    buy_from_marketplace(&mut ctx, 10, 700, 250, TransferOutcome::Completed).unwrap();
    let before = ctx;
    assert_eq!(buy_from_marketplace_transfer(&ctx, 10), Err(ErrorCode::AlreadyExists));
    assert_eq!(
        buy_from_marketplace(&mut ctx, 10, 700, 250, TransferOutcome::Completed),
        Err(ErrorCode::AlreadyExists)
    );
    assert_eq!(ctx, before);
}

#[test]
fn buy_from_listing_pays_the_seller_and_closes_the_listing() {
    let seller = id(2);
    let buyer = id(1);
    let mut ctx = BuyFromListing { listing: listing(seller, 40, 25), voucher: None, buyer };
    assert_eq!(
        buy_from_listing_transfer(&ctx),
        Ok(Transfer { from: buyer, to: seller, amount: 1000 })
    );
    assert_eq!(buy_from_listing(&mut ctx, 900, 3, TransferOutcome::Completed), Ok(()));
    assert!(!ctx.listing.is_active);
    assert_eq!(
        ctx.voucher,
        Some(PointsVoucher {
            buyer,
            points_amount: 40,
            is_redeemed: false,
            created_at: 900,
            bump: 3,
        })
    );
    let mut again = BuyFromListing { listing: ctx.listing, voucher: None, buyer: id(3) };
    let before = again;
    assert_eq!(buy_from_listing_transfer(&again), Err(ErrorCode::ListingNotActive));
    assert_eq!(
        buy_from_listing(&mut again, 901, 3, TransferOutcome::Completed),
        Err(ErrorCode::ListingNotActive)
    );
    assert_eq!(again, before);
}

#[test]
fn failed_payment_leaves_the_listing_untouched() {
    let mut ctx = BuyFromListing { listing: listing(id(2), 40, 25), voucher: None, buyer: id(1) };
    let before = ctx;
    assert_eq!(
        buy_from_listing(&mut ctx, 900, 3, TransferOutcome::Failed),
        Err(ErrorCode::TransferFailed)
    );
    assert_eq!(ctx, before);
    assert!(ctx.listing.is_active);
}

#[test]
fn listing_price_overflow_is_rejected() {
    let mut ctx =
        BuyFromListing { listing: listing(id(2), u64::MAX, 2), voucher: None, buyer: id(1) };
    let before = ctx;
    assert_eq!(buy_from_listing_transfer(&ctx), Err(ErrorCode::Overflow));
    assert_eq!(
        buy_from_listing(&mut ctx, 900, 3, TransferOutcome::Completed),
        Err(ErrorCode::Overflow)
    );
    assert_eq!(ctx, before);
    let ctx = BuyFromListing { listing: listing(id(2), u64::MAX, 1), voucher: None, buyer: id(1) };
    assert_eq!(buy_from_listing_transfer(&ctx).unwrap().amount, u64::MAX);
}

#[test]
fn cancel_listing_is_for_the_seller_of_an_active_listing() {
    let seller = id(2);
    let mut ctx = CancelListing { listing: listing(seller, 40, 25), seller: id(3) };
    let before = ctx;
    assert_eq!(cancel_listing(&mut ctx), Err(ErrorCode::Unauthorized));
    assert_eq!(ctx, before);
    ctx.seller = seller;
    assert_eq!(cancel_listing(&mut ctx), Ok(()));
    assert!(!ctx.listing.is_active);
    let before = ctx;
    assert_eq!(cancel_listing(&mut ctx), Err(ErrorCode::ListingNotActive));
    assert_eq!(ctx, before);
}

#[test]
fn mark_voucher_redeemed_once_by_the_session_ledger() {
    let voucher = PointsVoucher {
        buyer: id(1),
        points_amount: 10,
        is_redeemed: false,
        created_at: 700,
        bump: 250,
    };
    for caller in [marketplace_program_id(), virtual_plot_program_id(), id(1)] {
        let mut ctx = MarkVoucherRedeemed { voucher, caller_authority: caller };
        let before = ctx;
        assert_eq!(mark_voucher_redeemed(&mut ctx), Err(ErrorCode::UnauthorizedCaller));
        assert_eq!(ctx, before);
    }
    assert_eq!(ErrorCode::UnauthorizedCaller.kind(), ErrorKind::Unauthorized);
    let mut ctx = MarkVoucherRedeemed { voucher, caller_authority: charging_session_program_id() };
    assert_eq!(mark_voucher_redeemed(&mut ctx), Ok(()));
    assert!(ctx.voucher.is_redeemed);
    assert_eq!(ctx.voucher.points_amount, 10);
    let before = ctx;
    assert_eq!(mark_voucher_redeemed(&mut ctx), Err(ErrorCode::VoucherAlreadyRedeemed));
    assert_eq!(ctx, before);
    assert_eq!(ErrorCode::VoucherAlreadyRedeemed.kind(), ErrorKind::InvalidState);
}

#[test]
fn voucher_bytes_have_the_published_layout() {
    let voucher = PointsVoucher {
        buyer: Identity::new([0xAB; 32]),
        points_amount: 0x0102_0304_0506_0708,
        is_redeemed: true,
        created_at: -2,
        bump: 250,
    };
    let data = voucher_account_data(&voucher);
    assert_eq!(data.len(), 58);
    assert_eq!(&data[..8], &[192, 66, 34, 54, 8, 53, 195, 239]);
    assert_eq!(&data[8..40], &[0xAB; 32]);
    assert_eq!(&data[40..48], &[8, 7, 6, 5, 4, 3, 2, 1]);
    assert_eq!(data[48], 1);
    assert_eq!(&data[49..57], &[0xFE, 0xFF, 0xFF, 0xFF, 0xFF, 0xFF, 0xFF, 0xFF]);
    assert_eq!(data[57], 250);
}

fn redemption(buyer: Identity, voucher: &PointsVoucher, account: UserAccount) -> RedeemVoucher {
    RedeemVoucher {
        user_account: account,
        redemption_record: None,
        voucher: VoucherAccount {
            key: id(77),
            owner: marketplace_program_id(),
            data: voucher_account_data(voucher),
        },
        authority: buyer,
    }
}

#[test]
fn scenario_voucher_is_redeemed_exactly_once() {
    let buyer = id(1);
    let mut bought = purchase(buyer);
    buy_from_marketplace(&mut bought, 10, 700, 250, TransferOutcome::Completed).unwrap();
    let voucher = bought.voucher.unwrap();

    let mut ctx = redemption(buyer, &voucher, ledger(buyer, 5, 2));
    assert_eq!(redeem_voucher(&mut ctx, 800, 249), Ok(()));
    assert_eq!(ctx.user_account.total_points, 15);
    assert_eq!(ctx.user_account.available_points, 12);
    assert_eq!(
        ctx.redemption_record,
        Some(VoucherRedemption {
            voucher: id(77),
            user: buyer,
            points_amount: 10,
            redeemed_at: 800,
            bump: 249,
        })
    );

    let before = ctx.clone();
    assert_eq!(redeem_voucher(&mut ctx, 801, 249), Err(LedgerError::AlreadyExists));
    assert_eq!(ctx, before);
    assert_eq!(ctx.user_account.total_points, 15);
    assert_eq!(ctx.user_account.available_points, 12);
}

#[test]
fn many_vouchers_many_attempts_one_success_each() {
    let buyer = id(1);
    let mut account = ledger(buyer, 0, 0);
    let mut slots: Vec<Option<VoucherRedemption>> = vec![None; 4];
    let vouchers: Vec<PointsVoucher> = (0..4u64)
        .map(|i| PointsVoucher {
            buyer,
            points_amount: 10 + i,
            is_redeemed: false,
            created_at: 700 + i as i64,
            bump: 250,
        })
        .collect();
    let order = [2usize, 0, 2, 3, 1, 0, 0, 3, 1, 2, 1, 3];
    let mut successes = [0u32; 4];
    for (step, &which) in order.iter().enumerate() {
        let mut ctx = redemption(buyer, &vouchers[which], account);
        ctx.voucher.key = id(100 + which as u8);
        ctx.redemption_record = slots[which];
        match redeem_voucher(&mut ctx, 1000 + step as i64, 1) {
            Ok(()) => successes[which] += 1,
            Err(e) => {
                assert_eq!(e, LedgerError::AlreadyExists);
                assert_eq!(e.kind(), ErrorKind::AlreadyExists);
                assert_eq!(ctx.user_account, account);
            }
        }
        account = ctx.user_account;
        slots[which] = ctx.redemption_record;
    }
    assert_eq!(successes, [1, 1, 1, 1]);
    assert_eq!(account.total_points, 10 + 11 + 12 + 13);
    assert_eq!(account.available_points, 46);
}

#[test]
fn redeem_voucher_checks_the_voucher() {
    let buyer = id(1);
    let voucher = PointsVoucher {
        buyer,
        points_amount: 10,
        is_redeemed: false,
        created_at: 700,
        bump: 250,
    };
    let good = redemption(buyer, &voucher, ledger(buyer, 5, 2));

    let mut ctx = good.clone();
    ctx.voucher.owner = charging_session_program_id();
    let before = ctx.clone();
    assert_eq!(redeem_voucher(&mut ctx, 800, 1), Err(LedgerError::UnauthorizedVoucher));
    assert_eq!(ctx, before);
    assert!(ctx.redemption_record.is_none());
    assert_eq!(LedgerError::UnauthorizedVoucher.kind(), ErrorKind::Unauthorized);

    let mut ctx = good.clone();
    ctx.voucher.data.truncate(57);
    let before = ctx.clone();
    assert_eq!(redeem_voucher(&mut ctx, 800, 1), Err(LedgerError::InvalidVoucherData));
    assert_eq!(ctx, before);
    assert_eq!(LedgerError::InvalidVoucherData.kind(), ErrorKind::InvalidInput);

    let mut ctx = good.clone();
    ctx.voucher.data.extend_from_slice(&[0u8; 20]);
    assert_eq!(redeem_voucher(&mut ctx, 800, 1), Ok(()));
    assert_eq!(ctx.user_account.total_points, 15);

    let other = PointsVoucher { buyer: id(2), ..voucher };
    let mut ctx = redemption(buyer, &other, ledger(buyer, 5, 2));
    let before = ctx.clone();
    assert_eq!(redeem_voucher(&mut ctx, 800, 1), Err(LedgerError::UnauthorizedVoucher));
    assert_eq!(ctx, before);

    let mut ctx = redemption(id(2), &voucher, ledger(buyer, 5, 2));
    let before = ctx.clone();
    assert_eq!(redeem_voucher(&mut ctx, 800, 1), Err(LedgerError::Unauthorized));
    assert_eq!(ctx, before);

    let mut ctx = redemption(buyer, &voucher, ledger(buyer, u64::MAX - 9, 2));
    let before = ctx.clone();
    assert_eq!(redeem_voucher(&mut ctx, 800, 1), Err(LedgerError::Overflow));
    assert_eq!(ctx, before);
    assert!(ctx.redemption_record.is_none());
}

#[test]
fn redeem_voucher_ignores_the_vouchers_own_flag() {
    let buyer = id(1);
    let voucher = PointsVoucher {
        buyer,
        points_amount: 10,
        is_redeemed: true,
        created_at: 700,
        bump: 250,
    };
    let mut ctx = redemption(buyer, &voucher, ledger(buyer, 0, 0));
    assert_eq!(redeem_voucher(&mut ctx, 800, 1), Ok(()));
    assert_eq!(ctx.user_account.available_points, 10);
}

#[test]
fn marketplace_addresses_follow_the_seeds() {
    let program = marketplace_program_id();
    assert_eq!(marketplace_address(), derive_identity(&program, &vec![b"marketplace".to_vec()]));
    assert!(marketplace_address().is_some());
    assert_eq!(
        listing_address(&id(2), 500),
        derive_identity(
            &program,
            &vec![b"listing".to_vec(), id(2).to_vec(), 500i64.to_le_bytes().to_vec()]
        )
    );
    assert_eq!(
        voucher_address(&id(1), 700),
        derive_identity(
            &program,
            &vec![b"voucher".to_vec(), id(1).to_vec(), 700i64.to_le_bytes().to_vec()]
        )
    );
    assert_ne!(voucher_address(&id(1), 700), voucher_address(&id(1), 701));
    assert_ne!(voucher_address(&id(1), 700), listing_address(&id(1), 700));
}
