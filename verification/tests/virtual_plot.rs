use ev_rewards::error::ErrorKind;
use ev_rewards::game_engine;
use ev_rewards::game_engine::{GameEngineAuthority, InitializeGameEngine, RecordVirtualSession};
use ev_rewards::identity::{
    derive_identity, game_engine_authority_id, game_engine_program_id, virtual_plot_program_id,
    Identity,
};
use ev_rewards::transfer::{Transfer, TransferOutcome};
use ev_rewards::virtual_plot::{
    install_charger, install_charger_transfer, is_valid_charger_power, plot_address,
    purchase_plot, purchase_plot_transfer, record_session, record_session_transfer,
    treasury_address, upgrade_charger, upgrade_charger_transfer, withdraw_revenue,
    withdraw_revenue_transfer, ErrorCode, InstallCharger, PurchasePlot, RecordSession,
    UpgradeCharger, VirtualPlot, WithdrawRevenue,
};

fn id(byte: u8) -> Identity {
    Identity::new([byte; 32])
}

const TREASURY: u8 = 200;

fn plot(owner: Identity) -> VirtualPlot {
    let mut ctx = PurchasePlot { plot: None, buyer: owner, treasury: id(TREASURY) };
    purchase_plot(&mut ctx, 12, 48_137_154, -11_576_124, 9_000, 252, TransferOutcome::Completed)
        .unwrap();
    ctx.plot.unwrap()
}

fn plot_with_charger(owner: Identity, power: u16) -> VirtualPlot {
    let mut ctx = InstallCharger { plot: plot(owner), owner, treasury: id(TREASURY) };
    install_charger(&mut ctx, power, 100, TransferOutcome::Completed).unwrap();
    ctx.plot
}

#[test]
fn purchase_plot_creates_an_empty_plot() {
    let buyer = id(1);
    let mut ctx = PurchasePlot { plot: None, buyer, treasury: id(TREASURY) };
    assert_eq!(
        purchase_plot_transfer(&ctx, 9_000),
        Ok(Transfer { from: buyer, to: id(TREASURY), amount: 9_000 })
    );
    assert_eq!(
        purchase_plot(
            &mut ctx,
            12,
            48_137_154,
            -11_576_124,
            9_000,
            252,
            TransferOutcome::Completed
        ),
        Ok(())
    );
    assert_eq!(
        ctx.plot,
        Some(VirtualPlot {
            owner: buyer,
            plot_id: 12,
            latitude: 48_137_154,
            longitude: -11_576_124,
            purchase_price: 9_000,
            charger_power_kw: 0,
            total_revenue: 0,
            total_sessions: 0,
            is_operational: false,
            bump: 252,
        })
    );
}

#[test]
fn purchase_plot_fails_where_the_plot_is_owned_or_unpaid() {
    let mut ctx = PurchasePlot { plot: Some(plot(id(1))), buyer: id(2), treasury: id(TREASURY) };
    let before = ctx;
    assert_eq!(purchase_plot_transfer(&ctx, 1), Err(ErrorCode::AlreadyExists));
    assert_eq!(
        purchase_plot(&mut ctx, 12, 0, 0, 1, 252, TransferOutcome::Completed),
        Err(ErrorCode::AlreadyExists)
    );
    assert_eq!(ctx, before);
    assert_eq!(ErrorCode::AlreadyExists.kind(), ErrorKind::AlreadyExists);

    let mut ctx = PurchasePlot { plot: None, buyer: id(2), treasury: id(TREASURY) };
    let before = ctx;
    assert_eq!(
        purchase_plot(&mut ctx, 12, 0, 0, 1, 252, TransferOutcome::Failed),
        Err(ErrorCode::TransferFailed)
    );
    assert_eq!(ctx, before);
}

#[test]
fn charger_power_must_be_a_known_rating() {
    for power in 0..=u16::MAX {
        let expected = matches!(power, 3 | 7 | 11 | 22 | 30);
        assert_eq!(is_valid_charger_power(power), expected);
    }
}

#[test]
fn scenario_install_charger_of_15_kw_is_rejected() {
    let owner = id(1);
    let mut ctx = InstallCharger { plot: plot(owner), owner, treasury: id(TREASURY) };
    let before = ctx;
    assert_eq!(install_charger_transfer(&ctx, 15, 100), Err(ErrorCode::InvalidChargerPower));
    assert_eq!(
        install_charger(&mut ctx, 15, 100, TransferOutcome::Completed),
        Err(ErrorCode::InvalidChargerPower)
    );
    assert_eq!(ctx, before);
    assert_eq!(ErrorCode::InvalidChargerPower.kind(), ErrorKind::InvalidInput);
}

#[test]
fn install_charger_makes_the_plot_operational() {
    let owner = id(1);
    for power in [3u16, 7, 11, 22, 30] {
        let mut ctx = InstallCharger { plot: plot(owner), owner, treasury: id(TREASURY) };
        assert_eq!(
            install_charger_transfer(&ctx, power, 100),
            Ok(Transfer { from: owner, to: id(TREASURY), amount: 100 })
        );
        assert_eq!(install_charger(&mut ctx, power, 100, TransferOutcome::Completed), Ok(()));
        assert_eq!(ctx.plot.charger_power_kw, power);
        assert!(ctx.plot.is_operational);
        assert_eq!(ctx.plot.owner, owner);
    }
}

#[test]
fn install_charger_is_for_the_owner_who_pays() {
    let mut ctx = InstallCharger { plot: plot(id(1)), owner: id(2), treasury: id(TREASURY) };
    let before = ctx;
    assert_eq!(
        install_charger(&mut ctx, 7, 100, TransferOutcome::Completed),
        Err(ErrorCode::Unauthorized)
    );
    assert_eq!(ctx, before);
    let mut ctx = InstallCharger { plot: plot(id(1)), owner: id(1), treasury: id(TREASURY) };
    let before = ctx;
    assert_eq!(
        install_charger(&mut ctx, 7, 100, TransferOutcome::Failed),
        Err(ErrorCode::TransferFailed)
    );
    assert_eq!(ctx, before);
}

#[test]
fn upgrade_charger_needs_a_charger_and_more_power() {
    let owner = id(1);
    let mut ctx = UpgradeCharger { plot: plot(owner), owner, treasury: id(TREASURY) };
    let before = ctx;
    assert_eq!(upgrade_charger_transfer(&ctx, 7, 50), Err(ErrorCode::NoChargerInstalled));
    assert_eq!(
        upgrade_charger(&mut ctx, 7, 50, TransferOutcome::Completed),
        Err(ErrorCode::NoChargerInstalled)
    );
    assert_eq!(ctx, before);

    let mut ctx =
        UpgradeCharger { plot: plot_with_charger(owner, 11), owner, treasury: id(TREASURY) };
    let before = ctx;
    for power in [0u16, 7, 11] {
        assert_eq!(
            upgrade_charger(&mut ctx, power, 50, TransferOutcome::Completed),
            Err(ErrorCode::InvalidUpgrade)
        );
        assert_eq!(ctx, before);
    }
    assert_eq!(
        upgrade_charger(&mut ctx, 22, 50, TransferOutcome::Failed),
        Err(ErrorCode::TransferFailed)
    );
    assert_eq!(ctx, before);
    assert_eq!(
        upgrade_charger_transfer(&ctx, 12, 50),
        Ok(Transfer { from: owner, to: id(TREASURY), amount: 50 })
    );
    assert_eq!(upgrade_charger(&mut ctx, 12, 50, TransferOutcome::Completed), Ok(()));
    assert_eq!(ctx.plot.charger_power_kw, 12);
    assert!(ctx.plot.is_operational);

    ctx.owner = id(2);
    assert_eq!(
        upgrade_charger(&mut ctx, 30, 50, TransferOutcome::Completed),
        Err(ErrorCode::Unauthorized)
    );
}

fn session(plot: VirtualPlot, authority: Identity) -> RecordSession {
    RecordSession { plot_key: id(150), plot, payer: id(3), authority }
}

#[test]
fn record_session_adds_revenue_for_the_dispatcher() {
    let mut ctx = session(plot_with_charger(id(1), 7), game_engine_authority_id());
    assert_eq!(
        record_session_transfer(&ctx, 250),
        Ok(Transfer { from: id(3), to: id(150), amount: 250 })
    );
    assert_eq!(record_session(&mut ctx, 250, TransferOutcome::Completed), Ok(()));
    assert_eq!(record_session(&mut ctx, 50, TransferOutcome::Completed), Ok(()));
    assert_eq!(ctx.plot.total_revenue, 300);
    assert_eq!(ctx.plot.total_sessions, 2);
}

#[test]
fn record_session_from_strangers_changes_nothing() {
    for caller in [game_engine_program_id(), virtual_plot_program_id(), id(1), id(3)] {
        let mut ctx = session(plot_with_charger(id(1), 7), caller);
        let before = ctx;
        assert_eq!(record_session_transfer(&ctx, 250), Err(ErrorCode::UnauthorizedCaller));
        assert_eq!(
            record_session(&mut ctx, 250, TransferOutcome::Completed),
            Err(ErrorCode::UnauthorizedCaller)
        );
        assert_eq!(ctx, before);
    }
    assert_eq!(ErrorCode::UnauthorizedCaller.kind(), ErrorKind::Unauthorized);
}

#[test]
fn record_session_needs_an_operational_plot_payment_and_room() {
    let mut ctx = session(plot(id(1)), game_engine_authority_id());
    let before = ctx;
    assert_eq!(
        record_session(&mut ctx, 250, TransferOutcome::Completed),
        Err(ErrorCode::PlotNotOperational)
    );
    assert_eq!(ctx, before);

    let mut ctx = session(plot_with_charger(id(1), 7), game_engine_authority_id());
    let before = ctx;
    assert_eq!(
        record_session(&mut ctx, 250, TransferOutcome::Failed),
        Err(ErrorCode::TransferFailed)
    );
    assert_eq!(ctx, before);

    ctx.plot.total_revenue = u64::MAX - 1;
    let before = ctx;
    assert_eq!(record_session_transfer(&ctx, 2), Err(ErrorCode::Overflow));
    assert_eq!(
        record_session(&mut ctx, 2, TransferOutcome::Completed),
        Err(ErrorCode::Overflow)
    );
    assert_eq!(record_session(&mut ctx, 2, TransferOutcome::Failed), Err(ErrorCode::Overflow));
    assert_eq!(ctx, before);
    assert_eq!(record_session(&mut ctx, 1, TransferOutcome::Completed), Ok(()));
    assert_eq!(ctx.plot.total_revenue, u64::MAX);

    let mut ctx = session(plot_with_charger(id(1), 7), game_engine_authority_id());
    ctx.plot.total_sessions = u64::MAX;
    let before = ctx;
    assert_eq!(record_session_transfer(&ctx, 0), Err(ErrorCode::Overflow));
    assert_eq!(
        record_session(&mut ctx, 0, TransferOutcome::Completed),
        Err(ErrorCode::Overflow)
    );
    assert_eq!(ctx, before);
}

#[test]
fn withdraw_revenue_pays_the_owner_what_the_plot_gathered() {
    let owner = id(1);
    let mut plot = plot_with_charger(owner, 7);
    plot.total_revenue = 300;
    let mut ctx = WithdrawRevenue { plot_key: id(150), plot, owner };
    let before = ctx;
    assert_eq!(withdraw_revenue_transfer(&ctx, 301), Err(ErrorCode::InsufficientRevenue));
    assert_eq!(
        withdraw_revenue(&mut ctx, 301, TransferOutcome::Completed),
        Err(ErrorCode::InsufficientRevenue)
    );
    assert_eq!(ctx, before);
    assert_eq!(ErrorCode::InsufficientRevenue.kind(), ErrorKind::InsufficientBalance);
    assert_eq!(
        withdraw_revenue(&mut ctx, 100, TransferOutcome::Failed),
        Err(ErrorCode::TransferFailed)
    );
    assert_eq!(ctx, before);
    assert_eq!(
        withdraw_revenue_transfer(&ctx, 100),
        Ok(Transfer { from: id(150), to: owner, amount: 100 })
    );
    assert_eq!(withdraw_revenue(&mut ctx, 100, TransferOutcome::Completed), Ok(()));
    assert_eq!(ctx.plot.total_revenue, 200);
    assert_eq!(withdraw_revenue(&mut ctx, 200, TransferOutcome::Completed), Ok(()));
    assert_eq!(ctx.plot.total_revenue, 0);
    ctx.owner = id(2);
    assert_eq!(
        withdraw_revenue(&mut ctx, 0, TransferOutcome::Completed),
        Err(ErrorCode::Unauthorized)
    );
}

#[test]
fn dispatcher_relays_under_its_own_identity() {
    let mut ctx = RecordVirtualSession {
        plot_key: id(150),
        plot: plot_with_charger(id(1), 7),
        payer: id(3),
        authority: game_engine_authority_id(),
    };
    assert_eq!(
        game_engine::record_session_transfer(&ctx, 250),
        Ok(Transfer { from: id(3), to: id(150), amount: 250 })
    );
    assert_eq!(game_engine::record_session(&mut ctx, 250, TransferOutcome::Completed), Ok(()));
    assert_eq!(ctx.plot.total_revenue, 250);
    assert_eq!(ctx.plot.total_sessions, 1);
    let before = ctx;
    assert_eq!(
        game_engine::record_session(&mut ctx, 250, TransferOutcome::Failed),
        Err(ErrorCode::TransferFailed)
    );
    assert_eq!(ctx, before);

    ctx.authority = id(3);
    let before = ctx;
    assert_eq!(game_engine::record_session_transfer(&ctx, 250), Err(ErrorCode::Unauthorized));
    assert_eq!(
        game_engine::record_session(&mut ctx, 250, TransferOutcome::Completed),
        Err(ErrorCode::Unauthorized)
    );
    assert_eq!(ctx, before);

    let mut idle = RecordVirtualSession {
        plot_key: id(150),
        plot: plot(id(1)),
        payer: id(3),
        authority: game_engine_authority_id(),
    };
    assert_eq!(
        game_engine::record_session(&mut idle, 250, TransferOutcome::Completed),
        Err(ErrorCode::PlotNotOperational)
    );
}

#[test]
fn initialize_game_engine_once() {
    let mut ctx = InitializeGameEngine { game_engine: None, authority: id(1) };
    assert_eq!(game_engine::initialize_game_engine(&mut ctx), Ok(()));
    assert_eq!(ctx.game_engine, Some(GameEngineAuthority {}));
    let before = ctx;
    assert_eq!(game_engine::initialize_game_engine(&mut ctx), Err(ErrorCode::AlreadyExists));
    assert_eq!(ctx, before);
}

#[test]
fn plot_addresses_follow_the_seeds() {
    let program = virtual_plot_program_id();
    assert_eq!(
        plot_address(12),
        derive_identity(&program, &vec![b"plot".to_vec(), 12u32.to_le_bytes().to_vec()])
    );
    assert!(plot_address(12).is_some());
    assert_ne!(plot_address(12), plot_address(13));
    assert_eq!(treasury_address(), derive_identity(&program, &vec![b"treasury".to_vec()]));
}
