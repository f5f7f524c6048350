use anchor_lang::solana_program::pubkey::Pubkey;
use ev_rewards::charging_session::ErrorCode as Ledger;
use ev_rewards::error::ErrorKind;
use ev_rewards::game_engine;
use ev_rewards::identity::{
    charging_session_program_id, derive_identity, game_engine_authority_id,
    game_engine_program_id, located_at, marketplace_program_id, points_callers, revenue_callers,
    verify_caller, virtual_plot_program_id, voucher_callers, Identity,
};
use ev_rewards::points_marketplace::ErrorCode as Market;
use ev_rewards::virtual_plot::ErrorCode as Plot;
use std::str::FromStr;

fn key(text: &str) -> Identity {
    Identity::new(Pubkey::from_str(text).unwrap().to_bytes())
}

#[test]
fn program_identities_are_the_published_ones() {
    assert_eq!(
        charging_session_program_id(),
        key("5emVuARWebNveyqe9ivrM24yhBMdLWJvq3qzYTDDd66u")
    );
    assert_eq!(marketplace_program_id(), key("9PQHr2B1MoxNwyjwdvxZcc7VifqKsetsjvikGwxu2Eko"));
    assert_eq!(virtual_plot_program_id(), key("Ex4pz9FX9RQUHcSdb74MzTN4hpPFAHMKfqf3RtWcVHRc"));
    assert_eq!(game_engine_program_id(), key("GaMeENgNEwq9D7UJt7Fzv4LptHKCBNkzxqpGMVJ7KQRK"));
}

#[test]
fn dispatcher_identity_is_derived_from_its_seed() {
    let (id, bump) = game_engine::authority_address().unwrap();
    assert_eq!(id, game_engine_authority_id());
    let program = Pubkey::new_from_array(game_engine_program_id().bytes);
    let (expected, expected_bump) = Pubkey::find_program_address(&[b"game_engine"], &program);
    assert_eq!(id.bytes, expected.to_bytes());
    assert_eq!(bump, expected_bump);
}

#[test]
fn derive_identity_agrees_with_the_platform() {
    let namespace = Identity::new([7u8; 32]);
    let seeds = vec![b"session".to_vec(), vec![1, 2, 3], vec![]];
    let (id, bump) = derive_identity(&namespace, &seeds).unwrap();
    let program = Pubkey::new_from_array([7u8; 32]);
    let (expected, expected_bump) =
        Pubkey::find_program_address(&[b"session", &[1, 2, 3], &[]], &program);
    assert_eq!(id.bytes, expected.to_bytes());
    assert_eq!(bump, expected_bump);
    assert_ne!(id, namespace);
}

#[test]
fn derive_identity_is_deterministic_and_separates_seeds() {
    let namespace = Identity::new([9u8; 32]);
    let a = derive_identity(&namespace, &vec![vec![1u8], vec![2u8]]);
    let b = derive_identity(&namespace, &vec![vec![1u8], vec![2u8]]);
    let c = derive_identity(&namespace, &vec![vec![1u8], vec![3u8]]);
    let d = derive_identity(&Identity::new([8u8; 32]), &vec![vec![1u8], vec![2u8]]);
    assert!(a.is_some());
    assert_eq!(a, b);
    assert_ne!(a.unwrap().0, c.unwrap().0);
    assert_ne!(a.unwrap().0, d.unwrap().0);
}

#[test]
fn derive_identity_rejects_seeds_out_of_bounds() {
    let namespace = Identity::new([9u8; 32]);
    let too_many: Vec<Vec<u8>> = (0..16u8).map(|i| vec![i]).collect();
    assert_eq!(derive_identity(&namespace, &too_many), None);
    let most: Vec<Vec<u8>> = (0..15u8).map(|i| vec![i]).collect();
    assert!(derive_identity(&namespace, &most).is_some());
    assert_eq!(derive_identity(&namespace, &vec![vec![0u8; 33]]), None);
    assert!(derive_identity(&namespace, &vec![vec![0u8; 32]]).is_some());
}

#[test]
fn verify_caller_checks_membership() {
    let market = marketplace_program_id();
    let plot = virtual_plot_program_id();
    let ledger = charging_session_program_id();
    let stranger = Identity::new([42u8; 32]);
    assert!(verify_caller(&market, &points_callers()));
    assert!(verify_caller(&plot, &points_callers()));
    assert!(!verify_caller(&ledger, &points_callers()));
    assert!(!verify_caller(&stranger, &points_callers()));
    assert!(verify_caller(&ledger, &voucher_callers()));
    assert!(!verify_caller(&market, &voucher_callers()));
    assert!(verify_caller(&game_engine_authority_id(), &revenue_callers()));
    assert!(!verify_caller(&game_engine_program_id(), &revenue_callers()));
    assert!(!verify_caller(&market, &[]));
}

#[test]
fn identity_from_slice_needs_32_bytes() {
    let bytes: Vec<u8> = (0..40u8).collect();
    assert_eq!(Identity::from_slice(&bytes[..31]), None);
    assert_eq!(Identity::from_slice(&bytes[..33]), None);
    let id = Identity::from_slice(&bytes[8..40]).unwrap();
    assert_eq!(id.to_vec(), bytes[8..40].to_vec());
    assert_eq!(id.bytes.to_vec(), Pubkey::try_from(&bytes[8..40]).unwrap().to_bytes().to_vec());
}

#[test]
fn located_at_needs_the_derived_identity() {
    let key = Identity::new([5u8; 32]);
    assert_eq!(located_at(&key, Some((key, 254))), Some(254));
    assert_eq!(located_at(&key, Some((Identity::new([6u8; 32]), 254))), None);
    assert_eq!(located_at(&key, None), None);
}

#[test]
fn errors_fall_into_classes_and_say_what_happened() {
    assert_eq!(Ledger::Underflow.kind(), ErrorKind::ArithmeticUnderflow);
    assert_eq!(Ledger::InvalidVoucherProgram.kind(), ErrorKind::InvalidInput);
    assert_eq!(Ledger::UnauthorizedVoucher.kind(), ErrorKind::Unauthorized);
    assert_eq!(Ledger::VoucherAlreadyRedeemed.kind(), ErrorKind::InvalidState);
    assert_eq!(Ledger::Unauthorized.kind(), ErrorKind::Unauthorized);
    assert_eq!(Market::ListingNotActive.kind(), ErrorKind::InvalidState);
    assert_eq!(Market::Overflow.kind(), ErrorKind::ArithmeticOverflow);
    assert_eq!(Market::DivisionByZero.kind(), ErrorKind::InvalidInput);
    assert_eq!(Market::AlreadyExists.kind(), ErrorKind::AlreadyExists);
    assert_eq!(Plot::NoChargerInstalled.kind(), ErrorKind::InvalidState);
    assert_eq!(Plot::InvalidUpgrade.kind(), ErrorKind::InvalidInput);
    assert_eq!(Plot::PlotNotOperational.kind(), ErrorKind::InvalidState);
    assert_eq!(Plot::Overflow.kind(), ErrorKind::ArithmeticOverflow);
    assert_eq!(Plot::Underflow.kind(), ErrorKind::ArithmeticUnderflow);
    assert_eq!(Plot::TransferFailed.kind(), ErrorKind::TransferFailed);
    assert_eq!(Ledger::SessionNotActive.message(), "Session is not active");
    assert_eq!(Ledger::InsufficientPoints.message(), "Insufficient points");
    assert_eq!(Market::ListingNotActive.message(), "Listing is not active");
    assert_eq!(
        Plot::InvalidChargerPower.message(),
        "Invalid charger power. Must be 3, 7, 11, 22, or 30 kW"
    );
    assert_eq!(Plot::InsufficientRevenue.message(), "Insufficient revenue to withdraw");
}
