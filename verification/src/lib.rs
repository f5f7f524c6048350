//! A points economy for an EV-charging rewards platform.
//!
//! Four services share it: a session ledger, a points marketplace, a
//! virtual-plot registry and a game-engine dispatcher. None keeps state of
//! its own here. Every operation takes the records it touches, checks the
//! caller and the state, and either changes the records as one unit or
//! fails and leaves them as they were. A record that is to be created is
//! handed over as an empty slot; a slot that is already filled makes the
//! operation fail, which is how initialisation happens once and a voucher is
//! redeemed once.
//!
//! An operation that moves value comes in two steps. The first names the
//! transfer that is due. The caller asks the value-transfer substrate for
//! it and hands the outcome to the second step, which changes the records
//! only where the transfer completed. Every reason to refuse is found by
//! the first step: the second fails only where the first does, or where
//! the transfer failed.

pub mod error;
pub mod identity;
pub mod seeds;
pub mod transfer;
pub mod charging_session;
pub mod points_marketplace;
pub mod virtual_plot;
pub mod game_engine;
pub mod laws;
pub mod redemption_laws;
