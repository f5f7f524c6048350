//! The game-engine dispatcher: it holds no ledger, and posts the revenue
//! of virtual sessions to the plot registry under its own identity.

use crate::identity::{
    derive_identity, game_engine_authority, game_engine_authority_id, game_engine_program,
    game_engine_program_id, is_derived, seeds_view, Identity,
};
use crate::seeds::array_to_vec;
use crate::transfer::{Transfer, TransferOutcome};
use crate::virtual_plot::{ErrorCode, RecordSession, VirtualPlot};
use vstd::prelude::*;

verus! {

/// The record that stands for the dispatcher's identity. It holds nothing.
#[derive(Clone, Copy, Debug, PartialEq, Eq, Structural)]
pub struct GameEngineAuthority {}

/// The records that recording a virtual session touches.
#[derive(Clone, Copy, Debug, PartialEq, Eq)]
pub struct RecordVirtualSession {
    /// The identity of the plot, which is paid.
    pub plot_key: Identity,
    pub plot: VirtualPlot,
    /// The signer who charges virtually and pays for the session.
    pub payer: Identity,
    /// The identity that the dispatcher presents as its own.
    pub authority: Identity,
}

impl RecordVirtualSession {
    /// The records that the dispatcher hands to the registry: the plot
    /// and the payer as they are, and the dispatcher's identity as the
    /// caller.
    pub open spec fn delegated(self) -> RecordSession {
        RecordSession {
            plot_key: self.plot_key,
            plot: self.plot,
            payer: self.payer,
            authority: self.authority,
        }
    }
}

/// The transfer that recording a virtual session requires, or the reason
/// for which the session cannot be recorded.
pub open spec fn record_session_due(ctx: RecordVirtualSession, revenue_lamports: u64) -> Result<
    Transfer,
    ErrorCode,
> {
    if ctx.authority != game_engine_authority() {
        Err(ErrorCode::Unauthorized)
    } else {
        crate::virtual_plot::record_session_due(ctx.delegated(), revenue_lamports)
    }
}

/// Names the transfer that recording a virtual session requires, as the
/// registry names it for the dispatcher.
///
/// Fails with `Unauthorized` where the identity presented is not the
/// dispatcher's own, and for the registry's reasons. No transfer is to be
/// attempted then.
pub fn record_session_transfer(ctx: &RecordVirtualSession, revenue_lamports: u64) -> (res: Result<
    Transfer,
    ErrorCode,
>)
    ensures
        res == record_session_due(*ctx, revenue_lamports),
{
    if ctx.authority != game_engine_authority_id() {
        return Err(ErrorCode::Unauthorized);
    }
    let delegated = RecordSession {
        plot_key: ctx.plot_key,
        plot: ctx.plot,
        payer: ctx.payer,
        authority: ctx.authority,
    };
    crate::virtual_plot::record_session_transfer(&delegated, revenue_lamports)
}

/// What `record_session` returns and leaves behind.
pub open spec fn record_session_spec(
    ctx: RecordVirtualSession,
    revenue_lamports: u64,
    payment: TransferOutcome,
) -> (Result<(), ErrorCode>, RecordVirtualSession) {
    if ctx.authority != game_engine_authority() {
        (Err(ErrorCode::Unauthorized), ctx)
    } else {
        let (res, after) = crate::virtual_plot::record_session_spec(
            ctx.delegated(),
            revenue_lamports,
            payment,
        );
        (res, RecordVirtualSession { plot: after.plot, ..ctx })
    }
}

/// Records a virtual session on a plot: checks that the identity
/// presented is the dispatcher's own, and calls the registry's
/// `record_session` with that identity as the caller. The plot changes as
/// the registry changes it.
///
/// Fails, and changes nothing, with `Unauthorized` where the identity
/// presented is not the dispatcher's own, and for the registry's reasons.
pub fn record_session(
    ctx: &mut RecordVirtualSession,
    revenue_lamports: u64,
    payment: TransferOutcome,
) -> (res: Result<(), ErrorCode>)
    ensures
        res is Ok <==> record_session_due(*old(ctx), revenue_lamports) is Ok && payment
            == TransferOutcome::Completed,
        res is Err ==> *final(ctx) == *old(ctx),
        (res, *final(ctx)) == record_session_spec(*old(ctx), revenue_lamports, payment),
{
    if ctx.authority != game_engine_authority_id() {
        return Err(ErrorCode::Unauthorized);
    }
    let mut delegated = RecordSession {
        plot_key: ctx.plot_key,
        plot: ctx.plot,
        payer: ctx.payer,
        authority: ctx.authority,
    };
    let res = crate::virtual_plot::record_session(&mut delegated, revenue_lamports, payment);
    ctx.plot = delegated.plot;
    res
}

/// The records that initialising the dispatcher touches.
#[derive(Clone, Copy, Debug, PartialEq, Eq)]
pub struct InitializeGameEngine {
    /// The slot of the dispatcher's identity record. It is `None` while
    /// none exists.
    pub game_engine: Option<GameEngineAuthority>,
    /// The signer.
    pub authority: Identity,
}

/// What `initialize_game_engine` returns and leaves behind.
pub open spec fn initialize_game_engine_spec(ctx: InitializeGameEngine) -> (
    Result<(), ErrorCode>,
    InitializeGameEngine,
) {
    if ctx.game_engine is Some {
        (Err(ErrorCode::AlreadyExists), ctx)
    } else {
        (Ok(()), InitializeGameEngine { game_engine: Some(GameEngineAuthority {  }), ..ctx })
    }
}

/// Creates the dispatcher's identity record.
///
/// Fails with `AlreadyExists`, and changes nothing, where it exists.
pub fn initialize_game_engine(ctx: &mut InitializeGameEngine) -> (res: Result<(), ErrorCode>)
    ensures
        res is Err ==> *final(ctx) == *old(ctx),
        (res, *final(ctx)) == initialize_game_engine_spec(*old(ctx)),
{
    if ctx.game_engine.is_some() {
        return Err(ErrorCode::AlreadyExists);
    }
    ctx.game_engine = Some(GameEngineAuthority {  });
    Ok(())
}

/// The seed that marks the dispatcher's identity: `game_engine`.
pub const GAME_ENGINE_SEED: [u8; 11] = [103, 97, 109, 101, 95, 101, 110, 103, 105, 110, 101];

/// The seeds of the dispatcher's identity: the mark alone.
pub open spec fn authority_seeds() -> Seq<Seq<u8>> {
    seq![GAME_ENGINE_SEED@]
}

/// Derives the dispatcher's identity from its seed, with its bump.
pub fn authority_address() -> (r: Option<(Identity, u8)>)
    ensures
        is_derived(r, game_engine_program(), authority_seeds()),
{
    let mut seeds: Vec<Vec<u8>> = Vec::new();
    seeds.push(array_to_vec(&GAME_ENGINE_SEED));
    proof {
        assert(seeds_view(seeds) =~= authority_seeds());
    }
    derive_identity(&game_engine_program_id(), &seeds)
}

} // verus!
