use vstd::prelude::*;
use vstd::std_specs::cmp::PartialEqSpecImpl;

verus! {

/// A deterministic, reproducible 32-byte value that both addresses a record
/// and names a caller.
#[derive(Clone, Copy, Debug, Eq)]
pub struct Identity {
    pub bytes: [u8; 32],
}

impl View for Identity {
    type V = Seq<u8>;

    open spec fn view(&self) -> Seq<u8> {
        self.bytes@
    }
}

impl PartialEq for Identity {
    fn eq(&self, other: &Identity) -> (r: bool) {
        let mut i: usize = 0;
        while i < 32
            invariant
                i <= 32,
                forall|j: int| 0 <= j < i ==> self.bytes[j] == other.bytes[j],
            decreases 32 - i,
        {
            if self.bytes[i] != other.bytes[i] {
                return false;
            }
            i = i + 1;
        }
        proof {
            assert(self.bytes =~= other.bytes);
        }
        true
    }
}

impl PartialEqSpecImpl for Identity {
    open spec fn obeys_eq_spec() -> bool {
        true
    }

    open spec fn eq_spec(&self, other: &Identity) -> bool {
        *self == *other
    }
}

/// Two identities are the same exactly when their bytes are the same.
pub proof fn lemma_identity_extensional(a: Identity, b: Identity)
    ensures
        (a@ == b@) == (a == b),
{
    if a@ == b@ {
        assert(a.bytes =~= b.bytes);
    }
}

impl Identity {
    /// The identity made of the given bytes.
    pub fn new(bytes: [u8; 32]) -> (id: Identity)
        ensures
            id.bytes == bytes,
    {
        Identity { bytes }
    }

    /// Reads an identity from a run of bytes: `Some` exactly when there
    /// are 32 of them, and then the identity made of those bytes.
    pub fn from_slice(data: &[u8]) -> (r: Option<Identity>)
        ensures
            r is Some <==> data@.len() == 32,
            r matches Some(id) ==> id@ == data@,
    {
        if data.len() != 32 {
            return None;
        }
        let mut bytes: [u8; 32] = [0u8; 32];
        let mut i: usize = 0;
        while i < 32
            invariant
                i <= 32,
                data@.len() == 32,
                forall|j: int| 0 <= j < i ==> bytes[j] == data@[j],
            decreases 32 - i,
        {
            bytes[i] = data[i];
            i = i + 1;
        }
        proof {
            assert(bytes@ =~= data@);
        }
        Some(Identity { bytes })
    }

    /// The 32 bytes of the identity, in order.
    pub fn to_vec(&self) -> (v: Vec<u8>)
        ensures
            v@ == self@,
    {
        let mut v: Vec<u8> = Vec::new();
        let mut i: usize = 0;
        while i < 32
            invariant
                i <= 32,
                v@.len() == i,
                forall|j: int| 0 <= j < i ==> v@[j] == self.bytes[j],
            decreases 32 - i,
        {
            v.push(self.bytes[i]);
            i = i + 1;
        }
        proof {
            assert(v@ =~= self@);
        }
        v
    }
}

/// The session ledger service.
pub const CHARGING_SESSION_BYTES: [u8; 32] = [
    69, 27, 141, 79, 46, 230, 46, 168, 1, 109, 144, 125, 11, 139, 115, 23, 227, 57, 238, 105, 116,
    124, 163, 249, 244, 75, 8, 19, 206, 132, 201, 234,
];

/// The session ledger service.
pub open spec fn charging_session_program() -> Identity {
    Identity { bytes: CHARGING_SESSION_BYTES }
}

/// The session ledger service.
#[verifier::when_used_as_spec(charging_session_program)]
pub fn charging_session_program_id() -> (id: Identity)
    ensures
        id == charging_session_program(),
{
    Identity { bytes: CHARGING_SESSION_BYTES }
}

/// The points marketplace service.
pub const POINTS_MARKETPLACE_BYTES: [u8; 32] = [
    124, 154, 155, 152, 2, 108, 53, 106, 154, 206, 71, 207, 86, 175, 48, 104, 132, 222, 17, 202, 54,
    88, 243, 229, 214, 139, 20, 50, 42, 93, 195, 136,
];

/// The points marketplace service.
pub open spec fn marketplace_program() -> Identity {
    Identity { bytes: POINTS_MARKETPLACE_BYTES }
}

/// The points marketplace service.
#[verifier::when_used_as_spec(marketplace_program)]
pub fn marketplace_program_id() -> (id: Identity)
    ensures
        id == marketplace_program(),
{
    Identity { bytes: POINTS_MARKETPLACE_BYTES }
}

/// The virtual-plot registry.
pub const VIRTUAL_PLOT_BYTES: [u8; 32] = [
    207, 67, 51, 190, 16, 211, 220, 6, 200, 174, 9, 244, 3, 125, 89, 157, 21, 188, 93, 142, 80, 84,
    192, 226, 21, 36, 247, 165, 184, 164, 185, 67,
];

/// The virtual-plot registry.
pub open spec fn virtual_plot_program() -> Identity {
    Identity { bytes: VIRTUAL_PLOT_BYTES }
}

/// The virtual-plot registry.
#[verifier::when_used_as_spec(virtual_plot_program)]
pub fn virtual_plot_program_id() -> (id: Identity)
    ensures
        id == virtual_plot_program(),
{
    Identity { bytes: VIRTUAL_PLOT_BYTES }
}

/// The game-engine dispatcher.
pub const GAME_ENGINE_BYTES: [u8; 32] = [
    231, 106, 207, 123, 39, 202, 215, 5, 71, 121, 50, 164, 160, 44, 171, 224, 56, 187, 160, 138,
    178, 17, 206, 126, 16, 229, 35, 121, 147, 136, 198, 142,
];

/// The game-engine dispatcher.
pub open spec fn game_engine_program() -> Identity {
    Identity { bytes: GAME_ENGINE_BYTES }
}

/// The game-engine dispatcher.
#[verifier::when_used_as_spec(game_engine_program)]
pub fn game_engine_program_id() -> (id: Identity)
    ensures
        id == game_engine_program(),
{
    Identity { bytes: GAME_ENGINE_BYTES }
}

/// The identity under which the game-engine dispatcher calls the
/// virtual-plot registry: the one derived from the seed `game_engine` in the
/// dispatcher's own namespace.
pub const GAME_ENGINE_AUTHORITY_BYTES: [u8; 32] = [
    245, 90, 17, 39, 78, 246, 73, 86, 221, 118, 55, 255, 44, 251, 151, 56, 163, 186, 42, 12, 243,
    107, 85, 117, 40, 239, 76, 148, 120, 251, 24, 79,
];

/// The identity under which the game-engine dispatcher calls the
/// virtual-plot registry: the one derived from the seed `game_engine` in the
/// dispatcher's own namespace.
pub open spec fn game_engine_authority() -> Identity {
    Identity { bytes: GAME_ENGINE_AUTHORITY_BYTES }
}

/// The identity under which the game-engine dispatcher calls the
/// virtual-plot registry: the one derived from the seed `game_engine` in the
/// dispatcher's own namespace.
#[verifier::when_used_as_spec(game_engine_authority)]
pub fn game_engine_authority_id() -> (id: Identity)
    ensures
        id == game_engine_authority(),
{
    Identity { bytes: GAME_ENGINE_AUTHORITY_BYTES }
}

/// The callers that may credit and debit a user's points: the points
/// marketplace and the virtual-plot registry.
pub open spec fn points_allow_list() -> Seq<Identity> {
    seq![marketplace_program(), virtual_plot_program()]
}

/// The callers that may mark a voucher redeemed: the session ledger alone.
pub open spec fn voucher_allow_list() -> Seq<Identity> {
    seq![charging_session_program()]
}

/// The callers that may post session revenue to a plot: the game-engine
/// dispatcher alone.
pub open spec fn revenue_allow_list() -> Seq<Identity> {
    seq![game_engine_authority()]
}

/// The callers that may credit and debit a user's points.
pub fn points_callers() -> (list: [Identity; 2])
    ensures
        list@ == points_allow_list(),
{
    let list = [marketplace_program_id(), virtual_plot_program_id()];
    proof {
        assert(list@ =~= points_allow_list());
    }
    list
}

/// The callers that may mark a voucher redeemed.
pub fn voucher_callers() -> (list: [Identity; 1])
    ensures
        list@ == voucher_allow_list(),
{
    let list = [charging_session_program_id()];
    proof {
        assert(list@ =~= voucher_allow_list());
    }
    list
}

/// The callers that may post session revenue to a plot.
pub fn revenue_callers() -> (list: [Identity; 1])
    ensures
        list@ == revenue_allow_list(),
{
    let list = [game_engine_authority_id()];
    proof {
        assert(list@ =~= revenue_allow_list());
    }
    list
}

/// Whether the caller is one of the identities on the allow-list.
pub fn verify_caller(caller: &Identity, allow_list: &[Identity]) -> (allowed: bool)
    ensures
        allowed == allow_list@.contains(*caller),
{
    let mut i: usize = 0;
    while i < allow_list.len()
        invariant
            i <= allow_list@.len(),
            forall|j: int| 0 <= j < i ==> allow_list@[j] != *caller,
        decreases allow_list@.len() - i,
    {
        if allow_list[i] == *caller {
            return true;
        }
        i = i + 1;
    }
    false
}

/// The most seeds that an identity can be derived from.
pub const MAX_SEEDS: usize = 15;

/// The most bytes that one seed can hold.
pub const MAX_SEED_LEN: usize = 32;

/// The identity that a namespace and an ordered list of seeds derive,
/// with the bump that completes the seeds, or `None` where they derive
/// none. It is a function of the seeds and the namespace alone.
pub uninterp spec fn derived_identity(namespace: Seq<u8>, seeds: Seq<Seq<u8>>) -> Option<
    (Seq<u8>, u8),
>;

/// Whether the seeds are few and short enough to derive an identity from.
pub open spec fn seeds_in_bounds(seeds: Seq<Seq<u8>>) -> bool {
    &&& seeds.len() <= MAX_SEEDS
    &&& forall|i: int| 0 <= i < seeds.len() ==> (#[trigger] seeds[i]).len() <= MAX_SEED_LEN
}

/// The seeds as a sequence of byte strings.
pub open spec fn seeds_view(seeds: Vec<Vec<u8>>) -> Seq<Seq<u8>> {
    Seq::new(seeds@.len(), |i: int| seeds@[i]@)
}

/// Whether `r` is what the namespace and the seeds derive.
pub open spec fn is_derived(
    r: Option<(Identity, u8)>,
    namespace: Identity,
    seeds: Seq<Seq<u8>>,
) -> bool {
    match r {
        Some((id, bump)) => derived_identity(namespace@, seeds) == Some((id@, bump)),
        None => derived_identity(namespace@, seeds) is None,
    }
}

/// The bump of a record that stands at `key`, given what its seeds
/// derive: `Some` exactly where they derive `key`.
pub fn located_at(key: &Identity, derived: Option<(Identity, u8)>) -> (r: Option<u8>)
    ensures
        r == match derived {
            Some((id, bump)) => if id == *key {
                Some(bump)
            } else {
                None
            },
            None => None,
        },
{
    match derived {
        Some((id, bump)) => if id == *key {
            Some(bump)
        } else {
            None
        },
        None => None,
    }
}

/// Calls `Pubkey::try_find_program_address` of `anchor_lang`'s
/// `solana_program::pubkey`, with the namespace as the program id.
///
/// Trusted: the result is the named function of the namespace and the
/// seeds, and it is `None` where there are more than 15 seeds or a seed is
/// longer than 32 bytes. That some bump yields an identity for all other
/// seeds is not claimed.
#[verifier::external_body]
fn find_program_address(namespace: &Identity, seeds: &Vec<Vec<u8>>) -> (r: Option<(Identity, u8)>)
    ensures
        match r {
            Some((id, bump)) => derived_identity(namespace@, seeds_view(*seeds)) == Some(
                (id@, bump),
            ),
            None => derived_identity(namespace@, seeds_view(*seeds)) is None,
        },
        !seeds_in_bounds(seeds_view(*seeds)) ==> r is None,
{
    let parts: Vec<&[u8]> = seeds.iter().map(|seed| seed.as_slice()).collect();
    let program_id = anchor_lang::solana_program::pubkey::Pubkey::new_from_array(namespace.bytes);
    anchor_lang::solana_program::pubkey::Pubkey::try_find_program_address(&parts, &program_id)
        .map(|(key, bump)| (Identity { bytes: key.to_bytes() }, bump))
}

/// Derives the identity of a record from a namespace and ordered seed
/// parts. The same namespace and seeds give the same identity to every
/// party, so a record can be addressed without being looked up.
///
/// Returns the identity and the bump that completes the seeds. Seeds that
/// are out of bounds derive nothing.
pub fn derive_identity(namespace: &Identity, seeds: &Vec<Vec<u8>>) -> (r: Option<(Identity, u8)>)
    ensures
        is_derived(r, *namespace, seeds_view(*seeds)),
        !seeds_in_bounds(seeds_view(*seeds)) ==> r is None,
{
    find_program_address(namespace, seeds)
}

} // verus!
