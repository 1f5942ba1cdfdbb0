use vstd::prelude::*;
use crate::selector::{counter_after, lemma_counter_after_draws, selected_index};
use crate::traits::LazyMintProxy;
use crate::types::{AccountId, Data, OwnableError, ProxyError, ReentrancyGuardError, Result};

verus! {

/// What a failed asset attachment does to a mint: either it is tolerated and
/// the token is handed over without the asset, or the whole mint fails.
#[derive(Clone, Copy, Debug, PartialEq, Eq, Structural)]
pub enum AttachPolicy {
    Tolerate,
    Abort,
}

/// How a call to the collection registry came back.
#[derive(Clone, Copy, Debug, PartialEq, Eq, Structural)]
pub enum CallOutcome {
    /// The call succeeded; the value is the asset count for the count read,
    /// the new token's id for the mint, and ignored otherwise.
    Success(u64),
    /// The registry refused the call.
    Failure,
    /// The call could not be made or its answer could not be decoded.
    Unreachable,
}

/// What the host has to do next for a mint in progress.
#[derive(Clone, Copy, Debug, PartialEq, Eq)]
pub enum Action {
    /// Ask the collection how many assets it defines.
    ReadTotalAssets,
    /// Mint a token on the collection, forwarding the payment.
    Mint { payment: u128 },
    /// Attach the selected asset to the new token.
    AddAsset { token_id: u64, asset_id: u32 },
    /// Hand the new token over to the caller.
    Transfer { to: AccountId, token_id: u64 },
    /// The mint is over; report this result to the caller.
    Finish(Result<()>),
    /// The host transaction must fail as a whole.
    Trap,
}

/// Where a mint stands between two registry calls.
#[derive(Clone, Copy, Debug, PartialEq, Eq)]
pub enum Phase {
    Idle,
    ReadingCount { caller: AccountId, payment: u128, timestamp: u64 },
    Minting { caller: AccountId, timestamp: u64, total_assets: u32 },
    Attaching { caller: AccountId, token_id: u64 },
    Transferring { caller: AccountId, token_id: u64 },
}

/// The step table of a mint: from the phase, the attach policy, the counter
/// and the outcome of the last registry call, the next phase, the action for
/// the host, and the counter afterwards.
pub open spec fn next_step(phase: Phase, policy: AttachPolicy, salt: u64, outcome: CallOutcome) -> (
    Phase,
    Action,
    u64,
) {
    match phase {
        Phase::Idle => (Phase::Idle, Action::Trap, salt),
        Phase::ReadingCount { caller, payment, timestamp } => match outcome {
            CallOutcome::Success(n) => if n == 0 {
                (Phase::Idle, Action::Finish(Err(ProxyError::NoAssetsDefined)), salt)
            } else if n >= 256 {
                (Phase::Idle, Action::Finish(Err(ProxyError::TooManyAssetsDefined)), salt)
            } else {
                (
                    Phase::Minting { caller, timestamp, total_assets: n as u32 },
                    Action::Mint { payment },
                    salt,
                )
            },
            _ => (Phase::Idle, Action::Trap, salt),
        },
        Phase::Minting { caller, timestamp, total_assets } => match outcome {
            CallOutcome::Success(token_id) => (
                Phase::Attaching { caller, token_id },
                Action::AddAsset {
                    token_id,
                    asset_id: selected_index(timestamp, salt, total_assets) as u32,
                },
                counter_after(salt, 1),
            ),
            _ => (Phase::Idle, Action::Finish(Err(ProxyError::MintingError)), salt),
        },
        Phase::Attaching { caller, token_id } => match outcome {
            CallOutcome::Success(_) => (
                Phase::Transferring { caller, token_id },
                Action::Transfer { to: caller, token_id },
                salt,
            ),
            _ => if policy == AttachPolicy::Abort {
                (Phase::Idle, Action::Finish(Err(ProxyError::AddTokenAssetError)), salt)
            } else {
                (Phase::Transferring { caller, token_id }, Action::Transfer { to: caller, token_id }, salt)
            },
        },
        Phase::Transferring { .. } => match outcome {
            CallOutcome::Success(_) => (Phase::Idle, Action::Finish(Ok(())), salt),
            _ => (Phase::Idle, Action::Finish(Err(ProxyError::OwnershipTransferError)), salt),
        },
    }
}

/// Phase and counter after a run of registry outcomes, fed one by one.
pub open spec fn run_steps(phase: Phase, policy: AttachPolicy, salt: u64, outcomes: Seq<CallOutcome>) -> (
    Phase,
    u64,
)
    decreases outcomes.len(),
{
    if outcomes.len() == 0 {
        (phase, salt)
    } else {
        let (p, _, s) = next_step(phase, policy, salt, outcomes[0]);
        run_steps(p, policy, s, outcomes.drop_first())
    }
}

/// Whether a step draws an asset index: a successful mint.
pub open spec fn draws(phase: Phase, outcome: CallOutcome) -> bool {
    phase is Minting && outcome is Success
}

/// How many of the steps of a run draw an asset index.
pub open spec fn draws_in_run(phase: Phase, policy: AttachPolicy, salt: u64, outcomes: Seq<CallOutcome>) -> nat
    decreases outcomes.len(),
{
    if outcomes.len() == 0 {
        0
    } else {
        let (p, _, s) = next_step(phase, policy, salt, outcomes[0]);
        (if draws(phase, outcomes[0]) { 1nat } else { 0nat }) + draws_in_run(p, policy, s, outcomes.drop_first())
    }
}

/// A step moves the counter on by exactly one when it draws an asset index,
/// and leaves it alone otherwise, whatever else fails.
pub proof fn lemma_counter_moves_only_on_draw(phase: Phase, policy: AttachPolicy, salt: u64, outcome: CallOutcome)
    ensures
        next_step(phase, policy, salt, outcome).2 == (if draws(phase, outcome) {
            counter_after(salt, 1)
        } else {
            salt
        }),
{
}

/// After any run of registry outcomes the counter equals its first value plus
/// the number of draws in the run, modulo the integer width, however many of
/// the later calls failed.
pub proof fn lemma_counter_counts_draws(phase: Phase, policy: AttachPolicy, salt: u64, outcomes: Seq<CallOutcome>)
    ensures
        run_steps(phase, policy, salt, outcomes).1 as int == (salt as int + draws_in_run(
            phase,
            policy,
            salt,
            outcomes,
        )) % 0x1_0000_0000_0000_0000,
    decreases outcomes.len(),
{
    if outcomes.len() > 0 {
        let (p, _, s) = next_step(phase, policy, salt, outcomes[0]);
        lemma_counter_counts_draws(p, policy, s, outcomes.drop_first());
        lemma_counter_moves_only_on_draw(phase, policy, salt, outcomes[0]);
        lemma_counter_after_draws(salt, 1);
        let k = draws_in_run(p, policy, s, outcomes.drop_first());
        let m: int = 0x1_0000_0000_0000_0000;
        if draws(phase, outcomes[0]) {
            assert(s as int == (salt as int + 1) % m);
            vstd::arithmetic::div_mod::lemma_add_mod_noop(salt as int + 1, k as int, m);
            vstd::arithmetic::div_mod::lemma_mod_twice(k as int, m);
            vstd::arithmetic::div_mod::lemma_small_mod(s as nat, m as nat);
            assert((s as int + k) % m == (salt as int + 1 + k) % m);
        }
    }
}

/// A count read of zero ends the mint with `NoAssetsDefined`: no mint, no
/// attachment, no transfer follows, and the counter stays.
pub proof fn lemma_no_assets_stops(
    caller: AccountId,
    payment: u128,
    timestamp: u64,
    policy: AttachPolicy,
    salt: u64,
)
    ensures
        next_step(Phase::ReadingCount { caller, payment, timestamp }, policy, salt, CallOutcome::Success(0))
            == (Phase::Idle, Action::Finish(Err(ProxyError::NoAssetsDefined)), salt),
{
}

/// A count read of 256 or more ends the mint with `TooManyAssetsDefined`, and
/// no further call follows.
pub proof fn lemma_too_many_assets_stops(
    caller: AccountId,
    payment: u128,
    timestamp: u64,
    policy: AttachPolicy,
    salt: u64,
    count: u64,
)
    requires
        count >= 256,
    ensures
        next_step(Phase::ReadingCount { caller, payment, timestamp }, policy, salt, CallOutcome::Success(count))
            == (Phase::Idle, Action::Finish(Err(ProxyError::TooManyAssetsDefined)), salt),
{
}

/// A failed transfer, after the mint and the attachment, is reported as
/// `OwnershipTransferError` and as nothing else.
pub proof fn lemma_failed_transfer_reported(
    caller: AccountId,
    token_id: u64,
    policy: AttachPolicy,
    salt: u64,
    outcome: CallOutcome,
)
    requires
        !(outcome is Success),
    ensures
        next_step(Phase::Transferring { caller, token_id }, policy, salt, outcome)
            == (Phase::Idle, Action::Finish(Err(ProxyError::OwnershipTransferError)), salt),
{
}

/// The lazy-mint proxy: its storage, its owner, its attach policy and the
/// mint in progress, if any.
pub struct LazyMint {
    data: Data,
    owner: AccountId,
    policy: AttachPolicy,
    phase: Phase,
}

impl LazyMint {
    #[verifier::type_invariant]
    closed spec fn addresses_set(&self) -> bool {
        &&& self.data.rmrk_contract is Some
        &&& self.data.catalog_contract is Some
        &&& self.phase matches Phase::Minting { total_assets, .. } ==> 0 < total_assets < 256
    }

    /// The counter mixed into the next draw.
    pub closed spec fn salt(&self) -> u64 {
        self.data.salt
    }

    pub closed spec fn phase(&self) -> Phase {
        self.phase
    }

    pub closed spec fn policy(&self) -> AttachPolicy {
        self.policy
    }

    /// A proxy owned by `owner`, talking to the given collection and catalog,
    /// with its counter at zero and no mint in progress.
    pub fn new(owner: AccountId, rmrk_contract: AccountId, catalog_contract: AccountId, policy: AttachPolicy) -> (r: LazyMint)
        ensures
            r.owner_address() == owner,
            r.collection_address() == rmrk_contract,
            r.catalog_address() == catalog_contract,
            r.policy() == policy,
            r.salt() == 0,
            r.phase() == Phase::Idle,
    {
        LazyMint {
            data: Data { rmrk_contract: Some(rmrk_contract), catalog_contract: Some(catalog_contract), salt: 0 },
            owner,
            policy,
            phase: Phase::Idle,
        }
    }

    /// Starts a mint for `caller`, who attached `payment`, in a block with the
    /// given timestamp. While another mint is in progress the call is refused
    /// and nothing changes.
    pub fn begin_mint(&mut self, caller: AccountId, payment: u128, timestamp: u64) -> (r: Action)
        ensures
            final(self).owner_address() == old(self).owner_address(),
            final(self).collection_address() == old(self).collection_address(),
            final(self).catalog_address() == old(self).catalog_address(),
            final(self).policy() == old(self).policy(),
            final(self).salt() == old(self).salt(),
            old(self).phase() == Phase::Idle ==> r == Action::ReadTotalAssets
                && final(self).phase() == (Phase::ReadingCount { caller, payment, timestamp }),
            old(self).phase() != Phase::Idle ==> r == Action::Finish(
                Err(ProxyError::ReentrancyError(ReentrancyGuardError::ReentrantCall)),
            ) && final(self).phase() == old(self).phase(),
    {
        proof {
            use_type_invariant(&*self);
        }
        match self.phase {
            Phase::Idle => {
                self.phase = Phase::ReadingCount { caller, payment, timestamp };
                Action::ReadTotalAssets
            },
            _ => Action::Finish(Err(ProxyError::from(ReentrancyGuardError::ReentrantCall))),
        }
    }

    /// Takes the outcome of the last registry call and decides the next step,
    /// as `next_step` tabulates it. Right after a successful mint this draws
    /// the asset index and advances the counter.
    pub fn advance(&mut self, outcome: CallOutcome) -> (r: Action)
        ensures
            (final(self).phase(), r, final(self).salt()) == next_step(
                old(self).phase(),
                old(self).policy(),
                old(self).salt(),
                outcome,
            ),
            final(self).owner_address() == old(self).owner_address(),
            final(self).collection_address() == old(self).collection_address(),
            final(self).catalog_address() == old(self).catalog_address(),
            final(self).policy() == old(self).policy(),
    {
        proof {
            use_type_invariant(&*self);
        }
        match self.phase {
            Phase::Idle => Action::Trap,
            Phase::ReadingCount { caller, payment, timestamp } => match outcome {
                CallOutcome::Success(n) => {
                    if n == 0 {
                        self.phase = Phase::Idle;
                        Action::Finish(Err(ProxyError::NoAssetsDefined))
                    } else if n >= 256 {
                        self.phase = Phase::Idle;
                        Action::Finish(Err(ProxyError::TooManyAssetsDefined))
                    } else {
                        self.phase = Phase::Minting { caller, timestamp, total_assets: n as u32 };
                        Action::Mint { payment }
                    }
                },
                _ => {
                    self.phase = Phase::Idle;
                    Action::Trap
                },
            },
            Phase::Minting { caller, timestamp, total_assets } => match outcome {
                CallOutcome::Success(token_id) => {
                    let mut data = Data {
                        rmrk_contract: self.data.rmrk_contract,
                        catalog_contract: self.data.catalog_contract,
                        salt: self.data.salt,
                    };
                    let index = data.draw_asset_index(timestamp, total_assets);
                    self.data = data;
                    self.phase = Phase::Attaching { caller, token_id };
                    Action::AddAsset { token_id, asset_id: index as u32 }
                },
                _ => {
                    self.phase = Phase::Idle;
                    Action::Finish(Err(ProxyError::MintingError))
                },
            },
            Phase::Attaching { caller, token_id } => match outcome {
                CallOutcome::Success(_) => {
                    self.phase = Phase::Transferring { caller, token_id };
                    Action::Transfer { to: caller, token_id }
                },
                _ => {
                    if self.policy == AttachPolicy::Abort {
                        self.phase = Phase::Idle;
                        Action::Finish(Err(ProxyError::AddTokenAssetError))
                    } else {
                        self.phase = Phase::Transferring { caller, token_id };
                        Action::Transfer { to: caller, token_id }
                    }
                },
            },
            Phase::Transferring { .. } => {
                self.phase = Phase::Idle;
                match outcome {
                    CallOutcome::Success(_) => Action::Finish(Ok(())),
                    _ => Action::Finish(Err(ProxyError::OwnershipTransferError)),
                }
            },
        }
    }
}

impl LazyMintProxy for LazyMint {
    closed spec fn collection_address(&self) -> AccountId {
        self.data.rmrk_contract.unwrap()
    }

    closed spec fn catalog_address(&self) -> AccountId {
        self.data.catalog_contract.unwrap()
    }

    closed spec fn owner_address(&self) -> AccountId {
        self.owner
    }

    fn rmrk_contract_address(&self) -> (r: AccountId) {
        proof {
            use_type_invariant(self);
        }
        self.data.rmrk_contract.unwrap()
    }

    fn catalog_contract_address(&self) -> (r: AccountId) {
        proof {
            use_type_invariant(self);
        }
        self.data.catalog_contract.unwrap()
    }

    fn set_rmrk_contract_address(&mut self, caller: AccountId, new_contract_address: AccountId) -> (r: Result<()>) {
        proof {
            use_type_invariant(&*self);
        }
        if !caller.same_as(&self.owner) {
            return Err(ProxyError::from(OwnableError::CallerIsNotOwner));
        }
        self.data.rmrk_contract = Some(new_contract_address);
        Ok(())
    }

    fn set_catalog_contract_address(&mut self, caller: AccountId, new_contract_address: AccountId) -> (r: Result<()>) {
        proof {
            use_type_invariant(&*self);
        }
        if !caller.same_as(&self.owner) {
            return Err(ProxyError::from(OwnableError::CallerIsNotOwner));
        }
        self.data.catalog_contract = Some(new_contract_address);
        Ok(())
    }
}

} // verus!
