use rmrk_proxy::proxy::{Action, AttachPolicy, CallOutcome, LazyMint};
use rmrk_proxy::selector::{entropy_input, index_from_digest, select_index};
use rmrk_proxy::traits::LazyMintProxy;
use rmrk_proxy::types::{AccountId, Data, OwnableError, ProxyError, ReentrancyGuardError};

const T: u64 = 1_700_000_000_000;

fn owner() -> AccountId {
    AccountId::new([1u8; 32])
}

fn stranger() -> AccountId {
    AccountId::new([9u8; 32])
}

fn collection() -> AccountId {
    AccountId::new([2u8; 32])
}

fn catalog() -> AccountId {
    AccountId::new([3u8; 32])
}

fn proxy(policy: AttachPolicy) -> LazyMint {
    LazyMint::new(owner(), collection(), catalog(), policy)
}

/// Runs a mint up to the attachment and returns the asset id it drew.
fn mint_until_attach(p: &mut LazyMint, caller: AccountId, total: u64, token: u64) -> u32 {
    assert_eq!(p.begin_mint(caller, 100, T), Action::ReadTotalAssets);
    assert_eq!(p.advance(CallOutcome::Success(total)), Action::Mint { payment: 100 });
    match p.advance(CallOutcome::Success(token)) {
        Action::AddAsset { token_id, asset_id } => {
            assert_eq!(token_id, token);
            asset_id
        }
        other => panic!("unexpected action {:?}", other),
    }
}

#[test]
fn same_as_compares_all_bytes() {
    let a = AccountId::new([7u8; 32]);
    let mut bytes = [7u8; 32];
    assert!(a.same_as(&AccountId::new(bytes)));
    bytes[31] = 8;
    assert!(!a.same_as(&AccountId::new(bytes)));
    bytes[31] = 7;
    bytes[0] = 0;
    assert!(!a.same_as(&AccountId::new(bytes)));
}

#[test]
fn entropy_is_timestamp_then_counter_big_endian() {
    let r = entropy_input(0x0102030405060708, 0x1112131415161718);
    assert_eq!(
        r,
        vec![1, 2, 3, 4, 5, 6, 7, 8, 0x11, 0x12, 0x13, 0x14, 0x15, 0x16, 0x17, 0x18]
    );
}

#[test]
fn index_is_first_digest_byte_modulo_count() {
    let mut digest = [0u8; 32];
    digest[0] = 0xc5;
    digest[1] = 0xff;
    assert_eq!(index_from_digest(&digest, 10), 7);
    assert_eq!(index_from_digest(&digest, 1), 0);
    assert_eq!(index_from_digest(&digest, 255), 197);
    assert_eq!(index_from_digest(&digest, 200), 197);
}

#[test]
fn select_index_hashes_with_keccak256() {
    // Keccak-256 of sixteen zero bytes starts with 0xf4 (244).
    assert_eq!(select_index(0, 0, 255), 244);
    assert_eq!(select_index(0, 0, 10), 4);
    assert_eq!(select_index(0, 0, 2), 0);
    assert_eq!(select_index(0, 0, 1), 0);
    assert_eq!(select_index(T, 0, 255), 95);
    assert_eq!(select_index(T, 1, 255), 227);
    assert_eq!(select_index(T, 2, 255), 254);
}

#[test]
fn selection_is_reproducible_and_moves_with_the_counter() {
    let first = select_index(T, 0, 10);
    let again = select_index(T, 0, 10);
    assert_eq!(first, 5);
    assert_eq!(first, again);
    assert_eq!(select_index(T, 1, 10), 7);
    assert_ne!(select_index(T, 1, 10), first);
}

#[test]
fn selection_stays_in_range() {
    for total in 1u32..256 {
        for counter in 0u64..4 {
            assert!((select_index(T, counter, total) as u32) < total);
        }
    }
    assert!((select_index(u64::MAX, u64::MAX, 255) as u32) < 255);
}

#[test]
fn draw_advances_counter_by_one_and_wraps() {
    let mut d = Data { rmrk_contract: None, catalog_contract: None, salt: 0 };
    assert_eq!(d.draw_asset_index(T, 10), 5);
    assert_eq!(d.salt, 1);
    assert_eq!(d.draw_asset_index(T, 10), 7);
    assert_eq!(d.salt, 2);
    let mut w = Data { rmrk_contract: None, catalog_contract: None, salt: u64::MAX };
    w.draw_asset_index(T, 10);
    assert_eq!(w.salt, 0);
}

#[test]
fn full_mint_attaches_and_transfers() {
    let mut p = proxy(AttachPolicy::Abort);
    let caller = stranger();
    let asset = mint_until_attach(&mut p, caller, 10, 42);
    assert_eq!(asset, 5);
    assert_eq!(
        p.advance(CallOutcome::Success(0)),
        Action::Transfer { to: caller, token_id: 42 }
    );
    assert_eq!(p.advance(CallOutcome::Success(0)), Action::Finish(Ok(())));
    // No mint is in progress any more.
    assert_eq!(p.advance(CallOutcome::Success(0)), Action::Trap);
}

#[test]
fn zero_assets_stop_before_minting() {
    let mut p = proxy(AttachPolicy::Tolerate);
    assert_eq!(p.begin_mint(stranger(), 100, T), Action::ReadTotalAssets);
    assert_eq!(
        p.advance(CallOutcome::Success(0)),
        Action::Finish(Err(ProxyError::NoAssetsDefined))
    );
    assert_eq!(p.advance(CallOutcome::Success(1)), Action::Trap);
    // The counter did not move: the next mint draws with counter zero.
    assert_eq!(mint_until_attach(&mut p, stranger(), 10, 1), 5);
}

#[test]
fn too_many_assets_stop_before_minting() {
    for count in [256u64, 257, 1000, u64::MAX] {
        let mut p = proxy(AttachPolicy::Tolerate);
        assert_eq!(p.begin_mint(stranger(), 100, T), Action::ReadTotalAssets);
        assert_eq!(
            p.advance(CallOutcome::Success(count)),
            Action::Finish(Err(ProxyError::TooManyAssetsDefined))
        );
        assert_eq!(p.advance(CallOutcome::Success(1)), Action::Trap);
    }
    let mut p = proxy(AttachPolicy::Tolerate);
    p.begin_mint(stranger(), 100, T);
    assert_eq!(p.advance(CallOutcome::Success(255)), Action::Mint { payment: 100 });
}

#[test]
fn unreadable_count_traps() {
    for outcome in [CallOutcome::Failure, CallOutcome::Unreachable] {
        let mut p = proxy(AttachPolicy::Tolerate);
        p.begin_mint(stranger(), 100, T);
        assert_eq!(p.advance(outcome), Action::Trap);
    }
}

#[test]
fn failed_mint_is_minting_error() {
    for outcome in [CallOutcome::Failure, CallOutcome::Unreachable] {
        let mut p = proxy(AttachPolicy::Tolerate);
        p.begin_mint(stranger(), 100, T);
        p.advance(CallOutcome::Success(10));
        assert_eq!(p.advance(outcome), Action::Finish(Err(ProxyError::MintingError)));
        // Nothing was drawn.
        assert_eq!(mint_until_attach(&mut p, stranger(), 10, 1), 5);
    }
}

#[test]
fn failed_attach_is_tolerated_or_fatal_by_policy() {
    let caller = stranger();
    let mut tolerant = proxy(AttachPolicy::Tolerate);
    mint_until_attach(&mut tolerant, caller, 10, 3);
    assert_eq!(
        tolerant.advance(CallOutcome::Failure),
        Action::Transfer { to: caller, token_id: 3 }
    );
    assert_eq!(tolerant.advance(CallOutcome::Success(0)), Action::Finish(Ok(())));

    let mut strict = proxy(AttachPolicy::Abort);
    mint_until_attach(&mut strict, caller, 10, 3);
    assert_eq!(
        strict.advance(CallOutcome::Unreachable),
        Action::Finish(Err(ProxyError::AddTokenAssetError))
    );
}

#[test]
fn failed_transfer_is_ownership_transfer_error() {
    for outcome in [CallOutcome::Failure, CallOutcome::Unreachable] {
        let mut p = proxy(AttachPolicy::Abort);
        mint_until_attach(&mut p, stranger(), 10, 8);
        p.advance(CallOutcome::Success(0));
        assert_eq!(
            p.advance(outcome),
            Action::Finish(Err(ProxyError::OwnershipTransferError))
        );
    }
}

#[test]
fn second_mint_while_one_runs_is_reentrant() {
    let mut p = proxy(AttachPolicy::Abort);
    p.begin_mint(stranger(), 100, T);
    assert_eq!(
        p.begin_mint(stranger(), 100, T),
        Action::Finish(Err(ProxyError::ReentrancyError(ReentrancyGuardError::ReentrantCall)))
    );
    // The first mint goes on undisturbed.
    assert_eq!(p.advance(CallOutcome::Success(10)), Action::Mint { payment: 100 });
}

#[test]
fn counter_counts_draws_whatever_fails_later() {
    let mut p = proxy(AttachPolicy::Abort);
    let caller = stranger();
    // Draw with counter 0, then the attachment fails.
    assert_eq!(mint_until_attach(&mut p, caller, 10, 1), 5);
    p.advance(CallOutcome::Failure);
    // Draw with counter 1, then the transfer fails.
    assert_eq!(mint_until_attach(&mut p, caller, 10, 2), 7);
    p.advance(CallOutcome::Success(0));
    p.advance(CallOutcome::Failure);
    // A mint that stops before the draw leaves the counter alone.
    p.begin_mint(caller, 100, T);
    p.advance(CallOutcome::Success(0));
    // Draw with counter 2, then with counter 3.
    assert_eq!(mint_until_attach(&mut p, caller, 255, 3), 254);
    p.advance(CallOutcome::Success(0));
    p.advance(CallOutcome::Success(0));
    assert_eq!(mint_until_attach(&mut p, caller, 10, 4), 8);
}

#[test]
fn setters_are_owner_only() {
    let mut p = proxy(AttachPolicy::Abort);
    let new_address = AccountId::new([5u8; 32]);
    let refused = Err(ProxyError::OwnableError(OwnableError::CallerIsNotOwner));

    assert_eq!(p.set_rmrk_contract_address(stranger(), new_address), refused);
    assert_eq!(p.set_catalog_contract_address(stranger(), new_address), refused);
    assert_eq!(p.rmrk_contract_address(), collection());
    assert_eq!(p.catalog_contract_address(), catalog());

    assert_eq!(p.set_rmrk_contract_address(owner(), new_address), Ok(()));
    assert_eq!(p.rmrk_contract_address(), new_address);
    assert_eq!(p.catalog_contract_address(), catalog());
    assert_eq!(p.set_catalog_contract_address(owner(), new_address), Ok(()));
    assert_eq!(p.catalog_contract_address(), new_address);
}

#[test]
fn errors_convert_from_guard_errors() {
    assert_eq!(
        ProxyError::from(OwnableError::CallerIsNotOwner),
        ProxyError::OwnableError(OwnableError::CallerIsNotOwner)
    );
    assert_eq!(
        ProxyError::from(OwnableError::NewOwnerIsZero),
        ProxyError::OwnableError(OwnableError::NewOwnerIsZero)
    );
    assert_eq!(
        ProxyError::from(ReentrancyGuardError::ReentrantCall),
        ProxyError::ReentrancyError(ReentrancyGuardError::ReentrantCall)
    );
}
