use vector_protocol::{CreatePool, Mint, PoolError, PoolRegistry, Pubkey, TokenAccount};

fn key(tag: u8) -> Pubkey {
    Pubkey::new_from_array([tag; 32])
}

fn creation(a: u8, b: u8, pool: u8) -> CreatePool {
    CreatePool {
        pool: key(pool),
        bump: 255,
        token_a_mint: key(a),
        token_b_mint: key(b),
        token_a_vault: TokenAccount { key: key(100 + a), mint: key(a), owner: key(pool), amount: 0 },
        token_b_vault: TokenAccount { key: key(100 + b), mint: key(b), owner: key(pool), amount: 0 },
        lp_mint: Mint { key: key(200 + pool), mint_authority: Some(key(pool)), supply: 0 },
    }
}

#[test]
fn empty_registry_finds_nothing() {
    let registry = PoolRegistry::new();
    assert_eq!(registry.find(&key(1), &key(2)), None);
}

#[test]
fn created_pool_is_found_under_its_pair() {
    let mut registry = PoolRegistry::new();
    let made = registry.create_pool(&creation(1, 2, 50), 30).unwrap();
    assert_eq!(made.token_a_mint, key(1));
    assert_eq!(made.token_b_mint, key(2));
    assert_eq!(made.trade_fee_bps, 30);
    assert_eq!(registry.find(&key(1), &key(2)), Some(made));
    assert_eq!(registry.find(&key(2), &key(1)), None);
    assert_eq!(registry.find(&key(1), &key(3)), None);
}

#[test]
fn second_pool_for_a_pair_is_refused() {
    let mut registry = PoolRegistry::new();
    let first = registry.create_pool(&creation(1, 2, 50), 30).unwrap();
    assert_eq!(
        registry.create_pool(&creation(1, 2, 50), 30),
        Err(PoolError::PoolAlreadyExists)
    );
    // another fee, another address: the pair decides
    assert_eq!(
        registry.create_pool(&creation(1, 2, 51), 100),
        Err(PoolError::PoolAlreadyExists)
    );
    // the existing pool is looked for before the accounts are checked
    let mut broken = creation(1, 2, 52);
    broken.lp_mint.supply = 7;
    assert_eq!(registry.create_pool(&broken, 30), Err(PoolError::PoolAlreadyExists));
    assert_eq!(registry.find(&key(1), &key(2)), Some(first));
}

#[test]
fn pairs_are_ordered() {
    let mut registry = PoolRegistry::new();
    let ab = registry.create_pool(&creation(1, 2, 50), 30).unwrap();
    let ba = registry.create_pool(&creation(2, 1, 51), 25).unwrap();
    let ac = registry.create_pool(&creation(1, 3, 52), 5).unwrap();
    assert_eq!(registry.find(&key(1), &key(2)), Some(ab));
    assert_eq!(registry.find(&key(2), &key(1)), Some(ba));
    assert_eq!(registry.find(&key(1), &key(3)), Some(ac));
    assert_eq!(ba.trade_fee_bps, 25);
    assert_eq!(registry.find(&key(3), &key(1)), None);
}

#[test]
fn refused_accounts_enter_nothing() {
    let mut registry = PoolRegistry::new();
    assert_eq!(
        registry.create_pool(&creation(1, 1, 50), 30),
        Err(PoolError::InvalidAssetPair)
    );
    let mut ctx = creation(1, 2, 50);
    ctx.token_a_vault.owner = key(9);
    assert_eq!(registry.create_pool(&ctx, 30), Err(PoolError::VaultOwnershipMismatch));
    let mut ctx = creation(1, 2, 50);
    ctx.lp_mint.mint_authority = None;
    assert_eq!(registry.create_pool(&ctx, 30), Err(PoolError::MintAuthorityMismatch));
    assert_eq!(registry.find(&key(1), &key(2)), None);
    assert_eq!(registry.find(&key(1), &key(1)), None);
    // the pair is still free
    assert!(registry.create_pool(&creation(1, 2, 50), 30).is_ok());
}
