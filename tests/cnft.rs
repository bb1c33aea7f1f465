use registry::cnft::{
    burn_cnft, create_cnft, transfer_cnft, BurnCnft, CompressedNft, CreateCnft, ErrorCode,
    LeafRequest, TransferCnft,
};
use registry::key::Key;

fn key(n: u8) -> Key {
    Key::new([n; 32])
}

fn fresh() -> CreateCnft {
    CreateCnft { cnft: None, merkle_tree: key(7), tree_authority: key(8), owner: key(1) }
}

fn record(owner: Key) -> CompressedNft {
    CompressedNft {
        owner,
        name: "Gem".to_string(),
        symbol: "GEM".to_string(),
        uri: "https://example.org/gem.json".to_string(),
        seller_fee_basis_points: 500,
        primary_sale_happened: false,
        is_mutable: true,
        tree_id: key(7),
        leaf_id: 0,
    }
}

fn digest(r: &CompressedNft) -> [u8; 32] {
    anchor_lang::solana_program::keccak::hash(&r.try_to_vec().unwrap()).to_bytes()
}

#[test]
fn create_stores_the_inputs() {
    let mut ctx = fresh();
    let r = create_cnft(
        &mut ctx,
        "Gem".to_string(),
        "GEM".to_string(),
        "https://example.org/gem.json".to_string(),
        500,
    );
    let stored = ctx.cnft.clone().unwrap();
    assert_eq!(stored, record(key(1)));
    assert_eq!(
        r,
        Ok(LeafRequest::Append { tree: key(7), authority: key(1), leaf: digest(&stored) })
    );
    assert_eq!(ctx.merkle_tree, key(7));
}

#[test]
fn create_accepts_names_at_the_bound() {
    let mut ctx = fresh();
    let name: String = std::iter::repeat('é').take(32).collect();
    let r = create_cnft(&mut ctx, name.clone(), "S".to_string(), String::new(), 0);
    assert!(r.is_ok());
    assert_eq!(ctx.cnft.unwrap().name, name);
}

#[test]
fn create_rejects_a_long_name() {
    let mut ctx = fresh();
    let before = ctx.clone();
    let name = "n".repeat(33);
    let r = create_cnft(&mut ctx, name, "S".to_string(), String::new(), 0);
    assert_eq!(r, Err(ErrorCode::NameTooLong));
    assert_eq!(ctx, before);
    assert!(ctx.cnft.is_none());
}

#[test]
fn create_rejects_a_long_symbol() {
    let mut ctx = fresh();
    let r = create_cnft(&mut ctx, "n".to_string(), "s".repeat(11), String::new(), 0);
    assert_eq!(r, Err(ErrorCode::SymbolTooLong));
    assert!(ctx.cnft.is_none());
}

#[test]
fn create_rejects_a_long_uri() {
    let mut ctx = fresh();
    let r = create_cnft(&mut ctx, "n".to_string(), "s".to_string(), "u".repeat(201), 0);
    assert_eq!(r, Err(ErrorCode::UriTooLong));
    assert!(ctx.cnft.is_none());
}

#[test]
fn name_error_comes_before_symbol_error() {
    let mut ctx = fresh();
    let r = create_cnft(&mut ctx, "n".repeat(40), "s".repeat(40), String::new(), 20000);
    assert_eq!(r, Err(ErrorCode::NameTooLong));
}

#[test]
fn royalty_boundary() {
    let mut ctx = fresh();
    let r = create_cnft(&mut ctx, "n".to_string(), "s".to_string(), String::new(), 10000);
    assert!(r.is_ok());
    assert_eq!(ctx.cnft.unwrap().seller_fee_basis_points, 10000);

    let mut ctx = fresh();
    let r = create_cnft(&mut ctx, "n".to_string(), "s".to_string(), String::new(), 10001);
    assert_eq!(r, Err(ErrorCode::InvalidSellerFeeBasisPoints));
    assert!(ctx.cnft.is_none());
}

#[test]
fn create_refuses_an_account_in_use() {
    let mut ctx = fresh();
    ctx.cnft = Some(record(key(3)));
    let before = ctx.clone();
    let r = create_cnft(&mut ctx, "n".to_string(), "s".to_string(), String::new(), 0);
    assert_eq!(r, Err(ErrorCode::AccountAlreadyInUse));
    assert_eq!(ctx, before);
}

#[test]
fn serialized_record_layout() {
    let mut r = record(key(1));
    r.name = "ab".to_string();
    r.symbol = "é".to_string();
    r.uri = String::new();
    r.seller_fee_basis_points = 500;
    r.leaf_id = 0x0102;
    let mut expected: Vec<u8> = vec![1; 32];
    expected.extend_from_slice(&[2, 0, 0, 0, b'a', b'b']);
    expected.extend_from_slice(&[2, 0, 0, 0, 0xc3, 0xa9]);
    expected.extend_from_slice(&[0, 0, 0, 0]);
    expected.extend_from_slice(&[0xf4, 0x01, 0, 1]);
    expected.extend_from_slice(&[7; 32]);
    expected.extend_from_slice(&[2, 1, 0, 0, 0, 0, 0, 0]);
    assert_eq!(r.try_to_vec().unwrap(), expected);
}

#[test]
fn leaf_hash_is_the_keccak_digest_of_the_record() {
    let r = record(key(1));
    let bytes = r.try_to_vec().unwrap();
    let leaf = r.leaf_hash().unwrap();
    assert_eq!(leaf, anchor_lang::solana_program::keccak::hash(&bytes).to_bytes());
    assert_ne!(&leaf[..], &bytes[..32]);
    let mut other = record(key(2));
    other.leaf_id = 0;
    assert_ne!(other.leaf_hash().unwrap(), leaf);
}

#[test]
fn empty_record_layout() {
    let r = CompressedNft {
        owner: key(0),
        name: String::new(),
        symbol: String::new(),
        uri: String::new(),
        seller_fee_basis_points: 0,
        primary_sale_happened: false,
        is_mutable: false,
        tree_id: key(0),
        leaf_id: 0,
    };
    assert_eq!(r.try_to_vec().unwrap(), vec![0u8; 32 + 4 + 4 + 4 + 2 + 1 + 1 + 32 + 8]);
}

fn transfer_ctx(signer: Key) -> TransferCnft {
    TransferCnft {
        cnft: Some(record(key(1))),
        merkle_tree: key(7),
        tree_authority: key(8),
        owner: signer,
        recipient: key(9),
    }
}

#[test]
fn transfer_by_owner_moves_the_record() {
    let mut ctx = transfer_ctx(key(1));
    let r = transfer_cnft(&mut ctx);
    let mut expected = record(key(1));
    expected.owner = key(9);
    assert_eq!(ctx.cnft.clone().unwrap(), expected);
    let leaf = digest(&expected);
    assert_eq!(
        r,
        Ok(LeafRequest::Replace {
            tree: key(7),
            authority: key(1),
            index: 0,
            previous_leaf: leaf,
            new_leaf: leaf,
        })
    );
}

#[test]
fn transfer_by_non_owner_fails() {
    let mut ctx = transfer_ctx(key(5));
    let before = ctx.clone();
    let r = transfer_cnft(&mut ctx);
    assert_eq!(r, Err(ErrorCode::ConstraintHasOne));
    assert_eq!(ctx, before);
}

#[test]
fn transfer_of_an_empty_account_fails() {
    let mut ctx = transfer_ctx(key(1));
    ctx.cnft = None;
    assert_eq!(transfer_cnft(&mut ctx), Err(ErrorCode::AccountNotInitialized));
}

#[test]
fn burn_by_owner_removes_the_record() {
    let mut rec = record(key(1));
    rec.leaf_id = 4;
    let mut ctx = BurnCnft { cnft: Some(rec), merkle_tree: key(7), tree_authority: key(8), owner: key(1) };
    let r = burn_cnft(&mut ctx);
    assert_eq!(r, Ok(LeafRequest::Remove { tree: key(7), authority: key(1), index: 4 }));
    assert!(ctx.cnft.is_none());
}

#[test]
fn burn_by_non_owner_keeps_the_record() {
    let mut ctx =
        BurnCnft { cnft: Some(record(key(1))), merkle_tree: key(7), tree_authority: key(8), owner: key(2) };
    let before = ctx.clone();
    assert_eq!(burn_cnft(&mut ctx), Err(ErrorCode::ConstraintHasOne));
    assert_eq!(ctx, before);
}

#[test]
fn burn_of_an_empty_account_fails() {
    let mut ctx = BurnCnft { cnft: None, merkle_tree: key(7), tree_authority: key(8), owner: key(2) };
    assert_eq!(burn_cnft(&mut ctx), Err(ErrorCode::AccountNotInitialized));
}

#[test]
fn keys_compare_by_bytes() {
    let mut b = [3u8; 32];
    assert_eq!(Key::new(b), key(3));
    b[31] = 4;
    assert_ne!(Key::new(b), key(3));
}

#[test]
fn bounds_of_a_record() {
    let mut r = record(key(1));
    assert!(r.within_bounds());
    r.seller_fee_basis_points = 10001;
    assert!(!r.within_bounds());
    let mut r = record(key(1));
    r.symbol = "s".repeat(11);
    assert!(!r.within_bounds());
}
