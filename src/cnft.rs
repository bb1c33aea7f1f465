use vstd::prelude::*;
use vstd::string::StrSliceExecFns;
use crate::key::Key;
use crate::layout::{
    fits_prefix, le_bytes, lemma_text_bytes_bound, push_all, push_le, push_text, sized,
    text_bytes,
};

verus! {

/// Longest name, in characters.
pub const MAX_NAME_CHARS: usize = 32;

/// Longest symbol, in characters.
pub const MAX_SYMBOL_CHARS: usize = 10;

/// Longest URI, in characters.
pub const MAX_URI_CHARS: usize = 200;

/// Largest royalty, in basis points (100%).
pub const MAX_SELLER_FEE_BASIS_POINTS: u16 = 10000;

/// A compressed NFT: its metadata, and the Merkle tree and leaf that hold its hash.
#[derive(Clone, Debug, PartialEq, Eq)]
pub struct CompressedNft {
    pub owner: Key,
    pub name: String,
    pub symbol: String,
    pub uri: String,
    pub seller_fee_basis_points: u16,
    pub primary_sale_happened: bool,
    pub is_mutable: bool,
    pub tree_id: Key,
    pub leaf_id: u64,
}

/// Why an entry point refused to act.
#[derive(Clone, Copy, Debug, PartialEq, Eq, Structural)]
pub enum ErrorCode {
    NameTooLong,
    SymbolTooLong,
    UriTooLong,
    InvalidSellerFeeBasisPoints,
    /// The record account already holds a record.
    AccountAlreadyInUse,
    /// The record account holds no record.
    AccountNotInitialized,
    /// The signer is not the record's owner.
    ConstraintHasOne,
}

/// A call to make into the compression program, signed by `authority`,
/// against the Merkle tree `tree`.
#[derive(Clone, Copy, Debug, PartialEq, Eq)]
pub enum LeafRequest {
    Append { tree: Key, authority: Key, leaf: [u8; 32] },
    Replace { tree: Key, authority: Key, index: u32, previous_leaf: [u8; 32], new_leaf: [u8; 32] },
    Remove { tree: Key, authority: Key, index: u32 },
}

/// The accounts of a mint: the record account (empty before the mint), the
/// tree that receives the leaf, and the signing owner.
#[derive(Clone, Debug, PartialEq, Eq)]
pub struct CreateCnft {
    pub cnft: Option<CompressedNft>,
    pub merkle_tree: Key,
    pub tree_authority: Key,
    pub owner: Key,
}

/// The accounts of a transfer: the record, its tree, the signer and the new owner.
#[derive(Clone, Debug, PartialEq, Eq)]
pub struct TransferCnft {
    pub cnft: Option<CompressedNft>,
    pub merkle_tree: Key,
    pub tree_authority: Key,
    pub owner: Key,
    pub recipient: Key,
}

/// The accounts of a burn: the record, its tree and the signer.
#[derive(Clone, Debug, PartialEq, Eq)]
pub struct BurnCnft {
    pub cnft: Option<CompressedNft>,
    pub merkle_tree: Key,
    pub tree_authority: Key,
    pub owner: Key,
}

impl CompressedNft {
    /// The bounds that every stored record keeps.
    pub open spec fn wf(&self) -> bool {
        &&& self.name@.len() <= MAX_NAME_CHARS
        &&& self.symbol@.len() <= MAX_SYMBOL_CHARS
        &&& self.uri@.len() <= MAX_URI_CHARS
        &&& self.seller_fee_basis_points <= MAX_SELLER_FEE_BASIS_POINTS
    }
}

/// A flag as the byte value it is stored as.
pub open spec fn bool_byte(b: bool) -> nat {
    if b {
        1
    } else {
        0
    }
}

/// The record's serialized form: keys as raw bytes, texts as a `u32` byte
/// length and UTF-8, integers little-endian, flags as one byte each.
pub open spec fn record_bytes(r: CompressedNft) -> Seq<u8> {
    r.owner@ + sized(text_bytes(r.name@)) + sized(text_bytes(r.symbol@)) + sized(
        text_bytes(r.uri@),
    ) + le_bytes(r.seller_fee_basis_points as nat, 2) + le_bytes(
        bool_byte(r.primary_sale_happened),
        1,
    ) + le_bytes(bool_byte(r.is_mutable), 1) + r.tree_id@ + le_bytes(r.leaf_id as nat, 8)
}

/// Every text of the record has a byte length that a `u32` prefix can hold.
pub open spec fn encodable(r: CompressedNft) -> bool {
    fits_prefix(r.name@) && fits_prefix(r.symbol@) && fits_prefix(r.uri@)
}

/// The Keccak-256 digest of a byte string.
pub uninterp spec fn keccak_of(data: Seq<u8>) -> Seq<u8>;

/// Relies on `solana_program::keccak::hash` (reached through anchor_lang):
/// the 32-byte Keccak-256 digest, which depends on the bytes alone.
#[verifier::external_body]
fn keccak_hash(data: &[u8]) -> (r: [u8; 32])
    ensures
        r@ == keccak_of(data@),
{
    anchor_lang::solana_program::keccak::hash(data).to_bytes()
}

/// The leaf that stands for a record in its tree.
pub open spec fn leaf_of(r: CompressedNft) -> Seq<u8> {
    keccak_of(record_bytes(r))
}

impl CompressedNft {
    /// Serializes the record; `None` when a text is too long for its prefix.
    pub fn try_to_vec(&self) -> (r: Option<Vec<u8>>)
        ensures
            r is Some <==> encodable(*self),
            r matches Some(b) ==> b@ == record_bytes(*self),
    {
        let mut out: Vec<u8> = Vec::new();
        push_all(&mut out, &self.owner.bytes);
        if !push_text(&mut out, self.name.as_str()) {
            return None;
        }
        if !push_text(&mut out, self.symbol.as_str()) {
            return None;
        }
        if !push_text(&mut out, self.uri.as_str()) {
            return None;
        }
        push_le(&mut out, self.seller_fee_basis_points as u64, 2);
        push_le(&mut out, if self.primary_sale_happened { 1 } else { 0 }, 1);
        push_le(&mut out, if self.is_mutable { 1 } else { 0 }, 1);
        push_all(&mut out, &self.tree_id.bytes);
        push_le(&mut out, self.leaf_id, 8);
        Some(out)
    }

    /// True when the record keeps the bounds on its texts and royalty.
    pub fn within_bounds(&self) -> (r: bool)
        ensures
            r == self.wf(),
    {
        self.name.as_str().unicode_len() <= MAX_NAME_CHARS
            && self.symbol.as_str().unicode_len() <= MAX_SYMBOL_CHARS
            && self.uri.as_str().unicode_len() <= MAX_URI_CHARS
            && self.seller_fee_basis_points <= MAX_SELLER_FEE_BASIS_POINTS
    }

    /// The record's leaf: the digest of its serialized form.
    pub fn leaf_hash(&self) -> (r: Option<[u8; 32]>)
        ensures
            r is Some <==> encodable(*self),
            r matches Some(h) ==> h@ == leaf_of(*self),
    {
        match self.try_to_vec() {
            Some(bytes) => Some(keccak_hash(bytes.as_slice())),
            None => None,
        }
    }
}

/// A record within its bounds can always be serialized.
pub proof fn lemma_wf_encodable(r: CompressedNft)
    requires
        r.wf(),
    ensures
        encodable(r),
{
    lemma_text_bytes_bound(r.name@);
    lemma_text_bytes_bound(r.symbol@);
    lemma_text_bytes_bound(r.uri@);
}

/// The first check that a mint fails, in the order the program makes them.
pub open spec fn create_error(
    ctx: CreateCnft,
    name: Seq<char>,
    symbol: Seq<char>,
    uri: Seq<char>,
    seller_fee_basis_points: u16,
) -> Option<ErrorCode> {
    if ctx.cnft is Some {
        Some(ErrorCode::AccountAlreadyInUse)
    } else if name.len() > MAX_NAME_CHARS {
        Some(ErrorCode::NameTooLong)
    } else if symbol.len() > MAX_SYMBOL_CHARS {
        Some(ErrorCode::SymbolTooLong)
    } else if uri.len() > MAX_URI_CHARS {
        Some(ErrorCode::UriTooLong)
    } else if seller_fee_basis_points > MAX_SELLER_FEE_BASIS_POINTS {
        Some(ErrorCode::InvalidSellerFeeBasisPoints)
    } else {
        None
    }
}

/// The record that a mint stores: the given metadata, owned by the signer,
/// not yet sold, mutable, at leaf 0 of the given tree.
pub open spec fn minted(
    ctx: CreateCnft,
    name: String,
    symbol: String,
    uri: String,
    seller_fee_basis_points: u16,
) -> CompressedNft {
    CompressedNft {
        owner: ctx.owner,
        name,
        symbol,
        uri,
        seller_fee_basis_points,
        primary_sale_happened: false,
        is_mutable: true,
        tree_id: ctx.merkle_tree,
        leaf_id: 0,
    }
}

/// The signer's right to act on the record in `slot`.
pub open spec fn owner_error(slot: Option<CompressedNft>, signer: Key) -> Option<ErrorCode> {
    match slot {
        None => Some(ErrorCode::AccountNotInitialized),
        Some(r) => if r.owner@ != signer@ {
            Some(ErrorCode::ConstraintHasOne)
        } else {
            None
        },
    }
}

/// `req` appends the leaf of `r` to `tree`, signed by `authority`.
pub open spec fn is_append(req: LeafRequest, tree: Key, authority: Key, r: CompressedNft) -> bool {
    req matches LeafRequest::Append { tree: t, authority: a, leaf } && t == tree && a == authority
        && leaf@ == leaf_of(r)
}

/// `req` replaces the leaf at the index of `r` in `tree` with the leaf of `r`,
/// naming that same leaf as the previous one.
pub open spec fn is_replace(req: LeafRequest, tree: Key, authority: Key, r: CompressedNft) -> bool {
    req matches LeafRequest::Replace { tree: t, authority: a, index, previous_leaf, new_leaf } && t
        == tree && a == authority && index == r.leaf_id as u32 && new_leaf@ == leaf_of(r)
        && previous_leaf == new_leaf
}

/// The record after its owner is set to `recipient`.
pub open spec fn transferred(r: CompressedNft, recipient: Key) -> CompressedNft {
    CompressedNft { owner: recipient, ..r }
}

/// Mints a compressed NFT into the empty record account `ctx.cnft` and
/// returns the request that appends its leaf to `ctx.merkle_tree`.
/// On an error the accounts are left as they were.
pub fn create_cnft(
    ctx: &mut CreateCnft,
    name: String,
    symbol: String,
    uri: String,
    seller_fee_basis_points: u16,
) -> (r: Result<LeafRequest, ErrorCode>)
    ensures
        match create_error(*old(ctx), name@, symbol@, uri@, seller_fee_basis_points) {
            Some(e) => r == Err::<LeafRequest, ErrorCode>(e) && *final(ctx) == *old(ctx),
            None => {
                let rec = minted(*old(ctx), name, symbol, uri, seller_fee_basis_points);
                &&& *final(ctx) == (CreateCnft { cnft: Some(rec), ..*old(ctx) })
                &&& r matches Ok(req) && is_append(req, old(ctx).merkle_tree, old(ctx).owner, rec)
            },
        },
        old(ctx).cnft is None && name@.len() <= MAX_NAME_CHARS && symbol@.len() <= MAX_SYMBOL_CHARS
            && uri@.len() <= MAX_URI_CHARS && seller_fee_basis_points
            <= MAX_SELLER_FEE_BASIS_POINTS ==> r is Ok && final(ctx).cnft == Some(
            minted(*old(ctx), name, symbol, uri, seller_fee_basis_points),
        ),
        old(ctx).cnft is None && name@.len() > MAX_NAME_CHARS ==> r == Err::<
            LeafRequest,
            ErrorCode,
        >(ErrorCode::NameTooLong) && final(ctx).cnft is None,
        r is Ok ==> (final(ctx).cnft matches Some(rec) && rec.wf()),
{
    if ctx.cnft.is_some() {
        return Err(ErrorCode::AccountAlreadyInUse);
    }
    if name.as_str().unicode_len() > MAX_NAME_CHARS {
        return Err(ErrorCode::NameTooLong);
    }
    if symbol.as_str().unicode_len() > MAX_SYMBOL_CHARS {
        return Err(ErrorCode::SymbolTooLong);
    }
    if uri.as_str().unicode_len() > MAX_URI_CHARS {
        return Err(ErrorCode::UriTooLong);
    }
    if seller_fee_basis_points > MAX_SELLER_FEE_BASIS_POINTS {
        return Err(ErrorCode::InvalidSellerFeeBasisPoints);
    }
    let record = CompressedNft {
        owner: ctx.owner,
        name,
        symbol,
        uri,
        seller_fee_basis_points,
        primary_sale_happened: false,
        is_mutable: true,
        tree_id: ctx.merkle_tree,
        leaf_id: 0,
    };
    proof {
        lemma_wf_encodable(record);
    }
    let leaf = record.leaf_hash().unwrap();
    ctx.cnft = Some(record);
    Ok(LeafRequest::Append { tree: ctx.merkle_tree, authority: ctx.owner, leaf })
}

/// Hands the record to `ctx.recipient` when the signer owns it, and returns
/// the request that rewrites its leaf. On an error the accounts are left as
/// they were.
pub fn transfer_cnft(ctx: &mut TransferCnft) -> (r: Result<LeafRequest, ErrorCode>)
    requires
        old(ctx).cnft matches Some(rec) ==> rec.wf(),
    ensures
        match owner_error(old(ctx).cnft, old(ctx).owner) {
            Some(e) => r == Err::<LeafRequest, ErrorCode>(e) && *final(ctx) == *old(ctx),
            None => {
                let rec = transferred(old(ctx).cnft.unwrap(), old(ctx).recipient);
                &&& *final(ctx) == (TransferCnft { cnft: Some(rec), ..*old(ctx) })
                &&& r matches Ok(req) && is_replace(req, old(ctx).merkle_tree, old(ctx).owner, rec)
            },
        },
        old(ctx).cnft matches Some(rec) ==> (rec.owner@ != old(ctx).owner@ ==> r == Err::<
            LeafRequest,
            ErrorCode,
        >(ErrorCode::ConstraintHasOne) && *final(ctx) == *old(ctx)),
        final(ctx).cnft matches Some(rec) ==> rec.wf(),
{
    let signer = ctx.owner;
    match &ctx.cnft {
        None => {
            return Err(ErrorCode::AccountNotInitialized);
        },
        Some(rec) => {
            if !(rec.owner == signer) {
                return Err(ErrorCode::ConstraintHasOne);
            }
        },
    }
    let mut rec = ctx.cnft.take().unwrap();
    rec.owner = ctx.recipient;
    proof {
        lemma_wf_encodable(rec);
    }
    let leaf = rec.leaf_hash().unwrap();
    let index = rec.leaf_id as u32;
    ctx.cnft = Some(rec);
    Ok(
        LeafRequest::Replace {
            tree: ctx.merkle_tree,
            authority: signer,
            index,
            previous_leaf: leaf,
            new_leaf: leaf,
        },
    )
}

/// Removes the record when the signer owns it, and returns the request that
/// removes its leaf. On an error the accounts are left as they were.
pub fn burn_cnft(ctx: &mut BurnCnft) -> (r: Result<LeafRequest, ErrorCode>)
    ensures
        match owner_error(old(ctx).cnft, old(ctx).owner) {
            Some(e) => r == Err::<LeafRequest, ErrorCode>(e) && *final(ctx) == *old(ctx),
            None => {
                &&& *final(ctx) == (BurnCnft { cnft: None, ..*old(ctx) })
                &&& r == Ok::<LeafRequest, ErrorCode>(
                    LeafRequest::Remove {
                        tree: old(ctx).merkle_tree,
                        authority: old(ctx).owner,
                        index: old(ctx).cnft.unwrap().leaf_id as u32,
                    },
                )
            },
        },
        old(ctx).cnft matches Some(rec) ==> (rec.owner@ == old(ctx).owner@ ==> r is Ok
            && final(ctx).cnft is None),
        old(ctx).cnft matches Some(rec) ==> (rec.owner@ != old(ctx).owner@ ==> r == Err::<
            LeafRequest,
            ErrorCode,
        >(ErrorCode::ConstraintHasOne) && *final(ctx) == *old(ctx)),
{
    let signer = ctx.owner;
    let index = match &ctx.cnft {
        None => {
            return Err(ErrorCode::AccountNotInitialized);
        },
        Some(rec) => {
            if !(rec.owner == signer) {
                return Err(ErrorCode::ConstraintHasOne);
            }
            rec.leaf_id as u32
        },
    };
    ctx.cnft = None;
    Ok(LeafRequest::Remove { tree: ctx.merkle_tree, authority: signer, index })
}

} // verus!
