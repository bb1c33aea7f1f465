use vstd::prelude::*;
use vstd::string::StrSliceExecFns;
use crate::key::Key;
use crate::layout::same_text;

verus! {

/// Longest name, in characters.
pub const MAX_NAME_CHARS: usize = 50;

/// Longest description, in characters.
pub const MAX_DESCRIPTION_CHARS: usize = 200;

/// A blink: metadata about a token, kept by its owner.
#[derive(Clone, Debug, PartialEq, Eq)]
pub struct Blink {
    pub owner: Key,
    pub mint: Key,
    pub name: String,
    pub description: String,
    pub blink_type: String,
    pub is_nft: bool,
    pub is_donation: bool,
    pub is_gift: bool,
    pub is_payment: bool,
    pub is_poll: bool,
    pub created_at: i64,
    pub updated_at: i64,
}

/// Why an entry point refused to act.
#[derive(Clone, Copy, Debug, PartialEq, Eq, Structural)]
pub enum ErrorCode {
    NameTooLong,
    DescriptionTooLong,
    InvalidBlinkType,
    /// The record account already holds a record.
    AccountAlreadyInUse,
    /// The record account holds no record.
    AccountNotInitialized,
    /// The signer is not the record's owner.
    ConstraintHasOne,
}

/// The accounts of a create: the record account (empty before), the token
/// the blink describes, and the signing owner.
#[derive(Clone, Debug, PartialEq, Eq)]
pub struct CreateBlink {
    pub blink: Option<Blink>,
    pub mint: Key,
    pub owner: Key,
}

/// The accounts of an update: the record and the signer.
#[derive(Clone, Debug, PartialEq, Eq)]
pub struct UpdateBlink {
    pub blink: Option<Blink>,
    pub owner: Key,
}

/// The accounts of a delete: the record and the signer.
#[derive(Clone, Debug, PartialEq, Eq)]
pub struct DeleteBlink {
    pub blink: Option<Blink>,
    pub owner: Key,
}

/// The categories a blink may have.
pub open spec fn is_blink_type(t: Seq<char>) -> bool {
    t == "standard"@ || t == "premium"@ || t == "limited"@
}

impl Blink {
    /// The bounds that every stored record keeps.
    pub open spec fn wf(&self) -> bool {
        &&& self.name@.len() <= MAX_NAME_CHARS
        &&& self.description@.len() <= MAX_DESCRIPTION_CHARS
        &&& is_blink_type(self.blink_type@)
        &&& self.created_at <= self.updated_at
    }
}

/// True when `t` names one of the categories.
pub fn valid_blink_type(t: &str) -> (r: bool)
    ensures
        r == is_blink_type(t@),
{
    same_text(t, "standard") || same_text(t, "premium") || same_text(t, "limited")
}

/// The first check that a create fails, in the order the program makes them.
pub open spec fn create_error(
    ctx: CreateBlink,
    name: Seq<char>,
    description: Seq<char>,
    blink_type: Seq<char>,
) -> Option<ErrorCode> {
    if ctx.blink is Some {
        Some(ErrorCode::AccountAlreadyInUse)
    } else if name.len() > MAX_NAME_CHARS {
        Some(ErrorCode::NameTooLong)
    } else if description.len() > MAX_DESCRIPTION_CHARS {
        Some(ErrorCode::DescriptionTooLong)
    } else if !is_blink_type(blink_type) {
        Some(ErrorCode::InvalidBlinkType)
    } else {
        None
    }
}

/// The record that a create stores, stamped with the time `now` twice.
pub open spec fn created(
    ctx: CreateBlink,
    name: String,
    description: String,
    blink_type: String,
    is_nft: bool,
    is_donation: bool,
    is_gift: bool,
    is_payment: bool,
    is_poll: bool,
    now: i64,
) -> Blink {
    Blink {
        owner: ctx.owner,
        mint: ctx.mint,
        name,
        description,
        blink_type,
        is_nft,
        is_donation,
        is_gift,
        is_payment,
        is_poll,
        created_at: now,
        updated_at: now,
    }
}

/// The signer's right to act on the record in `slot`.
pub open spec fn owner_error(slot: Option<Blink>, signer: Key) -> Option<ErrorCode> {
    match slot {
        None => Some(ErrorCode::AccountNotInitialized),
        Some(b) => if b.owner@ != signer@ {
            Some(ErrorCode::ConstraintHasOne)
        } else {
            None
        },
    }
}

/// The first check that an update fails, in the order the program makes them.
pub open spec fn update_error(
    ctx: UpdateBlink,
    name: Option<String>,
    description: Option<String>,
    blink_type: Option<String>,
) -> Option<ErrorCode> {
    if owner_error(ctx.blink, ctx.owner) is Some {
        owner_error(ctx.blink, ctx.owner)
    } else if name matches Some(n) && n@.len() > MAX_NAME_CHARS {
        Some(ErrorCode::NameTooLong)
    } else if description matches Some(d) && d@.len() > MAX_DESCRIPTION_CHARS {
        Some(ErrorCode::DescriptionTooLong)
    } else if blink_type matches Some(t) && !is_blink_type(t@) {
        Some(ErrorCode::InvalidBlinkType)
    } else {
        None
    }
}

/// The record after an update: each given field replaced, the others kept,
/// and the time of the last update set to `now`.
pub open spec fn updated(
    b: Blink,
    name: Option<String>,
    description: Option<String>,
    blink_type: Option<String>,
    now: i64,
) -> Blink {
    Blink {
        name: match name {
            Some(n) => n,
            None => b.name,
        },
        description: match description {
            Some(d) => d,
            None => b.description,
        },
        blink_type: match blink_type {
            Some(t) => t,
            None => b.blink_type,
        },
        updated_at: now,
        ..b
    }
}

/// Creates a blink in the empty record account `ctx.blink`, owned by the
/// signer and describing `ctx.mint`, at the ledger time `now`.
/// On an error the accounts are left as they were.
pub fn create_blink(
    ctx: &mut CreateBlink,
    name: String,
    description: String,
    blink_type: String,
    is_nft: bool,
    is_donation: bool,
    is_gift: bool,
    is_payment: bool,
    is_poll: bool,
    now: i64,
) -> (r: Result<(), ErrorCode>)
    ensures
        match create_error(*old(ctx), name@, description@, blink_type@) {
            Some(e) => r == Err::<(), ErrorCode>(e) && *final(ctx) == *old(ctx),
            None => r is Ok && *final(ctx) == (CreateBlink {
                blink: Some(
                    created(
                        *old(ctx),
                        name,
                        description,
                        blink_type,
                        is_nft,
                        is_donation,
                        is_gift,
                        is_payment,
                        is_poll,
                        now,
                    ),
                ),
                ..*old(ctx)
            }),
        },
        old(ctx).blink is None && name@.len() <= MAX_NAME_CHARS && description@.len()
            <= MAX_DESCRIPTION_CHARS && is_blink_type(blink_type@) ==> r is Ok
            && final(ctx).blink == Some(
            created(
                *old(ctx),
                name,
                description,
                blink_type,
                is_nft,
                is_donation,
                is_gift,
                is_payment,
                is_poll,
                now,
            ),
        ),
        old(ctx).blink is None && name@.len() > MAX_NAME_CHARS ==> r == Err::<(), ErrorCode>(
            ErrorCode::NameTooLong,
        ) && final(ctx).blink is None,
        r is Ok ==> (final(ctx).blink matches Some(b) && b.wf() && b.created_at == b.updated_at),
{
    if ctx.blink.is_some() {
        return Err(ErrorCode::AccountAlreadyInUse);
    }
    if name.as_str().unicode_len() > MAX_NAME_CHARS {
        return Err(ErrorCode::NameTooLong);
    }
    if description.as_str().unicode_len() > MAX_DESCRIPTION_CHARS {
        return Err(ErrorCode::DescriptionTooLong);
    }
    if !valid_blink_type(blink_type.as_str()) {
        return Err(ErrorCode::InvalidBlinkType);
    }
    ctx.blink = Some(
        Blink {
            owner: ctx.owner,
            mint: ctx.mint,
            name,
            description,
            blink_type,
            is_nft,
            is_donation,
            is_gift,
            is_payment,
            is_poll,
            created_at: now,
            updated_at: now,
        },
    );
    Ok(())
}

/// Overwrites the given fields of the signer's blink and stamps it with the
/// ledger time `now`. On an error the accounts are left as they were.
pub fn update_blink(
    ctx: &mut UpdateBlink,
    name: Option<String>,
    description: Option<String>,
    blink_type: Option<String>,
    now: i64,
) -> (r: Result<(), ErrorCode>)
    ensures
        match update_error(*old(ctx), name, description, blink_type) {
            Some(e) => r == Err::<(), ErrorCode>(e) && *final(ctx) == *old(ctx),
            None => r is Ok && *final(ctx) == (UpdateBlink {
                blink: Some(updated(old(ctx).blink.unwrap(), name, description, blink_type, now)),
                ..*old(ctx)
            }),
        },
        old(ctx).blink matches Some(b) ==> (b.owner@ != old(ctx).owner@ ==> r == Err::<
            (),
            ErrorCode,
        >(ErrorCode::ConstraintHasOne) && *final(ctx) == *old(ctx)),
        r is Ok ==> (old(ctx).blink matches Some(b) && final(ctx).blink matches Some(c) && c.owner
            == b.owner && c.mint == b.mint && c.created_at == b.created_at && c.updated_at == now
            && (name is None ==> c.name == b.name) && (description is None ==> c.description
            == b.description) && (blink_type is None ==> c.blink_type == b.blink_type)),
        r is Ok ==> (old(ctx).blink matches Some(b) && (b.wf() && b.created_at <= now
            ==> final(ctx).blink.unwrap().wf())),
{
    let signer = ctx.owner;
    match &ctx.blink {
        None => {
            return Err(ErrorCode::AccountNotInitialized);
        },
        Some(b) => {
            if !(b.owner == signer) {
                return Err(ErrorCode::ConstraintHasOne);
            }
        },
    }
    if let Some(n) = &name {
        if n.as_str().unicode_len() > MAX_NAME_CHARS {
            return Err(ErrorCode::NameTooLong);
        }
    }
    if let Some(d) = &description {
        if d.as_str().unicode_len() > MAX_DESCRIPTION_CHARS {
            return Err(ErrorCode::DescriptionTooLong);
        }
    }
    if let Some(t) = &blink_type {
        if !valid_blink_type(t.as_str()) {
            return Err(ErrorCode::InvalidBlinkType);
        }
    }
    let mut b = ctx.blink.take().unwrap();
    if let Some(n) = name {
        b.name = n;
    }
    if let Some(d) = description {
        b.description = d;
    }
    if let Some(t) = blink_type {
        b.blink_type = t;
    }
    b.updated_at = now;
    ctx.blink = Some(b);
    Ok(())
}

/// Removes the signer's blink; the caller returns the account's deposit to
/// the owner. On an error the accounts are left as they were.
pub fn delete_blink(ctx: &mut DeleteBlink) -> (r: Result<(), ErrorCode>)
    ensures
        match owner_error(old(ctx).blink, old(ctx).owner) {
            Some(e) => r == Err::<(), ErrorCode>(e) && *final(ctx) == *old(ctx),
            None => r is Ok && *final(ctx) == (DeleteBlink { blink: None, ..*old(ctx) }),
        },
        old(ctx).blink matches Some(b) ==> (b.owner@ == old(ctx).owner@ ==> r is Ok
            && final(ctx).blink is None),
        old(ctx).blink matches Some(b) ==> (b.owner@ != old(ctx).owner@ ==> r == Err::<
            (),
            ErrorCode,
        >(ErrorCode::ConstraintHasOne) && *final(ctx) == *old(ctx)),
{
    let signer = ctx.owner;
    match &ctx.blink {
        None => Err(ErrorCode::AccountNotInitialized),
        Some(b) => {
            if !(b.owner == signer) {
                Err(ErrorCode::ConstraintHasOne)
            } else {
                ctx.blink = None;
                Ok(())
            }
        },
    }
}

} // verus!
