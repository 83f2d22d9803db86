//! Supply bookkeeping of the WALE token.
//!
//! The controller owns a single `TokenInfo` record. Minting and burning of
//! actual balance units is delegated to an external token ledger: each
//! successful operation returns the [`LedgerInstruction`] the host must
//! execute atomically with the state change, so that the supply counters
//! and the ledger never diverge. When the delegated call fails, the host
//! discards the new record state, and vice versa.

use vstd::prelude::*;

verus! {

use crate::encoding::append_flag;
use crate::encoding::append_len_prefixed;
use crate::encoding::append_time_word;
use crate::encoding::append_word;
use crate::encoding::clone_bytes;
use crate::encoding::lemma_len_prefixed_len;
use crate::encoding::lemma_time_word_len;
use crate::encoding::lemma_word_len;
use crate::encoding::spec_flag;
use crate::encoding::spec_len_prefixed;
use crate::encoding::spec_time_word;
use crate::encoding::spec_word;
use crate::keys::Pubkey;

/// Record kind tag of the token info record: the first word of its wire
/// form.
pub const TOKEN_INFO_TAG: u64 = 3;

/// Greatest accepted byte length of the token name.
pub const MAX_TOKEN_NAME_LEN: usize = 50;

/// Greatest accepted byte length of the token symbol.
pub const MAX_TOKEN_SYMBOL_LEN: usize = 10;

/// Greatest accepted byte length of the token metadata URI.
pub const MAX_TOKEN_URI_LEN: usize = 200;

/// Why a token operation was refused. Every failure leaves the record
/// exactly as it was and issues no ledger instruction.
#[derive(Clone, Copy, PartialEq, Eq, Structural, Debug)]
pub enum ErrorCode {
    /// Only the recorded authority may mint.
    UnauthorizedMint,
    /// The caller is not permitted to perform this operation.
    UnauthorizedOperation,
    /// Minting is rejected while the token is frozen.
    TokenFrozen,
    /// A checked addition or subtraction on the supply counters would wrap.
    NumericOverflow,
}

/// The supply ledger record of the token.
pub struct TokenInfo {
    /// Token name; immutable after initialization.
    pub name: Vec<u8>,
    /// Token symbol; immutable after initialization.
    pub symbol: Vec<u8>,
    /// Metadata URI; immutable after initialization.
    pub uri: Vec<u8>,
    /// Decimal precision, fixed at initialization.
    pub decimals: u8,
    /// Identity permitted to mint, freeze and transfer authority.
    pub authority: Pubkey,
    /// Identity of the external ledger's mint.
    pub mint: Pubkey,
    /// Creation time.
    pub created_at: i64,
    /// Units ever minted; never decreases.
    pub total_supply: u64,
    /// Units minted minus units burned.
    pub circulating_supply: u64,
    /// While set, minting is rejected; burning is not gated.
    pub is_frozen: bool,
}

/// A delegated operation the external token ledger must perform atomically
/// with the enclosing state change.
#[derive(Clone, Copy, PartialEq, Eq, Structural, Debug)]
pub enum LedgerInstruction {
    /// Create `amount` units on `destination`.
    MintTo { mint: Pubkey, destination: Pubkey, amount: u64 },
    /// Destroy `amount` units held by `source`.
    BurnFrom { mint: Pubkey, source: Pubkey, amount: u64 },
}

/// Notification of an initialized token.
#[derive(Clone, Debug, PartialEq, Eq)]
pub struct TokenInitializedEvent {
    pub mint: Pubkey,
    pub authority: Pubkey,
    pub name: Vec<u8>,
    pub symbol: Vec<u8>,
    pub decimals: u8,
}

/// Notification of minted tokens.
#[derive(Clone, Copy, Debug, PartialEq, Eq, Structural)]
pub struct TokensMintedEvent {
    pub mint: Pubkey,
    pub destination: Pubkey,
    pub amount: u64,
    pub total_supply: u64,
}

/// Notification of burned tokens.
#[derive(Clone, Copy, Debug, PartialEq, Eq, Structural)]
pub struct TokensBurnedEvent {
    pub mint: Pubkey,
    pub source: Pubkey,
    pub amount: u64,
    pub circulating_supply: u64,
}

/// Notification of a changed freeze state.
#[derive(Clone, Copy, Debug, PartialEq, Eq, Structural)]
pub struct TokenFreezeStateChangedEvent {
    pub mint: Pubkey,
    pub is_frozen: bool,
}

/// Notification of a transferred authority, carrying both the old and the
/// new value for auditability.
#[derive(Clone, Copy, Debug, PartialEq, Eq, Structural)]
pub struct AuthorityTransferredEvent {
    pub mint: Pubkey,
    pub old_authority: Pubkey,
    pub new_authority: Pubkey,
}

/// One requested token operation, as the supply state machine sees it.
pub enum TokenOp {
    Mint { caller: Pubkey, destination: Pubkey, amount: u64 },
    Burn { caller: Pubkey, source: Pubkey, source_owner: Pubkey, amount: u64 },
    SetFreeze { caller: Pubkey, is_frozen: bool },
    TransferAuthority { caller: Pubkey, new_authority: Pubkey },
}

impl TokenInfo {
    /// Field bounds and the supply coupling the record always satisfies:
    /// circulation never exceeds historical issuance.
    pub open spec fn wf(self) -> bool {
        &&& self.name@.len() <= MAX_TOKEN_NAME_LEN
        &&& self.symbol@.len() <= MAX_TOKEN_SYMBOL_LEN
        &&& self.uri@.len() <= MAX_TOKEN_URI_LEN
        &&& self.created_at >= 0
        &&& self.circulating_supply <= self.total_supply
    }

    /// Why `op` fails on this record, if it does.
    pub open spec fn spec_op_err(self, op: TokenOp) -> Option<ErrorCode> {
        match op {
            TokenOp::Mint { caller, destination: _, amount } => {
                if caller != self.authority {
                    Some(ErrorCode::UnauthorizedMint)
                } else if self.is_frozen {
                    Some(ErrorCode::TokenFrozen)
                } else if self.total_supply + amount > u64::MAX || self.circulating_supply + amount
                    > u64::MAX {
                    Some(ErrorCode::NumericOverflow)
                } else {
                    None
                }
            },
            TokenOp::Burn { caller, source: _, source_owner, amount } => {
                if source_owner != caller {
                    Some(ErrorCode::UnauthorizedOperation)
                } else if self.circulating_supply < amount {
                    Some(ErrorCode::NumericOverflow)
                } else {
                    None
                }
            },
            TokenOp::SetFreeze { caller, is_frozen: _ } => {
                if caller != self.authority {
                    Some(ErrorCode::UnauthorizedOperation)
                } else {
                    None
                }
            },
            TokenOp::TransferAuthority { caller, new_authority: _ } => {
                if caller != self.authority {
                    Some(ErrorCode::UnauthorizedOperation)
                } else {
                    None
                }
            },
        }
    }

    /// The byte capacity reserved for the token record: every fixed-width
    /// field at its exact width and every variable-length field at its
    /// declared maximum, each behind a 4-byte count.
    pub open spec fn spec_space() -> int {
        (8 + 1 + 32 + 32 + 8 + 8 + 8 + 1) + (4 + MAX_TOKEN_NAME_LEN) + (4 + MAX_TOKEN_SYMBOL_LEN)
            + (4 + MAX_TOKEN_URI_LEN)
    }

    /// Byte capacity to reserve for the token record, computed once at
    /// initialization.
    pub fn space() -> (r: usize)
        ensures
            r == TokenInfo::spec_space(),
    {
        let fixed_size: usize = 8 + 1 + 32 + 32 + 8 + 8 + 8 + 1;
        let variable_size: usize = (4 + MAX_TOKEN_NAME_LEN) + (4 + MAX_TOKEN_SYMBOL_LEN) + (4
            + MAX_TOKEN_URI_LEN);
        fixed_size + variable_size
    }

    /// The record's wire form: the record kind tag, then the fields in
    /// declaration order, variable-length fields behind a 4-byte count.
    pub open spec fn spec_encode(self) -> Seq<u8> {
        spec_word(TOKEN_INFO_TAG) + spec_len_prefixed(self.name@) + spec_len_prefixed(
            self.symbol@,
        ) + spec_len_prefixed(self.uri@) + seq![self.decimals] + self.authority.spec_bytes()
            + self.mint.spec_bytes() + spec_time_word(self.created_at) + spec_word(
            self.total_supply,
        ) + spec_word(self.circulating_supply) + spec_flag(self.is_frozen)
    }

    /// Serializes the record.
    pub fn encode(&self) -> (r: Vec<u8>)
        requires
            self.wf(),
        ensures
            r@ == self.spec_encode(),
    {
        let mut out: Vec<u8> = Vec::new();
        append_word(&mut out, TOKEN_INFO_TAG);
        append_len_prefixed(&mut out, &self.name);
        append_len_prefixed(&mut out, &self.symbol);
        append_len_prefixed(&mut out, &self.uri);
        out.push(self.decimals);
        self.authority.append_bytes(&mut out);
        self.mint.append_bytes(&mut out);
        append_time_word(&mut out, self.created_at);
        append_word(&mut out, self.total_supply);
        append_word(&mut out, self.circulating_supply);
        append_flag(&mut out, self.is_frozen);
        proof {
            assert(out@ == self.spec_encode());
        }
        out
    }

    /// The wire form's exact length.
    pub proof fn lemma_encoding_len(self)
        requires
            self.wf(),
        ensures
            self.spec_encode().len() == (8 + 1 + 32 + 32 + 8 + 8 + 8 + 1) + (4 + self.name@.len())
                + (4 + self.symbol@.len()) + (4 + self.uri@.len()),
    {
        lemma_len_prefixed_len(self.name@);
        lemma_len_prefixed_len(self.symbol@);
        lemma_len_prefixed_len(self.uri@);
        lemma_word_len(TOKEN_INFO_TAG);
        lemma_word_len(self.total_supply);
        lemma_word_len(self.circulating_supply);
        lemma_time_word_len(self.created_at);
        self.authority.lemma_bytes_len();
        self.mint.lemma_bytes_len();
    }

    /// The reserved capacity always holds the wire form, and is exactly its
    /// size once the name, symbol and URI stand at their declared maximum.
    pub proof fn lemma_space_bounds_encoding(self)
        requires
            self.wf(),
        ensures
            self.spec_encode().len() <= TokenInfo::spec_space(),
            (self.name@.len() == MAX_TOKEN_NAME_LEN && self.symbol@.len() == MAX_TOKEN_SYMBOL_LEN
                && self.uri@.len() == MAX_TOKEN_URI_LEN) ==> self.spec_encode().len()
                == TokenInfo::spec_space(),
    {
        self.lemma_encoding_len();
    }

    /// The record as it stands after `op`: unchanged when the operation
    /// fails, else with exactly the fields the operation owns rewritten.
    pub open spec fn spec_step(self, op: TokenOp) -> TokenInfo {
        if self.spec_op_err(op) is Some {
            self
        } else {
            match op {
                TokenOp::Mint { caller: _, destination: _, amount } => TokenInfo {
                    total_supply: (self.total_supply + amount) as u64,
                    circulating_supply: (self.circulating_supply + amount) as u64,
                    ..self
                },
                TokenOp::Burn { caller: _, source: _, source_owner: _, amount } => TokenInfo {
                    circulating_supply: (self.circulating_supply - amount) as u64,
                    ..self
                },
                TokenOp::SetFreeze { caller: _, is_frozen } => TokenInfo { is_frozen, ..self },
                TokenOp::TransferAuthority { caller: _, new_authority } => TokenInfo {
                    authority: new_authority,
                    ..self
                },
            }
        }
    }
}

/// Initializes the token record: counters at zero, not frozen, created now.
pub fn initialize_token(
    name: Vec<u8>,
    symbol: Vec<u8>,
    uri: Vec<u8>,
    decimals: u8,
    authority: Pubkey,
    mint: Pubkey,
    now: i64,
) -> (r: (TokenInfo, TokenInitializedEvent))
    requires
        name@.len() <= MAX_TOKEN_NAME_LEN,
        symbol@.len() <= MAX_TOKEN_SYMBOL_LEN,
        uri@.len() <= MAX_TOKEN_URI_LEN,
        now > 0,
    ensures
        r.0.wf(),
        r.0 == (TokenInfo {
            name,
            symbol,
            uri,
            decimals,
            authority,
            mint,
            created_at: now,
            total_supply: 0,
            circulating_supply: 0,
            is_frozen: false,
        }),
        r.1.mint == mint && r.1.authority == authority && r.1.name@ == name@ && r.1.symbol@
            == symbol@ && r.1.decimals == decimals,
{
    let event_name = clone_bytes(&name);
    let event_symbol = clone_bytes(&symbol);
    let info = TokenInfo {
        name,
        symbol,
        uri,
        decimals,
        authority,
        mint,
        created_at: now,
        total_supply: 0,
        circulating_supply: 0,
        is_frozen: false,
    };
    let event = TokenInitializedEvent {
        mint,
        authority,
        name: event_name,
        symbol: event_symbol,
        decimals,
    };
    (info, event)
}

/// Mints `amount` units to `destination`: authority-gated, rejected while
/// frozen, and both supply counters grow by `amount` with checked
/// arithmetic. The returned instruction tells the host what the external
/// ledger must perform atomically with this state change.
pub fn mint_tokens(token_info: &mut TokenInfo, caller: Pubkey, destination: Pubkey, amount: u64) -> (
    r: Result<(LedgerInstruction, TokensMintedEvent), ErrorCode>)
    requires
        old(token_info).wf(),
    ensures
        final(token_info).wf(),
        final(token_info).total_supply >= old(token_info).total_supply,
        *final(token_info) == old(token_info).spec_step(
            TokenOp::Mint { caller, destination, amount },
        ),
        match old(token_info).spec_op_err(TokenOp::Mint { caller, destination, amount }) {
            Some(code) => r == Err::<(LedgerInstruction, TokensMintedEvent), ErrorCode>(code),
            None => r == Ok::<(LedgerInstruction, TokensMintedEvent), ErrorCode>(
                (
                    LedgerInstruction::MintTo { mint: old(token_info).mint, destination, amount },
                    (TokensMintedEvent {
                        mint: old(token_info).mint,
                        destination,
                        amount,
                        total_supply: (old(token_info).total_supply + amount) as u64,
                    }),
                ),
            ),
        },
{
    if !(caller == token_info.authority) {
        return Err(ErrorCode::UnauthorizedMint);
    }
    if token_info.is_frozen {
        return Err(ErrorCode::TokenFrozen);
    }
    let total = match token_info.total_supply.checked_add(amount) {
        Some(t) => t,
        None => {
            return Err(ErrorCode::NumericOverflow);
        },
    };
    let circulating = match token_info.circulating_supply.checked_add(amount) {
        Some(c) => c,
        None => {
            return Err(ErrorCode::NumericOverflow);
        },
    };
    token_info.total_supply = total;
    token_info.circulating_supply = circulating;
    let instruction = LedgerInstruction::MintTo { mint: token_info.mint, destination, amount };
    let event = TokensMintedEvent {
        mint: token_info.mint,
        destination,
        amount,
        total_supply: total,
    };
    Ok((instruction, event))
}

/// Burns `amount` units from `source`, a holding of the calling owner:
/// circulation shrinks by `amount` with checked arithmetic while the
/// historical issuance stays; burning is not gated by the freeze flag. The
/// external ledger itself verifies the holding, so the record only checks
/// that the holding's owner is the caller.
pub fn burn_tokens(
    token_info: &mut TokenInfo,
    caller: Pubkey,
    source: Pubkey,
    source_owner: Pubkey,
    amount: u64,
) -> (r: Result<(LedgerInstruction, TokensBurnedEvent), ErrorCode>)
    requires
        old(token_info).wf(),
    ensures
        final(token_info).wf(),
        final(token_info).total_supply == old(token_info).total_supply,
        *final(token_info) == old(token_info).spec_step(
            TokenOp::Burn { caller, source, source_owner, amount },
        ),
        match old(token_info).spec_op_err(TokenOp::Burn { caller, source, source_owner, amount }) {
            Some(code) => r == Err::<(LedgerInstruction, TokensBurnedEvent), ErrorCode>(code),
            None => r == Ok::<(LedgerInstruction, TokensBurnedEvent), ErrorCode>(
                (
                    LedgerInstruction::BurnFrom { mint: old(token_info).mint, source, amount },
                    (TokensBurnedEvent {
                        mint: old(token_info).mint,
                        source,
                        amount,
                        circulating_supply: (old(token_info).circulating_supply - amount) as u64,
                    }),
                ),
            ),
        },
{
    if !(source_owner == caller) {
        return Err(ErrorCode::UnauthorizedOperation);
    }
    let circulating = match token_info.circulating_supply.checked_sub(amount) {
        Some(c) => c,
        None => {
            return Err(ErrorCode::NumericOverflow);
        },
    };
    token_info.circulating_supply = circulating;
    let instruction = LedgerInstruction::BurnFrom { mint: token_info.mint, source, amount };
    let event = TokensBurnedEvent {
        mint: token_info.mint,
        source,
        amount,
        circulating_supply: circulating,
    };
    Ok((instruction, event))
}

/// Sets the freeze flag; authority-gated. While frozen, minting is
/// rejected; burning stays possible.
pub fn set_freeze_state(token_info: &mut TokenInfo, caller: Pubkey, is_frozen: bool) -> (r: Result<
    TokenFreezeStateChangedEvent,
    ErrorCode,
>)
    requires
        old(token_info).wf(),
    ensures
        final(token_info).wf(),
        *final(token_info) == old(token_info).spec_step(TokenOp::SetFreeze { caller, is_frozen }),
        match old(token_info).spec_op_err(TokenOp::SetFreeze { caller, is_frozen }) {
            Some(code) => r == Err::<TokenFreezeStateChangedEvent, ErrorCode>(code),
            None => r == Ok::<TokenFreezeStateChangedEvent, ErrorCode>(
                (TokenFreezeStateChangedEvent { mint: old(token_info).mint, is_frozen }),
            ),
        },
{
    if !(caller == token_info.authority) {
        return Err(ErrorCode::UnauthorizedOperation);
    }
    token_info.is_frozen = is_frozen;
    Ok(TokenFreezeStateChangedEvent { mint: token_info.mint, is_frozen })
}

/// Replaces the authority; only the current authority may do so. The
/// notification carries both the old and the new identity.
pub fn transfer_authority(token_info: &mut TokenInfo, caller: Pubkey, new_authority: Pubkey) -> (
    r: Result<AuthorityTransferredEvent, ErrorCode>)
    requires
        old(token_info).wf(),
    ensures
        final(token_info).wf(),
        *final(token_info) == old(token_info).spec_step(
            TokenOp::TransferAuthority { caller, new_authority },
        ),
        match old(token_info).spec_op_err(TokenOp::TransferAuthority { caller, new_authority }) {
            Some(code) => r == Err::<AuthorityTransferredEvent, ErrorCode>(code),
            None => r == Ok::<AuthorityTransferredEvent, ErrorCode>(
                (AuthorityTransferredEvent {
                    mint: old(token_info).mint,
                    old_authority: old(token_info).authority,
                    new_authority,
                }),
            ),
        },
{
    if !(caller == token_info.authority) {
        return Err(ErrorCode::UnauthorizedOperation);
    }
    let old_authority = token_info.authority;
    token_info.authority = new_authority;
    Ok(AuthorityTransferredEvent { mint: token_info.mint, old_authority, new_authority })
}

/// The record as it stands after a whole sequence of requested operations,
/// applied in order.
pub open spec fn spec_apply_token_ops(t: TokenInfo, ops: Seq<TokenOp>) -> TokenInfo
    decreases ops.len(),
{
    if ops.len() == 0 {
        t
    } else {
        spec_apply_token_ops(t, ops.drop_last()).spec_step(ops.last())
    }
}

/// Across every sequence of mint, burn, freeze and authority operations,
/// circulation never exceeds historical issuance and historical issuance
/// never decreases, whichever operations fail and whichever succeed.
pub proof fn lemma_supply_invariant(t: TokenInfo, ops: Seq<TokenOp>)
    requires
        t.wf(),
    ensures
        spec_apply_token_ops(t, ops).wf(),
        spec_apply_token_ops(t, ops).total_supply >= t.total_supply,
    decreases ops.len(),
{
    if ops.len() > 0 {
        lemma_supply_invariant(t, ops.drop_last());
    }
}

} // verus!
