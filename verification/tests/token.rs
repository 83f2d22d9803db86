use wale_contracts::keys::Pubkey;
use wale_contracts::wale_token::burn_tokens;
use wale_contracts::wale_token::initialize_token;
use wale_contracts::wale_token::mint_tokens;
use wale_contracts::wale_token::set_freeze_state;
use wale_contracts::wale_token::transfer_authority;
use wale_contracts::wale_token::ErrorCode;
use wale_contracts::wale_token::LedgerInstruction;
use wale_contracts::wale_token::TokenInfo;

fn key(n: u64) -> Pubkey {
    Pubkey { w0: n, w1: 0, w2: 0, w3: 0 }
}

fn fresh_token(authority: Pubkey, mint: Pubkey) -> TokenInfo {
    let (info, event) = initialize_token(
        b"WALE Token".to_vec(),
        b"WALE".to_vec(),
        b"https://wale.example/meta.json".to_vec(),
        9,
        authority,
        mint,
        1_000,
    );
    assert_eq!(event.mint, mint);
    assert_eq!(event.authority, authority);
    assert_eq!(event.name, b"WALE Token".to_vec());
    assert_eq!(event.symbol, b"WALE".to_vec());
    assert_eq!(event.decimals, 9);
    info
}

#[test]
fn initialization_starts_empty_and_unfrozen() {
    let info = fresh_token(key(1), key(2));
    assert_eq!(info.total_supply, 0);
    assert_eq!(info.circulating_supply, 0);
    assert!(!info.is_frozen);
    assert_eq!(info.created_at, 1_000);
}

#[test]
fn mint_by_non_authority_is_refused() {
    let authority = key(1);
    let mut info = fresh_token(authority, key(2));
    let r = mint_tokens(&mut info, key(3), key(4), 1_000);
    assert_eq!(r, Err(ErrorCode::UnauthorizedMint));
    assert_eq!(info.total_supply, 0);
    assert_eq!(info.circulating_supply, 0);
}

#[test]
fn mint_grows_both_counters_and_instructs_the_ledger() {
    let authority = key(1);
    let mint = key(2);
    let destination = key(5);
    let mut info = fresh_token(authority, mint);
    let (instruction, event) = mint_tokens(&mut info, authority, destination, 750).unwrap();
    assert_eq!(
        instruction,
        LedgerInstruction::MintTo { mint, destination, amount: 750 }
    );
    assert_eq!(event.mint, mint);
    assert_eq!(event.destination, destination);
    assert_eq!(event.amount, 750);
    assert_eq!(event.total_supply, 750);
    assert_eq!(info.total_supply, 750);
    assert_eq!(info.circulating_supply, 750);
}

#[test]
fn freeze_gates_mint_but_not_burn() {
    let authority = key(1);
    let mint = key(2);
    let holder = key(6);
    let mut info = fresh_token(authority, mint);
    mint_tokens(&mut info, authority, holder, 10).unwrap();

    let event = set_freeze_state(&mut info, authority, true).unwrap();
    assert!(event.is_frozen);
    assert!(info.is_frozen);

    let r = mint_tokens(&mut info, authority, holder, 1);
    assert_eq!(r, Err(ErrorCode::TokenFrozen));
    assert_eq!(info.total_supply, 10);
    assert_eq!(info.circulating_supply, 10);

    let (instruction, event) = burn_tokens(&mut info, holder, key(7), holder, 1).unwrap();
    assert_eq!(
        instruction,
        LedgerInstruction::BurnFrom { mint, source: key(7), amount: 1 }
    );
    assert_eq!(event.circulating_supply, 9);
    assert_eq!(info.circulating_supply, 9);
    assert_eq!(info.total_supply, 10);

    let event = set_freeze_state(&mut info, authority, false).unwrap();
    assert!(!event.is_frozen);
    assert!(!info.is_frozen);
    mint_tokens(&mut info, authority, holder, 1).unwrap();
    assert_eq!(info.total_supply, 11);
}

#[test]
fn freeze_by_non_authority_is_refused() {
    let authority = key(1);
    let mut info = fresh_token(authority, key(2));
    let r = set_freeze_state(&mut info, key(3), true);
    assert_eq!(r, Err(ErrorCode::UnauthorizedOperation));
    assert!(!info.is_frozen);
}

#[test]
fn mint_overflow_is_refused_and_leaves_counters() {
    let authority = key(1);
    let destination = key(5);
    let mut info = fresh_token(authority, key(2));
    mint_tokens(&mut info, authority, destination, u64::MAX).unwrap();
    assert_eq!(info.total_supply, u64::MAX);
    let r = mint_tokens(&mut info, authority, destination, 1);
    assert_eq!(r, Err(ErrorCode::NumericOverflow));
    assert_eq!(info.total_supply, u64::MAX);
    assert_eq!(info.circulating_supply, u64::MAX);
}

#[test]
fn burn_beyond_circulation_is_refused() {
    let authority = key(1);
    let holder = key(6);
    let mut info = fresh_token(authority, key(2));
    mint_tokens(&mut info, authority, holder, 5).unwrap();
    let r = burn_tokens(&mut info, holder, key(7), holder, 6);
    assert_eq!(r, Err(ErrorCode::NumericOverflow));
    assert_eq!(info.circulating_supply, 5);
    assert_eq!(info.total_supply, 5);
}

#[test]
fn burn_from_a_foreign_holding_is_refused() {
    let authority = key(1);
    let holder = key(6);
    let mut info = fresh_token(authority, key(2));
    mint_tokens(&mut info, authority, holder, 5).unwrap();
    let r = burn_tokens(&mut info, key(8), key(7), holder, 1);
    assert_eq!(r, Err(ErrorCode::UnauthorizedOperation));
    assert_eq!(info.circulating_supply, 5);
}

#[test]
fn burn_does_not_reduce_total_supply() {
    let authority = key(1);
    let holder = key(6);
    let mut info = fresh_token(authority, key(2));
    mint_tokens(&mut info, authority, holder, 100).unwrap();
    burn_tokens(&mut info, holder, key(7), holder, 100).unwrap();
    assert_eq!(info.circulating_supply, 0);
    assert_eq!(info.total_supply, 100);
}

#[test]
fn authority_transfer_moves_every_privilege() {
    let authority = key(1);
    let successor = key(9);
    let mint = key(2);
    let mut info = fresh_token(authority, mint);

    let r = transfer_authority(&mut info, key(3), successor);
    assert_eq!(r, Err(ErrorCode::UnauthorizedOperation));

    let event = transfer_authority(&mut info, authority, successor).unwrap();
    assert_eq!(event.mint, mint);
    assert_eq!(event.old_authority, authority);
    assert_eq!(event.new_authority, successor);
    assert_eq!(info.authority, successor);

    let r = mint_tokens(&mut info, authority, key(5), 1);
    assert_eq!(r, Err(ErrorCode::UnauthorizedMint));
    mint_tokens(&mut info, successor, key(5), 1).unwrap();
    assert_eq!(info.total_supply, 1);
}

#[test]
fn token_space_matches_fixed_plus_variable_layout() {
    assert_eq!(TokenInfo::space(), 370);
}

#[test]
fn token_encoding_fills_capacity_at_maximal_fields() {
    let (info, _event) = initialize_token(
        vec![b'n'; 50],
        vec![b's'; 10],
        vec![b'u'; 200],
        6,
        key(1),
        key(2),
        42,
    );
    let encoded = info.encode();
    assert_eq!(encoded.len(), TokenInfo::space());
    assert_eq!(&encoded[0..8], &[3, 0, 0, 0, 0, 0, 0, 0]);
    assert_eq!(&encoded[8..12], &[50, 0, 0, 0]);
}

#[test]
fn shorter_token_fields_encode_below_capacity() {
    let info = fresh_token(key(1), key(2));
    assert!(info.encode().len() < TokenInfo::space());
}
