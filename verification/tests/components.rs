use mint_escrow::account::close_account;
use mint_escrow::account::transfer;
use mint_escrow::account::TokenAccount;
use mint_escrow::entry::Escrow;
use mint_escrow::entry::ESCROW_RECORD_LEN;
use mint_escrow::error::ErrorKind;
use mint_escrow::error::EscrowError;
use mint_escrow::ident::Identity;
use mint_escrow::registry::Registry;
use mint_escrow::validate::validate_accept;
use mint_escrow::validate::Accept;

fn ident(n: u64) -> Identity {
    Identity { w0: n, w1: 0, w2: 0, w3: 0 }
}

fn account(id: u64, asset: u64, owner: u64, balance: u64) -> TokenAccount {
    TokenAccount { id: ident(id), asset_type: ident(asset), owner: ident(owner), balance }
}

fn entry(authority: u64, vault: u64, wanted_asset: u64, wanted_amount: u64) -> Escrow {
    Escrow {
        authority: ident(authority),
        derivation_nonce: 255,
        vault_reference: ident(vault),
        wanted_asset_type: ident(wanted_asset),
        wanted_amount,
    }
}

#[test]
fn transfer_moves_balance() {
    let mut from = account(1, 10, 7, 30);
    let mut to = account(2, 10, 8, 5);
    assert_eq!(transfer(&mut from, &mut to, ident(7), 12), Ok(()));
    assert_eq!(from.balance, 18);
    assert_eq!(to.balance, 17);
    assert_eq!(from.owner, ident(7));
    assert_eq!(to.owner, ident(8));
}

#[test]
fn transfer_requires_owner_as_authorizer() {
    let mut from = account(1, 10, 7, 30);
    let mut to = account(2, 10, 8, 5);
    assert_eq!(transfer(&mut from, &mut to, ident(8), 12), Err(EscrowError::TransferFailure));
    assert_eq!((from.balance, to.balance), (30, 5));
}

#[test]
fn transfer_requires_matching_asset_types() {
    let mut from = account(1, 10, 7, 30);
    let mut to = account(2, 11, 8, 5);
    assert_eq!(transfer(&mut from, &mut to, ident(7), 12), Err(EscrowError::TransferFailure));
}

#[test]
fn transfer_requires_sufficient_balance() {
    let mut from = account(1, 10, 7, 30);
    let mut to = account(2, 10, 8, 5);
    assert_eq!(transfer(&mut from, &mut to, ident(7), 31), Err(EscrowError::TransferFailure));
    assert_eq!((from.balance, to.balance), (30, 5));
}

#[test]
fn transfer_refuses_overflowing_destination() {
    let mut from = account(1, 10, 7, 30);
    let mut to = account(2, 10, 8, u64::MAX - 10);
    assert_eq!(transfer(&mut from, &mut to, ident(7), 11), Err(EscrowError::TransferFailure));
    assert_eq!(transfer(&mut from, &mut to, ident(7), 10), Ok(()));
    assert_eq!(to.balance, u64::MAX);
}

#[test]
fn close_requires_empty_account_and_owner() {
    let full = account(1, 10, 7, 1);
    assert_eq!(close_account(&full, ident(7)), Err(EscrowError::CloseFailure));
    let empty = account(1, 10, 7, 0);
    assert_eq!(close_account(&empty, ident(8)), Err(EscrowError::CloseFailure));
    assert_eq!(close_account(&empty, ident(7)), Ok(()));
}

#[test]
fn validate_accept_checks_vault_reference() {
    let e = entry(1, 200, 11, 50);
    let vault = account(201, 10, 99, 100);
    let a = Accept {
        buyer: ident(2),
        sellers_y_tokens: account(101, 11, 1, 0),
        buyer_x_tokens: account(102, 10, 2, 0),
        buyer_y_tokens: account(103, 11, 2, 50),
    };
    assert_eq!(validate_accept(&e, &vault, &a), Err(EscrowError::VaultReferenceMismatch));
    let vault_ok = account(200, 10, 99, 100);
    assert_eq!(validate_accept(&e, &vault_ok, &a), Ok(()));
}

#[test]
fn record_is_113_bytes_and_round_trips() {
    let e = entry(1, 200, 11, 50);
    let bytes = e.to_record();
    assert_eq!(bytes.len(), ESCROW_RECORD_LEN);
    assert_eq!(bytes.len(), 113);
    let decoded = Escrow::from_record(&bytes).expect("a fresh record must decode");
    assert_eq!(decoded, e);
}

#[test]
fn record_layout_is_fixed() {
    let e = Escrow {
        authority: Identity { w0: 1, w1: 2, w2: 3, w3: 4 },
        derivation_nonce: 254,
        vault_reference: ident(200),
        wanted_asset_type: ident(11),
        wanted_amount: 0x0102030405060708,
    };
    let bytes = e.to_record();
    // discriminator
    assert_eq!(&bytes[0..8], &[31u8, 213, 123, 187, 186, 22, 218, 155][..]);
    // authority words, little endian
    assert_eq!(&bytes[8..16], &[1u8, 0, 0, 0, 0, 0, 0, 0][..]);
    assert_eq!(&bytes[16..24], &[2u8, 0, 0, 0, 0, 0, 0, 0][..]);
    // nonce
    assert_eq!(bytes[40], 254);
    // wanted amount, little endian
    assert_eq!(&bytes[105..113], &[8u8, 7, 6, 5, 4, 3, 2, 1][..]);
}

#[test]
fn malformed_records_do_not_decode() {
    let e = entry(1, 200, 11, 50);
    let mut bytes = e.to_record();
    bytes.push(0);
    assert_eq!(Escrow::from_record(&bytes), None);
    bytes.pop();
    bytes.pop();
    assert_eq!(Escrow::from_record(&bytes), None);
    bytes.push(155);
    bytes[0] = 32;
    assert_eq!(Escrow::from_record(&bytes), None);
}

#[test]
fn identity_bytes_round_trip() {
    let id = Identity { w0: u64::MAX, w1: 0, w2: 5, w3: 1 << 63 };
    let bytes = id.to_le_vec();
    assert_eq!(bytes.len(), 32);
    assert_eq!(Identity::from_le_slice(&bytes), id);
}

#[test]
fn error_kinds_follow_the_taxonomy() {
    assert_eq!(EscrowError::AuthorizationFailure.kind(), ErrorKind::Authorization);
    assert_eq!(EscrowError::TransferFailure.kind(), ErrorKind::Transfer);
    assert_eq!(EscrowError::CloseFailure.kind(), ErrorKind::Transfer);
    assert_eq!(EscrowError::SourceAssetTypeMismatch.kind(), ErrorKind::Validation);
    assert_eq!(EscrowError::VaultReferenceMismatch.kind(), ErrorKind::Validation);
    assert_eq!(EscrowError::AlreadySettled.kind(), ErrorKind::Validation);
    assert_eq!(EscrowError::EntryAlreadyExists.kind(), ErrorKind::Validation);
}

#[test]
fn registry_keeps_one_entry_per_seller() {
    let mut r = Registry::new();
    let e1 = entry(1, 200, 11, 50);
    let e2 = entry(2, 201, 11, 60);
    assert_eq!(r.insert(e1), Ok(()));
    assert_eq!(r.insert(e2), Ok(()));
    let again = entry(1, 202, 12, 70);
    assert_eq!(r.insert(again), Err(EscrowError::EntryAlreadyExists));
    assert_eq!(r.entries.len(), 2);
}

#[test]
fn registry_find_and_remove() {
    let mut r = Registry::new();
    let e1 = entry(1, 200, 11, 50);
    let e2 = entry(2, 201, 11, 60);
    r.insert(e1).unwrap();
    r.insert(e2).unwrap();
    assert_eq!(r.find(ident(2)), Some(1));
    assert_eq!(r.find(ident(3)), None);
    assert_eq!(r.remove(ident(1)), Some(e1));
    assert_eq!(r.remove(ident(1)), None);
    assert_eq!(r.find(ident(2)), Some(0));
    // a removed seller may open a fresh escrow again
    assert_eq!(r.insert(entry(1, 202, 12, 70)), Ok(()));
}
