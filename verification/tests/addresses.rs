use anchor_lang::prelude::Pubkey;
use quokka::{
    check_access, confirm_settlement, find_invoice_address, id, invoice_address, issue, pay,
    transfer_order, AccountMeta, Clock, ConfirmSettlement, ErrorCode, InvoiceAccount, Issue, Key,
    Party, Pay, Transfer,
};

fn creditor_key() -> Key {
    Key::new([7u8; 32])
}

fn debtor_key() -> Key {
    Key::new([9u8; 32])
}

fn outside(key: &Key) -> Pubkey {
    Pubkey::new_from_array(key.to_bytes())
}

fn issue_at(address: Key, project_id: &str, bump: u8) -> (Issue, Result<Key, ErrorCode>) {
    let mut ctx = Issue {
        program_id: id(),
        invoice: InvoiceAccount { address, record: None },
        creditor: Party { key: creditor_key(), lamports: 10, is_signer: true },
        debtor: Party { key: debtor_key(), lamports: 10, is_signer: false },
        clock: Clock { unix_timestamp: 1 },
        memo_limit: None,
    };
    let r = issue(&mut ctx, bump, 100, "m".to_string(), project_id.to_string());
    (ctx, r)
}

fn issued(project_id: &str) -> InvoiceAccount {
    let (address, bump) =
        find_invoice_address(&creditor_key(), &debtor_key(), project_id, &id()).unwrap();
    let (ctx, r) = issue_at(address, project_id, bump);
    assert_eq!(r, Ok(address));
    ctx.invoice
}

#[test]
fn program_id_is_the_declared_one() {
    let declared = Pubkey::from_str_const("9LjA6DjxKDB2uEQPH1kipq5L7Z2hRKGz2yd9EQD9fGhU");
    assert_eq!(id().to_bytes(), declared.to_bytes());
    assert_eq!(quokka::address::ID, declared.to_bytes());
}

#[test]
fn key_keeps_its_bytes() {
    let mut bytes = [0u8; 32];
    for i in 0..32 {
        bytes[i] = i as u8;
    }
    let key = Key::new(bytes);
    assert_eq!(key.to_bytes(), bytes);
    assert_eq!(key.bytes, bytes);
}

#[test]
fn keys_compare_by_bytes() {
    let a = Key::new([1u8; 32]);
    let mut other = [1u8; 32];
    assert!(a.same(&Key::new(other)));
    assert_eq!(a, Key::new(other));
    other[31] = 2;
    assert!(!a.same(&Key::new(other)));
    assert_ne!(a, Key::new(other));
    other[31] = 1;
    other[0] = 0;
    assert!(!a.same(&Key::new(other)));
}

#[test]
fn canonical_address_matches_the_ledger_derivation() {
    let (address, bump) =
        find_invoice_address(&creditor_key(), &debtor_key(), "p1", &id()).unwrap();
    let creditor = outside(&creditor_key());
    let debtor = outside(&debtor_key());
    let (expected, expected_bump) = Pubkey::find_program_address(
        &[creditor.as_ref(), debtor.as_ref(), "p1".as_bytes()],
        &outside(&id()),
    );
    assert_eq!(address.to_bytes(), expected.to_bytes());
    assert_eq!(bump, expected_bump);
    assert!(bump >= 1);
    assert_ne!(address, creditor_key());
    assert_ne!(address, debtor_key());
    assert_ne!(address, id());
}

#[test]
fn canonical_bump_rederives_the_address() {
    let (address, bump) =
        find_invoice_address(&creditor_key(), &debtor_key(), "p1", &id()).unwrap();
    let again = invoice_address(&creditor_key(), &debtor_key(), "p1", bump, &id());
    assert_eq!(again, Some(address));
    let creditor = outside(&creditor_key());
    let debtor = outside(&debtor_key());
    let expected = Pubkey::create_program_address(
        &[creditor.as_ref(), debtor.as_ref(), "p1".as_bytes(), &[bump]],
        &outside(&id()),
    )
    .unwrap();
    assert_eq!(address.to_bytes(), expected.to_bytes());
}

#[test]
fn no_larger_bump_derives_an_address() {
    let (_, bump) = find_invoice_address(&creditor_key(), &debtor_key(), "p1", &id()).unwrap();
    let mut above = bump;
    while above < u8::MAX {
        above += 1;
        assert_eq!(invoice_address(&creditor_key(), &debtor_key(), "p1", above, &id()), None);
    }
}

#[test]
fn derivation_is_deterministic() {
    let first = find_invoice_address(&creditor_key(), &debtor_key(), "p1", &id());
    let second = find_invoice_address(&creditor_key(), &debtor_key(), "p1", &id());
    assert_eq!(first, second);
}

#[test]
fn different_triples_get_different_addresses() {
    let base = find_invoice_address(&creditor_key(), &debtor_key(), "p1", &id()).unwrap().0;
    let other_project =
        find_invoice_address(&creditor_key(), &debtor_key(), "p2", &id()).unwrap().0;
    let swapped = find_invoice_address(&debtor_key(), &creditor_key(), "p1", &id()).unwrap().0;
    let other_debtor =
        find_invoice_address(&creditor_key(), &Key::new([8u8; 32]), "p1", &id()).unwrap().0;
    let other_program =
        find_invoice_address(&creditor_key(), &debtor_key(), "p1", &Key::new([5u8; 32]))
            .unwrap()
            .0;
    assert_ne!(base, other_project);
    assert_ne!(base, swapped);
    assert_ne!(base, other_debtor);
    assert_ne!(base, other_program);
}

#[test]
fn project_id_longer_than_a_seed_derives_nothing() {
    let long = "p".repeat(33);
    assert_eq!(find_invoice_address(&creditor_key(), &debtor_key(), &long, &id()), None);
    assert_eq!(invoice_address(&creditor_key(), &debtor_key(), &long, 255, &id()), None);
    let longest = "p".repeat(32);
    assert!(find_invoice_address(&creditor_key(), &debtor_key(), &longest, &id()).is_some());
    let wide = "\u{e9}".repeat(17);
    assert_eq!(find_invoice_address(&creditor_key(), &debtor_key(), &wide, &id()), None);
}

#[test]
fn issue_with_project_id_too_long_is_refused() {
    let long = "p".repeat(33);
    let (ctx, r) = issue_at(Key::new([1u8; 32]), &long, 255);
    assert_eq!(r, Err(ErrorCode::InvalidAddress));
    assert!(ctx.invoice.record.is_none());
}

#[test]
fn issue_at_foreign_address_is_refused() {
    let (_, bump) = find_invoice_address(&creditor_key(), &debtor_key(), "p1", &id()).unwrap();
    let (ctx, r) = issue_at(Key::new([1u8; 32]), "p1", bump);
    assert_eq!(r, Err(ErrorCode::InvalidAddress));
    assert!(ctx.invoice.record.is_none());
}

#[test]
fn issue_at_address_of_other_project_is_refused() {
    let (address, bump) =
        find_invoice_address(&creditor_key(), &debtor_key(), "p2", &id()).unwrap();
    let (ctx, r) = issue_at(address, "p1", bump);
    assert_eq!(r, Err(ErrorCode::InvalidAddress));
    assert!(ctx.invoice.record.is_none());
}

#[test]
fn issue_with_other_bump_is_refused() {
    let (address, bump) =
        find_invoice_address(&creditor_key(), &debtor_key(), "p1", &id()).unwrap();
    let (ctx, r) = issue_at(address, "p1", bump - 1);
    assert_eq!(r, Err(ErrorCode::InvalidAddress));
    assert!(ctx.invoice.record.is_none());
    let mut lower = bump - 1;
    while lower > 0
        && invoice_address(&creditor_key(), &debtor_key(), "p1", lower, &id()).is_none()
    {
        lower -= 1;
    }
    if lower > 0 {
        let other = invoice_address(&creditor_key(), &debtor_key(), "p1", lower, &id()).unwrap();
        let (ctx, r) = issue_at(other, "p1", lower);
        assert_eq!(r, Err(ErrorCode::InvalidAddress));
        assert!(ctx.invoice.record.is_none());
    }
}

#[test]
fn pay_on_record_moved_to_other_address_is_refused() {
    let mut invoice = issued("p1");
    invoice.address = Key::new([1u8; 32]);
    let mut ctx = Pay {
        program_id: id(),
        invoice,
        creditor: Party { key: creditor_key(), lamports: 0, is_signer: false },
        debtor: Party { key: debtor_key(), lamports: 500, is_signer: true },
    };
    assert_eq!(transfer_order(&ctx, 10).err(), Some(ErrorCode::InvalidAddress));
    assert_eq!(pay(&mut ctx, 10, Transfer::Completed), Err(ErrorCode::InvalidAddress));
    assert_eq!(ctx.invoice.record.as_ref().unwrap().balance, 100);
}

#[test]
fn pay_under_other_program_is_refused() {
    let invoice = issued("p1");
    let mut ctx = Pay {
        program_id: Key::new([5u8; 32]),
        invoice,
        creditor: Party { key: creditor_key(), lamports: 0, is_signer: false },
        debtor: Party { key: debtor_key(), lamports: 500, is_signer: true },
    };
    assert_eq!(pay(&mut ctx, 10, Transfer::Completed), Err(ErrorCode::InvalidAddress));
    assert_eq!(ctx.invoice.record.as_ref().unwrap().balance, 100);
}

#[test]
fn confirm_on_record_with_forged_project_is_refused() {
    let mut invoice = issued("p1");
    let mut forged = invoice.record.take().unwrap();
    forged.project_id = "p2".to_string();
    forged.balance = 0;
    invoice.record = Some(forged);
    let mut ctx = ConfirmSettlement {
        program_id: id(),
        invoice,
        creditor: Party { key: creditor_key(), lamports: 0, is_signer: true },
        debtor: Party { key: debtor_key(), lamports: 0, is_signer: false },
        clock: Clock { unix_timestamp: 9 },
    };
    assert_eq!(confirm_settlement(&mut ctx), Err(ErrorCode::InvalidAddress));
    assert_eq!(ctx.invoice.record.as_ref().unwrap().confirmed_at, 0);
}

#[test]
fn access_is_checked_in_order() {
    let invoice = issued("p1");
    let creditor = Party { key: creditor_key(), lamports: 0, is_signer: false };
    let debtor = Party { key: debtor_key(), lamports: 0, is_signer: true };
    let stranger = Party { key: Key::new([3u8; 32]), lamports: 0, is_signer: true };
    assert_eq!(check_access(&id(), &invoice, &debtor, &creditor, &debtor), Ok(()));
    assert_eq!(
        check_access(&id(), &invoice, &creditor, &creditor, &debtor),
        Err(ErrorCode::Unauthorized)
    );
    assert_eq!(
        check_access(&id(), &invoice, &stranger, &creditor, &stranger),
        Err(ErrorCode::Unauthorized)
    );
    assert_eq!(
        check_access(&Key::new([5u8; 32]), &invoice, &debtor, &creditor, &debtor),
        Err(ErrorCode::InvalidAddress)
    );
    let empty = InvoiceAccount { address: invoice.address, record: None };
    assert_eq!(
        check_access(&id(), &empty, &creditor, &creditor, &debtor),
        Err(ErrorCode::AccountNotInitialized)
    );
}

#[test]
fn transfer_order_names_the_system_transfer() {
    let invoice = issued("p1");
    let ctx = Pay {
        program_id: id(),
        invoice,
        creditor: Party { key: creditor_key(), lamports: 0, is_signer: false },
        debtor: Party { key: debtor_key(), lamports: 500, is_signer: true },
    };
    let order = transfer_order(&ctx, 300).unwrap();
    assert_eq!(order.program_id, Key::new([0u8; 32]));
    assert_eq!(
        order.accounts,
        vec![
            AccountMeta { pubkey: debtor_key(), is_signer: true, is_writable: true },
            AccountMeta { pubkey: creditor_key(), is_signer: false, is_writable: true },
        ]
    );
    assert_eq!(order.data, vec![2, 0, 0, 0, 100, 0, 0, 0, 0, 0, 0, 0]);

    let small = transfer_order(&ctx, 0x0102).unwrap();
    assert_eq!(small.data, vec![2, 0, 0, 0, 100, 0, 0, 0, 0, 0, 0, 0]);
    let smaller = transfer_order(&ctx, 7).unwrap();
    assert_eq!(smaller.data, vec![2, 0, 0, 0, 7, 0, 0, 0, 0, 0, 0, 0]);
}

#[test]
fn transfer_order_matches_the_ledger_instruction() {
    let invoice = issued("p1");
    let ctx = Pay {
        program_id: id(),
        invoice,
        creditor: Party { key: creditor_key(), lamports: 0, is_signer: false },
        debtor: Party { key: debtor_key(), lamports: 500, is_signer: true },
    };
    let order = transfer_order(&ctx, 42).unwrap();
    let expected = anchor_lang::solana_program::system_instruction::transfer(
        &outside(&debtor_key()),
        &outside(&creditor_key()),
        42,
    );
    assert_eq!(order.program_id.to_bytes(), expected.program_id.to_bytes());
    assert_eq!(order.data, expected.data);
    assert_eq!(order.accounts.len(), expected.accounts.len());
    for i in 0..order.accounts.len() {
        assert_eq!(order.accounts[i].pubkey.to_bytes(), expected.accounts[i].pubkey.to_bytes());
        assert_eq!(order.accounts[i].is_signer, expected.accounts[i].is_signer);
        assert_eq!(order.accounts[i].is_writable, expected.accounts[i].is_writable);
    }
}
