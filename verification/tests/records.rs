use gideon::account::{release, Account};
use gideon::address::Address;
use gideon::builders::ASSOCIATED_TOKEN_PROGRAM;
use gideon::decimal::{i64_text, parse_i64};
use gideon::error::{Failure, GideonError};
use gideon::metadata::{find_entry, read_expiry_seconds, read_linked_escrow};
use gideon::processor::PROGRAM_ID;
use gideon::state::authority::{
    authority_signer, check_authority, derive_authority, match_authority, MintAuthorityPda,
};
use gideon::state::escrow::{Escrow, PACKED_LEN};
use gideon::validation::{check_party, check_voucher, ReleasePath};
use solana_program::pubkey::Pubkey;
use std::str::FromStr;

fn address(byte: u8) -> Address {
    Address::new([byte; 32])
}

fn entries(pairs: &[(&str, &str)]) -> Vec<(String, String)> {
    pairs.iter().map(|(key, value)| (key.to_string(), value.to_string())).collect()
}

fn sample_record() -> Escrow {
    Escrow::new(address(1), address(2), 1000, 254, address(3))
}

#[test]
fn error_codes_follow_the_order_of_the_variants() {
    assert_eq!(GideonError::InvalidInstruction.code(), 0);
    assert_eq!(GideonError::InvalidMintAuthority.code(), 1);
    assert_eq!(GideonError::InvalidRecipientAccount.code(), 2);
    assert_eq!(GideonError::InsufficientFunds.code(), 3);
    assert_eq!(GideonError::InvalidVoucherEscrowAccount.code(), 4);
    assert_eq!(GideonError::VoucherExpired.code(), 5);
    assert_eq!(GideonError::InvalidIssuer.code(), 6);
    assert_eq!(GideonError::VoucherNotExpired.code(), 7);
}

#[test]
fn program_identities_are_those_of_their_texts() {
    let own = Pubkey::from_str("gidsaNxwQbr6pyLDaqVn4pPwAypkjwFNZQvvKBJ1Rbi").unwrap();
    assert_eq!(PROGRAM_ID, own.to_bytes());
    assert_eq!(ASSOCIATED_TOKEN_PROGRAM, spl_associated_token_account::id().to_bytes());
}

#[test]
fn address_equality_is_by_bytes() {
    let mut bytes = [7u8; 32];
    assert_eq!(Address::new(bytes), address(7));
    bytes[31] = 8;
    assert_ne!(Address::new(bytes), address(7));
    bytes[31] = 7;
    bytes[0] = 0;
    assert_ne!(Address::new(bytes), address(7));
}

#[test]
fn zero_address_is_recognized() {
    assert!(Address::zero().is_zero());
    assert_eq!(Address::zero().bytes, [0u8; 32]);
    assert!(!address(1).is_zero());
    let mut bytes = [0u8; 32];
    bytes[31] = 1;
    assert!(!Address::new(bytes).is_zero());
}

#[test]
fn address_from_slice_reads_at_the_offset() {
    let data: Vec<u8> = (0u8..64).collect();
    let read = Address::from_slice(&data, 5);
    let expected: Vec<u8> = (5u8..37).collect();
    assert_eq!(read.to_vec(), expected);
    assert_eq!(Address::from_slice(&data, 32).bytes[0], 32);
}

#[test]
fn record_sizes() {
    assert_eq!(Escrow::ACCOUNT_SPACE, 113);
    assert_eq!(PACKED_LEN, 105);
    assert_eq!(Escrow::SEED_PREFIX, "escrow");
    assert_eq!(Escrow::seed_prefix_bytes(), b"escrow".to_vec());
    assert_eq!(MintAuthorityPda::SEED_PREFIX, "mint_authority");
    assert_eq!(MintAuthorityPda::seed_prefix_bytes(), b"mint_authority".to_vec());
    assert_eq!(MintAuthorityPda::ACCOUNT_SPACE, 1);
}

#[test]
fn new_keeps_every_field() {
    let record = sample_record();
    assert_eq!(record.payer, address(1));
    assert_eq!(record.recipient, address(2));
    assert_eq!(record.amount, 1000);
    assert_eq!(record.bump, 254);
    assert_eq!(record.voucher_mint, address(3));
}

#[test]
fn pack_lays_the_fields_out_in_order() {
    let packed = sample_record().pack();
    assert_eq!(packed.len(), 105);
    assert_eq!(&packed[0..32], &[1u8; 32]);
    assert_eq!(&packed[32..64], &[2u8; 32]);
    assert_eq!(&packed[64..72], &[0xe8, 0x03, 0, 0, 0, 0, 0, 0]);
    assert_eq!(packed[72], 254);
    assert_eq!(&packed[73..105], &[3u8; 32]);
}

#[test]
fn pack_agrees_with_borsh() {
    let record = Escrow::new(address(9), address(8), 0x0102_0304_0506_0708, 7, address(6));
    let by_borsh =
        borsh::to_vec(&([9u8; 32], [8u8; 32], 0x0102_0304_0506_0708u64, 7u8, [6u8; 32])).unwrap();
    assert_eq!(record.pack(), by_borsh);
}

#[test]
fn unpack_reads_a_packed_record_back() {
    let record = sample_record();
    assert_eq!(Escrow::unpack(&record.pack()), Some(record));
}

#[test]
fn unpack_ignores_what_follows_the_record() {
    let record = sample_record();
    let mut data = record.pack();
    data.extend_from_slice(&[0xaa; 8]);
    assert_eq!(data.len(), Escrow::ACCOUNT_SPACE);
    assert_eq!(Escrow::unpack(&data), Some(record));
}

#[test]
fn unpack_refuses_short_data() {
    let data = sample_record().pack();
    assert_eq!(Escrow::unpack(&data[..104]), None);
    assert_eq!(Escrow::unpack(&[]), None);
}

#[test]
fn unpack_of_zeroes_is_the_zeroed_record() {
    let record = Escrow::unpack(&[0u8; 113]).unwrap();
    assert!(record.payer.is_zero());
    assert!(record.recipient.is_zero());
    assert_eq!(record.amount, 0);
    assert_eq!(record.bump, 0);
    assert!(record.voucher_mint.is_zero());
}

#[test]
fn store_writes_over_the_start_only() {
    let mut account = Account::new(address(4), 55, vec![9u8; 6]);
    assert_eq!(account.store(&[1, 2, 3]), Ok(()));
    assert_eq!(account.data, vec![1, 2, 3, 9, 9, 9]);
    assert_eq!(account.lamports, 55);
    assert_eq!(account.key, address(4));
    assert_eq!(account.store(&[]), Ok(()));
    assert_eq!(account.data, vec![1, 2, 3, 9, 9, 9]);
}

#[test]
fn store_refuses_data_that_is_too_short() {
    let mut account = Account::new(address(4), 55, vec![9u8; 2]);
    assert_eq!(account.store(&[1, 2, 3]), Err(Failure::AccountDataTooSmall));
    assert_eq!(account.data, vec![9, 9]);
}

#[test]
fn release_moves_the_balance_and_zeroes_the_record() {
    let mut escrow = Account::new(address(5), 1000, sample_record().pack());
    let mut to = Account::new(address(2), 40, vec![1, 2]);
    assert_eq!(release(&mut escrow, &mut to), Ok(()));
    assert_eq!(to.lamports, 1040);
    assert_eq!(to.data, vec![1, 2]);
    assert_eq!(escrow.lamports, 0);
    assert_eq!(escrow.data, vec![0u8; 105]);
    assert_eq!(escrow.key, address(5));
}

#[test]
fn release_twice_moves_nothing_more() {
    let mut escrow = Account::new(address(5), 1000, sample_record().pack());
    let mut to = Account::new(address(2), 40, Vec::new());
    release(&mut escrow, &mut to).unwrap();
    assert_eq!(release(&mut escrow, &mut to), Ok(()));
    assert_eq!(to.lamports, 1040);
    assert_eq!(escrow.lamports, 0);
    assert_eq!(escrow.data, vec![0u8; 105]);
}

#[test]
fn release_that_overflows_changes_nothing() {
    let data = sample_record().pack();
    let mut escrow = Account::new(address(5), 2, data.clone());
    let mut to = Account::new(address(2), u64::MAX - 1, Vec::new());
    assert_eq!(release(&mut escrow, &mut to), Err(Failure::ArithmeticOverflow));
    assert_eq!(escrow, Account::new(address(5), 2, data));
    assert_eq!(to.lamports, u64::MAX - 1);
}

#[test]
fn release_up_to_the_largest_balance() {
    let mut escrow = Account::new(address(5), 1, vec![3u8; 4]);
    let mut to = Account::new(address(2), u64::MAX - 1, Vec::new());
    assert_eq!(release(&mut escrow, &mut to), Ok(()));
    assert_eq!(to.lamports, u64::MAX);
    assert_eq!(escrow.data, vec![0u8; 4]);
}

#[test]
fn authority_is_the_address_of_the_fixed_seed() {
    let program = Pubkey::new_from_array(PROGRAM_ID);
    let (expected, bump) = Pubkey::find_program_address(&[b"mint_authority"], &program);
    let derived = derive_authority(&Address::new(PROGRAM_ID));
    assert_eq!(derived, Some((Address::new(expected.to_bytes()), bump)));
    assert_ne!(expected.to_bytes(), PROGRAM_ID);
}

#[test]
fn authority_differs_between_programs() {
    let one = derive_authority(&address(1)).unwrap();
    let other = derive_authority(&address(2)).unwrap();
    assert_ne!(one.0, other.0);
    assert_eq!(derive_authority(&address(1)), Some(one));
}

#[test]
fn authority_signer_is_the_prefix_and_the_bump() {
    assert_eq!(authority_signer(251), vec![vec![b"mint_authority".to_vec(), vec![251u8]]]);
    assert_eq!(MintAuthorityPda::signer_seeds(3), vec![b"mint_authority".to_vec(), vec![3u8]]);
}

#[test]
fn match_authority_wants_identity_and_bump() {
    let derived = Some((address(7), 250u8));
    let good = Account::new(address(7), 1, vec![250]);
    assert_eq!(match_authority(derived, &good), Ok(250));
    let longer = Account::new(address(7), 1, vec![250, 1, 2]);
    assert_eq!(match_authority(derived, &longer), Ok(250));
    let other_identity = Account::new(address(8), 1, vec![250]);
    assert_eq!(match_authority(derived, &other_identity), Err(GideonError::InvalidMintAuthority));
    let other_bump = Account::new(address(7), 1, vec![249]);
    assert_eq!(match_authority(derived, &other_bump), Err(GideonError::InvalidMintAuthority));
    let no_record = Account::new(address(7), 1, Vec::new());
    assert_eq!(match_authority(derived, &no_record), Err(GideonError::InvalidMintAuthority));
    assert_eq!(match_authority(None, &good), Err(GideonError::InvalidMintAuthority));
}

#[test]
fn check_authority_derives_afresh() {
    let program = address(42);
    let (key, bump) = derive_authority(&program).unwrap();
    assert_eq!(check_authority(&program, &Account::new(key, 0, vec![bump])), Ok(bump));
    assert_eq!(
        check_authority(&program, &Account::new(key, 0, vec![bump.wrapping_add(1)])),
        Err(GideonError::InvalidMintAuthority)
    );
    assert_eq!(
        check_authority(&address(43), &Account::new(key, 0, vec![bump])),
        Err(GideonError::InvalidMintAuthority)
    );
}

#[test]
fn find_entry_takes_the_first_of_a_key() {
    let list = entries(&[("a", "1"), ("expiry", "2"), ("a", "3"), ("expiry", "4")]);
    assert_eq!(find_entry(&list, "a"), Some(&"1".to_string()));
    assert_eq!(find_entry(&list, "expiry"), Some(&"2".to_string()));
    assert_eq!(find_entry(&list, "escrow"), None);
    assert_eq!(find_entry(&Vec::new(), "a"), None);
}

#[test]
fn linked_escrow_is_parsed_from_base_58() {
    let key = Pubkey::new_from_array([11u8; 32]);
    let list = entries(&[("expiry", "5"), ("escrow", &key.to_string())]);
    assert_eq!(read_linked_escrow(&list), Some(address(11)));
    assert_ne!(key.to_string().as_bytes(), &[11u8; 32][..]);
}

#[test]
fn linked_escrow_that_is_missing_or_malformed_is_none() {
    assert_eq!(read_linked_escrow(&entries(&[("expiry", "5")])), None);
    assert_eq!(read_linked_escrow(&entries(&[("escrow", "not an address")])), None);
    assert_eq!(read_linked_escrow(&entries(&[("escrow", "")])), None);
    assert_eq!(read_linked_escrow(&entries(&[("escrow", "abc")])), None);
}

#[test]
fn expiry_is_read_in_whole_seconds() {
    assert_eq!(read_expiry_seconds(&entries(&[("expiry", "1500")])), Some(1));
    assert_eq!(read_expiry_seconds(&entries(&[("expiry", "999")])), Some(0));
    assert_eq!(read_expiry_seconds(&entries(&[("expiry", "1000")])), Some(1));
    assert_eq!(read_expiry_seconds(&entries(&[("expiry", "+2000")])), Some(2));
    assert_eq!(read_expiry_seconds(&entries(&[("expiry", "0017000")])), Some(17));
    assert_eq!(
        read_expiry_seconds(&entries(&[("expiry", "1700000001500")])),
        Some(1_700_000_001)
    );
    assert_eq!(
        read_expiry_seconds(&entries(&[("expiry", "9223372036854775807")])),
        Some(9_223_372_036_854_775)
    );
}

#[test]
fn negative_expiry_rounds_towards_zero() {
    assert_eq!(read_expiry_seconds(&entries(&[("expiry", "-1500")])), Some(-1));
    assert_eq!(read_expiry_seconds(&entries(&[("expiry", "-999")])), Some(0));
    assert_eq!(read_expiry_seconds(&entries(&[("expiry", "-0")])), Some(0));
    assert_eq!(
        read_expiry_seconds(&entries(&[("expiry", "-9223372036854775808")])),
        Some(-9_223_372_036_854_775)
    );
}

#[test]
fn expiry_that_is_missing_or_malformed_is_none() {
    assert_eq!(read_expiry_seconds(&entries(&[("escrow", "5")])), None);
    assert_eq!(read_expiry_seconds(&entries(&[("expiry", "")])), None);
    assert_eq!(read_expiry_seconds(&entries(&[("expiry", "-")])), None);
    assert_eq!(read_expiry_seconds(&entries(&[("expiry", "+")])), None);
    assert_eq!(read_expiry_seconds(&entries(&[("expiry", "12a")])), None);
    assert_eq!(read_expiry_seconds(&entries(&[("expiry", " 12")])), None);
    assert_eq!(read_expiry_seconds(&entries(&[("expiry", "1_000")])), None);
    assert_eq!(read_expiry_seconds(&entries(&[("expiry", "9223372036854775808")])), None);
    assert_eq!(read_expiry_seconds(&entries(&[("expiry", "-9223372036854775809")])), None);
}

#[test]
fn check_party_names_the_recipient_for_a_claim_and_the_payer_for_a_refund() {
    let record = Some(sample_record());
    assert_eq!(check_party(ReleasePath::Claim, &address(2), record), Ok(()));
    assert_eq!(
        check_party(ReleasePath::Claim, &address(1), record),
        Err(GideonError::InvalidRecipientAccount)
    );
    assert_eq!(check_party(ReleasePath::Refund, &address(1), record), Ok(()));
    assert_eq!(
        check_party(ReleasePath::Refund, &address(2), record),
        Err(GideonError::InvalidIssuer)
    );
    assert_eq!(
        check_party(ReleasePath::Claim, &address(2), None),
        Err(GideonError::InvalidRecipientAccount)
    );
    assert_eq!(check_party(ReleasePath::Refund, &address(1), None), Err(GideonError::InvalidIssuer));
}

#[test]
fn check_voucher_is_inclusive_at_the_deadline() {
    let key = Pubkey::new_from_array([11u8; 32]);
    let list = entries(&[("escrow", &key.to_string()), ("expiry", "5000")]);
    let escrow = address(11);
    assert_eq!(check_voucher(ReleasePath::Claim, &list, &escrow, 4), Ok(()));
    assert_eq!(check_voucher(ReleasePath::Claim, &list, &escrow, 5), Ok(()));
    assert_eq!(
        check_voucher(ReleasePath::Claim, &list, &escrow, 6),
        Err(GideonError::VoucherExpired)
    );
    assert_eq!(
        check_voucher(ReleasePath::Refund, &list, &escrow, 4),
        Err(GideonError::VoucherNotExpired)
    );
    assert_eq!(check_voucher(ReleasePath::Refund, &list, &escrow, 5), Ok(()));
    assert_eq!(check_voucher(ReleasePath::Refund, &list, &escrow, 6), Ok(()));
}

#[test]
fn check_voucher_puts_the_link_before_the_time() {
    let key = Pubkey::new_from_array([11u8; 32]);
    let list = entries(&[("escrow", &key.to_string()), ("expiry", "5000")]);
    for now in [i64::MIN, 4, 5, 6, i64::MAX] {
        assert_eq!(
            check_voucher(ReleasePath::Claim, &list, &address(12), now),
            Err(GideonError::InvalidVoucherEscrowAccount)
        );
        assert_eq!(
            check_voucher(ReleasePath::Refund, &list, &address(12), now),
            Err(GideonError::InvalidVoucherEscrowAccount)
        );
    }
    let unlinked = entries(&[("expiry", "5000")]);
    assert_eq!(
        check_voucher(ReleasePath::Claim, &unlinked, &address(11), 1),
        Err(GideonError::InvalidVoucherEscrowAccount)
    );
}

#[test]
fn check_voucher_without_a_deadline_opens_neither_path() {
    let key = Pubkey::new_from_array([11u8; 32]);
    let list = entries(&[("escrow", &key.to_string())]);
    assert_eq!(
        check_voucher(ReleasePath::Claim, &list, &address(11), 0),
        Err(GideonError::VoucherExpired)
    );
    assert_eq!(
        check_voucher(ReleasePath::Refund, &list, &address(11), i64::MAX),
        Err(GideonError::VoucherNotExpired)
    );
}

#[test]
fn path_errors() {
    assert_eq!(ReleasePath::Claim.identity_error(), GideonError::InvalidRecipientAccount);
    assert_eq!(ReleasePath::Refund.identity_error(), GideonError::InvalidIssuer);
    assert_eq!(ReleasePath::Claim.time_error(), GideonError::VoucherExpired);
    assert_eq!(ReleasePath::Refund.time_error(), GideonError::VoucherNotExpired);
}

#[test]
fn parse_i64_reads_signed_decimal_numbers() {
    assert_eq!(parse_i64("0"), Some(0));
    assert_eq!(parse_i64("7"), Some(7));
    assert_eq!(parse_i64("+7"), Some(7));
    assert_eq!(parse_i64("-7"), Some(-7));
    assert_eq!(parse_i64("-0"), Some(0));
    assert_eq!(parse_i64("000123"), Some(123));
    assert_eq!(parse_i64("-000123"), Some(-123));
    assert_eq!(parse_i64("1700000001500"), Some(1_700_000_001_500));
    assert_eq!(parse_i64("9223372036854775807"), Some(i64::MAX));
    assert_eq!(parse_i64("-9223372036854775808"), Some(i64::MIN));
    assert_eq!(parse_i64("00000000000000000000000000009223372036854775807"), Some(i64::MAX));
}

#[test]
fn parse_i64_refuses_what_is_no_number() {
    for text in [
        "", "-", "+", "--1", "+-1", "-+1", "1-", "1+", " 1", "1 ", "1.0", "1e3", "0x10", "1_000",
        "١٢٣", "１２", "12a", "a12", "\u{0}", "9223372036854775808", "-9223372036854775809",
        "99999999999999999999", "-99999999999999999999", "18446744073709551616",
        "100000000000000000000000000000000000000000",
    ] {
        assert_eq!(parse_i64(text), None, "{:?}", text);
    }
}

#[test]
fn parse_i64_agrees_with_the_standard_library() {
    for text in [
        "0", "-1", "+1", "", "+", "42", "-42", "4 2", "９", "9223372036854775807",
        "9223372036854775808", "-9223372036854775808", "-9223372036854775809", "0009", "é1",
    ] {
        assert_eq!(parse_i64(text), text.parse::<i64>().ok(), "{:?}", text);
    }
}

#[test]
fn i64_text_writes_decimal_numbers() {
    assert_eq!(i64_text(0), "0");
    assert_eq!(i64_text(7), "7");
    assert_eq!(i64_text(-7), "-7");
    assert_eq!(i64_text(10), "10");
    assert_eq!(i64_text(-10), "-10");
    assert_eq!(i64_text(1_700_000_001_500), "1700000001500");
    assert_eq!(i64_text(i64::MAX), "9223372036854775807");
    assert_eq!(i64_text(i64::MIN), "-9223372036854775808");
}

#[test]
fn i64_text_reads_back() {
    for value in [0, 1, -1, 9, 10, 99, 100, -100, 1_000_000_007, i64::MAX, i64::MIN, i64::MIN + 1] {
        assert_eq!(i64_text(value), value.to_string());
        assert_eq!(parse_i64(&i64_text(value)), Some(value));
    }
}
