use gideon::account::Account;
use gideon::address::Address;
use gideon::error::{Failure, GideonError};
use gideon::instruction::GideonInstruction;
use gideon::instructions::create::{create_voucher, CreateVoucherArgs, CREATE_METADATA_SPACE};
use gideon::instructions::{create, escrow, init_authority, mint};
use gideon::instructions::escrow::{init_escrow, InitEscrowArgs};
use gideon::instructions::init_authority::init;
use gideon::instructions::mint::{
    mint_account_space, mint_voucher, voucher_mint_account_len, MintVoucherArgs, METADATA_SPACE,
};
use gideon::invocation::{AccountMeta, Action, Instruction, Invocation};
use gideon::processor::{process_instruction, Environment, PROGRAM_ID};
use gideon::state::authority::derive_authority;
use gideon::state::escrow::Escrow;
use solana_program::program_error::ProgramError;
use solana_program::pubkey::Pubkey;
use spl_token_2022::extension::ExtensionType;
use spl_token_2022::instruction::AuthorityType;
use spl_token_2022::state::Mint;
use spl_token_metadata_interface::instruction::TokenMetadataInstruction;
use spl_token_metadata_interface::state::Field;

fn address(byte: u8) -> Address {
    Address::new([byte; 32])
}

fn key(address: &Address) -> Pubkey {
    Pubkey::new_from_array(address.bytes)
}

fn own(instruction: solana_program::instruction::Instruction) -> Instruction {
    Instruction {
        program_id: Address::new(instruction.program_id.to_bytes()),
        accounts: instruction
            .accounts
            .iter()
            .map(|meta| AccountMeta {
                pubkey: Address::new(meta.pubkey.to_bytes()),
                is_signer: meta.is_signer,
                is_writable: meta.is_writable,
            })
            .collect(),
        data: instruction.data,
    }
}

fn program() -> Address {
    Address::new(PROGRAM_ID)
}

fn token_program() -> Address {
    Address::new(spl_token_2022::id().to_bytes())
}

fn system_program() -> Address {
    Address::new(solana_program::system_program::id().to_bytes())
}

fn authority_account() -> Account {
    let (authority, bump) = derive_authority(&program()).unwrap();
    Account::new(authority, 1, vec![bump])
}

fn authority_signers() -> Vec<Vec<Vec<u8>>> {
    let (_, bump) = derive_authority(&program()).unwrap();
    vec![vec![b"mint_authority".to_vec(), vec![bump]]]
}

// escrow, payer, mint, authority, holding, rent, system, token, associated token
fn issue_accounts(holding_lamports: u64) -> Vec<Account> {
    vec![
        Account::new(address(10), 0, Vec::new()),
        Account::new(address(11), 5_000_000, Vec::new()),
        Account::new(address(12), 0, Vec::new()),
        authority_account(),
        Account::new(address(14), holding_lamports, Vec::new()),
        Account::new(Address::new(solana_program::sysvar::rent::id().to_bytes()), 1, Vec::new()),
        Account::new(system_program(), 1, Vec::new()),
        Account::new(token_program(), 1, Vec::new()),
        Account::new(Address::new(spl_associated_token_account::id().to_bytes()), 1, Vec::new()),
    ]
}

fn mint_args(expiry: i64) -> MintVoucherArgs {
    MintVoucherArgs {
        title: "Gift".to_string(),
        description: "A gift for you".to_string(),
        symbol: "GFT".to_string(),
        uri: "https://example.com/gift.json".to_string(),
        expiry,
    }
}

fn escrow_args() -> InitEscrowArgs {
    InitEscrowArgs { payer: address(11), recipient: address(21), amount: 1000, voucher_mint: address(12) }
}

fn invoke(
    instruction: solana_program::instruction::Instruction,
    accounts: Vec<usize>,
    signers: Vec<Vec<Vec<u8>>>,
) -> Action {
    Action::Invoke(Invocation { instruction: own(instruction), accounts, signers })
}

fn mint_space() -> usize {
    ExtensionType::try_calculate_account_len::<Mint>(&[ExtensionType::MetadataPointer]).unwrap()
}

fn expected_issue(accounts: &[Account], args: &MintVoucherArgs, rent: u64) -> Vec<Action> {
    let space = mint_space();
    let escrow = accounts[0].key;
    let payer = accounts[1].key;
    let mint = accounts[2].key;
    let authority = accounts[3].key;
    let holding = accounts[4].key;
    let rent_key = accounts[5].key;
    let system = accounts[6].key;
    let token = accounts[7].key;
    let signed = authority_signers();
    let mut actions = vec![
        invoke(
            solana_program::system_instruction::create_account(
                &key(&payer),
                &key(&mint),
                rent,
                space as u64,
                &key(&token),
            ),
            vec![mint::MINT, mint::PAYER, mint::SYSTEM_PROGRAM, mint::TOKEN_PROGRAM],
            Vec::new(),
        ),
        invoke(
            spl_token_2022::extension::metadata_pointer::instruction::initialize(
                &key(&token),
                &key(&mint),
                Some(key(&authority)),
                Some(key(&mint)),
            )
            .unwrap(),
            vec![mint::MINT, mint::AUTHORITY, mint::TOKEN_PROGRAM],
            Vec::new(),
        ),
        invoke(
            spl_token_2022::instruction::initialize_mint(
                &key(&token),
                &key(&mint),
                &key(&authority),
                Some(&key(&authority)),
                0,
            )
            .unwrap(),
            vec![mint::MINT, mint::AUTHORITY, mint::TOKEN_PROGRAM, mint::RENT],
            Vec::new(),
        ),
        invoke(
            spl_token_metadata_interface::instruction::initialize(
                &key(&token),
                &key(&mint),
                &key(&authority),
                &key(&mint),
                &key(&authority),
                args.title.clone(),
                args.symbol.clone(),
                args.uri.clone(),
            ),
            vec![mint::MINT, mint::AUTHORITY, mint::TOKEN_PROGRAM, mint::PAYER, mint::SYSTEM_PROGRAM],
            signed.clone(),
        ),
        invoke(
            spl_token_metadata_interface::instruction::update_field(
                &key(&token),
                &key(&mint),
                &key(&authority),
                Field::Key("escrow".to_string()),
                key(&escrow).to_string(),
            ),
            vec![mint::ESCROW, mint::MINT, mint::AUTHORITY, mint::TOKEN_PROGRAM],
            signed.clone(),
        ),
        invoke(
            spl_token_metadata_interface::instruction::update_field(
                &key(&token),
                &key(&mint),
                &key(&authority),
                Field::Key("expiry".to_string()),
                args.expiry.to_string(),
            ),
            vec![mint::ESCROW, mint::MINT, mint::AUTHORITY, mint::TOKEN_PROGRAM],
            signed.clone(),
        ),
    ];
    if accounts[4].lamports == 0 {
        actions.push(invoke(
            spl_associated_token_account::instruction::create_associated_token_account(
                &key(&payer),
                &key(&payer),
                &key(&mint),
                &key(&token),
            ),
            vec![mint::PAYER, mint::HOLDING, mint::PAYER, mint::MINT, mint::SYSTEM_PROGRAM, mint::TOKEN_PROGRAM],
            Vec::new(),
        ));
    }
    actions.push(invoke(
        spl_token_2022::instruction::mint_to(
            &key(&token),
            &key(&mint),
            &key(&holding),
            &key(&authority),
            &[&key(&authority)],
            1,
        )
        .unwrap(),
        vec![mint::MINT, mint::AUTHORITY, mint::HOLDING, mint::TOKEN_PROGRAM],
        signed.clone(),
    ));
    actions.push(invoke(
        spl_token_2022::instruction::set_authority(
            &key(&token),
            &key(&mint),
            None,
            AuthorityType::MintTokens,
            &key(&authority),
            &[&key(&authority)],
        )
        .unwrap(),
        vec![mint::MINT, mint::AUTHORITY, mint::TOKEN_PROGRAM],
        signed.clone(),
    ));
    actions.push(invoke(
        spl_token_2022::instruction::set_authority(
            &key(&token),
            &key(&mint),
            None,
            AuthorityType::FreezeAccount,
            &key(&authority),
            &[&key(&authority)],
        )
        .unwrap(),
        vec![mint::MINT, mint::AUTHORITY, mint::TOKEN_PROGRAM],
        signed,
    ));
    actions
}

fn expected_escrow(accounts: &[Account], args: &InitEscrowArgs, rent: u64) -> Vec<Action> {
    let (_, bump) = Pubkey::find_program_address(
        &[b"escrow", &args.payer.bytes, &args.recipient.bytes, &args.voucher_mint.bytes],
        &key(&program()),
    );
    let escrow = accounts[0].key;
    let funder = accounts[1].key;
    let system = accounts[6].key;
    vec![
        invoke(
            solana_program::system_instruction::create_account(
                &key(&funder),
                &key(&escrow),
                rent,
                113,
                &key(&program()),
            ),
            vec![escrow::ESCROW, escrow::PAYER, escrow::SYSTEM_PROGRAM],
            vec![vec![
                b"escrow".to_vec(),
                args.payer.bytes.to_vec(),
                args.recipient.bytes.to_vec(),
                args.voucher_mint.bytes.to_vec(),
                vec![bump],
            ]],
        ),
        Action::Store {
            account: escrow::ESCROW,
            bytes: borsh::to_vec(&(
                args.payer.bytes,
                args.recipient.bytes,
                args.amount,
                bump,
                args.voucher_mint.bytes,
            ))
            .unwrap(),
        },
        invoke(
            solana_program::system_instruction::transfer(
                &key(&args.payer),
                &key(&escrow),
                args.amount,
            ),
            vec![escrow::PAYER, escrow::ESCROW, escrow::SYSTEM_PROGRAM],
            Vec::new(),
        ),
    ]
}

#[test]
fn init_creates_the_authority_and_stores_its_bump() {
    let (authority, bump) = derive_authority(&program()).unwrap();
    let accounts = vec![
        Account::new(authority, 0, Vec::new()),
        Account::new(address(11), 5_000_000, Vec::new()),
        Account::new(system_program(), 1, Vec::new()),
    ];
    let actions = init(&program(), &accounts, 897_840).unwrap();
    let expected = vec![
        invoke(
            solana_program::system_instruction::create_account(
                &key(&address(11)),
                &key(&authority),
                897_840,
                1,
                &key(&program()),
            ),
            vec![init_authority::AUTHORITY, init_authority::PAYER, init_authority::SYSTEM_PROGRAM],
            vec![vec![b"mint_authority".to_vec(), vec![bump]]],
        ),
        Action::Store { account: init_authority::AUTHORITY, bytes: vec![bump] },
    ];
    assert_eq!(actions, expected);
}

#[test]
fn init_rejects_an_account_of_another_identity() {
    let accounts = vec![
        Account::new(address(13), 0, Vec::new()),
        Account::new(address(11), 5_000_000, Vec::new()),
        Account::new(system_program(), 1, Vec::new()),
    ];
    assert_eq!(
        init(&program(), &accounts, 1),
        Err(Failure::Rejected(GideonError::InvalidMintAuthority))
    );
}

#[test]
fn init_wants_three_accounts() {
    let (authority, _) = derive_authority(&program()).unwrap();
    let accounts =
        vec![Account::new(authority, 0, Vec::new()), Account::new(address(11), 5, Vec::new())];
    assert_eq!(init(&program(), &accounts, 1), Err(Failure::NotEnoughAccountKeys));
    assert_eq!(init(&program(), &[], 1), Err(Failure::NotEnoughAccountKeys));
}

#[test]
fn init_escrow_creates_fills_and_funds_the_record() {
    let accounts = issue_accounts(0);
    let args = escrow_args();
    let actions = init_escrow(&program(), &accounts, args, 1_677_360).unwrap();
    assert_eq!(actions, expected_escrow(&accounts, &args, 1_677_360));
    assert_eq!(actions.len(), 3);
}

#[test]
fn init_escrow_stores_the_record_with_the_derived_bump() {
    let accounts = issue_accounts(0);
    let args = escrow_args();
    let actions = init_escrow(&program(), &accounts, args, 7).unwrap();
    let (_, bump) = Pubkey::find_program_address(
        &[b"escrow", &[11u8; 32], &[21u8; 32], &[12u8; 32]],
        &key(&program()),
    );
    match &actions[1] {
        Action::Store { account, bytes } => {
            assert_eq!(*account, 0);
            assert_eq!(
                Escrow::unpack(bytes),
                Some(Escrow::new(address(11), address(21), 1000, bump, address(12)))
            );
        },
        other => panic!("unexpected action {:?}", other),
    }
}

#[test]
fn init_escrow_wants_nine_accounts() {
    let accounts = issue_accounts(0);
    assert_eq!(
        init_escrow(&program(), &accounts[..8], escrow_args(), 7),
        Err(Failure::NotEnoughAccountKeys)
    );
}

#[test]
fn mint_account_space_adds_the_metadata_space() {
    let space = mint_space();
    assert_eq!(space, 234);
    assert_eq!(voucher_mint_account_len(), Ok(space));
    assert_eq!(METADATA_SPACE, 1000);
    assert_eq!(CREATE_METADATA_SPACE, 250);
    assert_eq!(mint_account_space(METADATA_SPACE), Ok((space, space + 1000)));
    assert_eq!(mint_account_space(CREATE_METADATA_SPACE), Ok((space, space + 250)));
    assert_eq!(mint_account_space(0), Ok((space, space)));
    assert_eq!(mint_account_space(usize::MAX), Err(Failure::ArithmeticOverflow));
}

#[test]
fn mint_voucher_issues_into_a_new_holding_account() {
    let accounts = issue_accounts(0);
    let args = mint_args(1_700_000_001_500);
    let actions = mint_voucher(&program(), &accounts, args.clone(), 9_479_040).unwrap();
    assert_eq!(actions.len(), 10);
    assert_eq!(actions, expected_issue(&accounts, &args, 9_479_040));
}

#[test]
fn mint_voucher_issues_into_an_existing_holding_account() {
    let accounts = issue_accounts(2_039_280);
    let args = mint_args(1_700_000_001_500);
    let actions = mint_voucher(&program(), &accounts, args.clone(), 9_479_040).unwrap();
    assert_eq!(actions.len(), 9);
    assert_eq!(actions, expected_issue(&accounts, &args, 9_479_040));
}

#[test]
fn mint_voucher_binds_the_escrow_and_the_deadline_as_text() {
    let accounts = issue_accounts(0);
    let actions = mint_voucher(&program(), &accounts, mint_args(-1500), 1).unwrap();
    let mut written = Vec::new();
    for action in &actions[4..6] {
        match action {
            Action::Invoke(invocation) => {
                match TokenMetadataInstruction::unpack(&invocation.instruction.data).unwrap() {
                    TokenMetadataInstruction::UpdateField(update) => {
                        written.push((update.field, update.value))
                    },
                    other => panic!("unexpected instruction {:?}", other),
                }
            },
            other => panic!("unexpected action {:?}", other),
        }
    }
    assert_eq!(
        written,
        vec![
            (Field::Key("escrow".to_string()), key(&address(10)).to_string()),
            (Field::Key("expiry".to_string()), "-1500".to_string()),
        ]
    );
}

#[test]
fn mint_voucher_ends_by_clearing_both_rights() {
    let accounts = issue_accounts(0);
    let actions = mint_voucher(&program(), &accounts, mint_args(5), 1).unwrap();
    let expected = expected_issue(&accounts, &mint_args(5), 1);
    assert_eq!(actions[actions.len() - 2..], expected[expected.len() - 2..]);
    for action in &actions[actions.len() - 2..] {
        match action {
            Action::Invoke(invocation) => {
                assert_eq!(invocation.signers, authority_signers());
                assert_eq!(invocation.instruction.program_id, token_program());
            },
            other => panic!("unexpected action {:?}", other),
        }
    }
}

#[test]
fn mint_voucher_rejects_an_authority_of_another_identity() {
    let mut accounts = issue_accounts(0);
    let bump = accounts[3].data[0];
    accounts[3] = Account::new(address(13), 1, vec![bump]);
    assert_eq!(
        mint_voucher(&program(), &accounts, mint_args(5), 1),
        Err(Failure::Rejected(GideonError::InvalidMintAuthority))
    );
}

#[test]
fn mint_voucher_rejects_an_authority_of_another_bump() {
    let mut accounts = issue_accounts(0);
    accounts[3].data[0] = accounts[3].data[0].wrapping_sub(1);
    assert_eq!(
        mint_voucher(&program(), &accounts, mint_args(5), 1),
        Err(Failure::Rejected(GideonError::InvalidMintAuthority))
    );
    accounts[3].data = Vec::new();
    assert_eq!(
        mint_voucher(&program(), &accounts, mint_args(5), 1),
        Err(Failure::Rejected(GideonError::InvalidMintAuthority))
    );
}

#[test]
fn mint_voucher_under_another_program_rejects_this_authority() {
    let accounts = issue_accounts(0);
    assert_eq!(
        mint_voucher(&address(99), &accounts, mint_args(5), 1),
        Err(Failure::Rejected(GideonError::InvalidMintAuthority))
    );
}

#[test]
fn mint_voucher_wants_nine_accounts() {
    let accounts = issue_accounts(0);
    assert_eq!(
        mint_voucher(&program(), &accounts[..8], mint_args(5), 1),
        Err(Failure::NotEnoughAccountKeys)
    );
}

#[test]
fn mint_voucher_hands_on_the_refusal_of_a_builder() {
    let mut accounts = issue_accounts(0);
    accounts[7] = Account::new(address(77), 1, Vec::new());
    assert_eq!(
        mint_voucher(&program(), &accounts, mint_args(5), 1),
        Err(Failure::Program(ProgramError::IncorrectProgramId))
    );
}

#[test]
fn create_voucher_makes_four_unsigned_calls() {
    // mint, authority, payer, rent, system, token
    let accounts = vec![
        Account::new(address(12), 0, Vec::new()),
        Account::new(address(13), 1, Vec::new()),
        Account::new(address(11), 5_000_000, Vec::new()),
        Account::new(Address::new(solana_program::sysvar::rent::id().to_bytes()), 1, Vec::new()),
        Account::new(system_program(), 1, Vec::new()),
        Account::new(token_program(), 1, Vec::new()),
    ];
    let args = CreateVoucherArgs {
        voucher_title: "Gift".to_string(),
        voucher_description: "A gift".to_string(),
        voucher_symbol: "GFT".to_string(),
        voucher_uri: "https://example.com".to_string(),
    };
    let actions = create_voucher(&accounts, args.clone(), 4_259_040).unwrap();
    let (mint, authority, payer) = (address(12), address(13), address(11));
    let (rent, system, token) = (accounts[3].key, system_program(), token_program());
    let expected = vec![
        invoke(
            solana_program::system_instruction::create_account(
                &key(&payer),
                &key(&mint),
                4_259_040,
                mint_space() as u64,
                &key(&token),
            ),
            vec![create::MINT, create::PAYER, create::SYSTEM_PROGRAM, create::TOKEN_PROGRAM],
            Vec::new(),
        ),
        invoke(
            spl_token_2022::extension::metadata_pointer::instruction::initialize(
                &key(&token),
                &key(&mint),
                Some(key(&authority)),
                Some(key(&mint)),
            )
            .unwrap(),
            vec![create::MINT, create::AUTHORITY, create::TOKEN_PROGRAM],
            Vec::new(),
        ),
        invoke(
            spl_token_2022::instruction::initialize_mint(
                &key(&token),
                &key(&mint),
                &key(&authority),
                Some(&key(&authority)),
                0,
            )
            .unwrap(),
            vec![create::MINT, create::AUTHORITY, create::TOKEN_PROGRAM, create::RENT],
            Vec::new(),
        ),
        invoke(
            spl_token_metadata_interface::instruction::initialize(
                &key(&token),
                &key(&mint),
                &key(&authority),
                &key(&mint),
                &key(&authority),
                "Gift".to_string(),
                "GFT".to_string(),
                "https://example.com".to_string(),
            ),
            vec![create::MINT, create::AUTHORITY, create::TOKEN_PROGRAM, create::PAYER, create::SYSTEM_PROGRAM],
            Vec::new(),
        ),
    ];
    assert_eq!(actions, expected);
    assert_eq!(
        create_voucher(&accounts[..5], args.clone(), 1),
        Err(Failure::NotEnoughAccountKeys)
    );
    let mut other_program = accounts.clone();
    other_program[5] = Account::new(address(77), 1, Vec::new());
    assert_eq!(
        create_voucher(&other_program, args, 1),
        Err(Failure::Program(ProgramError::IncorrectProgramId))
    );
}

#[test]
fn create_voucher_hands_on_the_refusal_of_a_zero_authority() {
    let accounts = vec![
        Account::new(address(12), 0, Vec::new()),
        Account::new(Address::zero(), 1, Vec::new()),
        Account::new(address(11), 5_000_000, Vec::new()),
        Account::new(address(3), 1, Vec::new()),
        Account::new(system_program(), 1, Vec::new()),
        Account::new(token_program(), 1, Vec::new()),
    ];
    let args = CreateVoucherArgs {
        voucher_title: String::new(),
        voucher_description: String::new(),
        voucher_symbol: String::new(),
        voucher_uri: String::new(),
    };
    assert_eq!(
        create_voucher(&accounts, args, 1),
        Err(Failure::Program(ProgramError::InvalidArgument))
    );
}

#[test]
fn issuance_opens_the_escrow_and_then_issues_the_voucher() {
    let accounts = issue_accounts(0);
    let environment = Environment {
        now: 0,
        authority_rent: 1,
        escrow_rent: 1_677_360,
                mint_rent: 9_479_040,
    };
    let args = mint_args(1_700_000_001_500);
    let instruction = GideonInstruction::InitEscrowAndMintVoucher(escrow_args(), args.clone());
    let actions = process_instruction(&program(), &accounts, instruction, &environment).unwrap();
    let mut expected = expected_escrow(&accounts, &escrow_args(), 1_677_360);
    expected.extend(expected_issue(&accounts, &args, 9_479_040));
    assert_eq!(actions.len(), 13);
    assert_eq!(actions, expected);
}

#[test]
fn issuance_stops_at_the_first_failure() {
    let mut accounts = issue_accounts(0);
    accounts[3].data = vec![];
    let environment =
        Environment { now: 0, authority_rent: 1, escrow_rent: 1, mint_rent: 1 };
    let instruction = GideonInstruction::InitEscrowAndMintVoucher(escrow_args(), mint_args(5));
    assert_eq!(
        process_instruction(&program(), &accounts, instruction.clone(), &environment),
        Err(Failure::Rejected(GideonError::InvalidMintAuthority))
    );
    assert_eq!(
        process_instruction(&program(), &accounts[..3], instruction, &environment),
        Err(Failure::NotEnoughAccountKeys)
    );
}

#[test]
fn setting_up_the_authority_is_dispatched() {
    let (authority, _) = derive_authority(&program()).unwrap();
    let accounts = vec![
        Account::new(authority, 0, Vec::new()),
        Account::new(address(11), 5_000_000, Vec::new()),
        Account::new(system_program(), 1, Vec::new()),
    ];
    let environment =
        Environment { now: 0, authority_rent: 897_840, escrow_rent: 1, mint_rent: 1 };
    assert_eq!(
        process_instruction(
            &program(),
            &accounts,
            GideonInstruction::InitMintAuthority,
            &environment
        ),
        init(&program(), &accounts, 897_840)
    );
}
