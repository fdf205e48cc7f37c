//! End-to-end router scenarios: creation plus plain transfer, programmable
//! transfers with and without a rule set, the multi-unit refusal, the
//! destination-address gate, and the executors' exact payloads.

use borsh::BorshSerialize;

use mpl_token_metadata::accounts::Metadata;
use mpl_token_metadata::types::{Key as MetaKey, ProgrammableConfig, TokenStandard};
use solana_program::instruction::AccountMeta;
use solana_program::pubkey::Pubkey;

use transfer_router::accounts::AccountRef;
use transfer_router::errors::{RequiredAccount, SharedError};
use transfer_router::keys::{Key, AUTH_RULES_PROGRAM_ID, METADATA_PROGRAM_ID, SYSVAR_INSTRUCTIONS_ID, TOKEN_PROGRAM_ID};
use transfer_router::pda::{
    derive_associated_token_account, derive_edition_address, derive_metadata_address,
    derive_token_record_address,
};
use transfer_router::provisioner::provision_destination;
use transfer_router::router::{transfer_any_asset, transfer_generic_spl, AuthoritySeeds, TransferCall};
use transfer_router::standard::{standard_instruction, transfer_non_pnft};

fn metadata_bytes(token_standard: Option<TokenStandard>, rule_set: Option<Key>) -> Vec<u8> {
    let record = Metadata {
        key: MetaKey::MetadataV1,
        update_authority: Pubkey::new_unique(),
        mint: Pubkey::new_unique(),
        name: "asset".to_string(),
        symbol: "AST".to_string(),
        uri: "https://example.invalid/asset".to_string(),
        seller_fee_basis_points: 0,
        creators: None,
        primary_sale_happened: false,
        is_mutable: true,
        edition_nonce: None,
        token_standard,
        collection: None,
        uses: None,
        collection_details: None,
        programmable_config: rule_set.map(|rs| ProgrammableConfig::V1 {
            rule_set: Some(Pubkey::new_from_array(rs)),
        }),
    };
    record.try_to_vec().unwrap()
}

fn account(key: Key, data: Vec<u8>) -> AccountRef {
    AccountRef { key, is_signer: false, is_writable: false, data }
}

fn k(n: u8) -> Key {
    [n; 32]
}

#[test]
fn scenario_standard_uninitialized_destination() {
    // Standard token, amount 5, decimals 0, no authority seeds, destination
    // uninitialized: one creation call, then one checked transfer of 5.
    let wallet = k(9);
    let mint = k(8);
    let token_program = TOKEN_PROGRAM_ID;
    let target_key = derive_associated_token_account(&wallet, &mint, &token_program).unwrap();
    let target = AccountRef { key: target_key, is_signer: false, is_writable: true, data: vec![] };
    let extra = account(k(40), vec![1]);
    let pool = vec![extra];

    let op = transfer_generic_spl(
        &token_program, &k(3), &target, &k(4), &mint, &wallet, &k(10), &k(11), None, &k(12),
        0, 5, &pool,
    )
    .unwrap();

    let creation = op.creation.expect("destination must be created");
    assert_eq!(creation.payer, k(12));
    assert_eq!(creation.new_account, target_key);
    assert_eq!(creation.owning_wallet, wallet);
    assert_eq!(creation.mint, mint);
    assert_eq!(creation.system_program, k(11));
    assert_eq!(creation.token_program, token_program);
    match op.transfer {
        TransferCall::Standard(s) => {
            assert_eq!(s.amount, 5);
            assert_eq!(s.decimals, 0);
            assert_eq!(s.source_token_account, k(3));
            assert_eq!(s.target_token_account, target_key);
            assert_eq!(s.authority, k(4));
            assert_eq!(s.trailing_accounts, vec![k(40)]);
        }
        TransferCall::Programmable(_) => panic!("expected a standard transfer"),
    }
    assert!(op.authority_seeds.is_none());
}

#[test]
fn scenario_initialized_destination_skips_creation() {
    let wallet = k(9);
    let mint = k(8);
    let token_program = TOKEN_PROGRAM_ID;
    let target_key = derive_associated_token_account(&wallet, &mint, &token_program).unwrap();
    let target = AccountRef { key: target_key, is_signer: false, is_writable: true, data: vec![7] };

    let op = transfer_generic_spl(
        &token_program, &k(3), &target, &k(4), &mint, &wallet, &k(10), &k(11), None, &k(12),
        2, 1, &vec![],
    )
    .unwrap();
    assert!(op.creation.is_none());
}

#[test]
fn scenario_programmable_with_rule_set() {
    // Programmable asset with a configured rule set, amount 1: all seventeen
    // fields present, authorization rules included.
    let rule_set = k(21);
    let meta = AccountRef {
        key: k(20),
        is_signer: false,
        is_writable: false,
        data: metadata_bytes(Some(TokenStandard::ProgrammableNonFungible), Some(rule_set)),
    };
    let target = AccountRef { key: k(5), is_signer: false, is_writable: true, data: vec![1] };
    let op = transfer_any_asset(
        &k(1), &k(2), &target, &k(4), &k(6), &k(7), &k(8), &k(9), &meta, &k(10), &k(11),
        &k(12), &k(13), &k(14), Some(rule_set), None, &k(15), &k(16), 0, 1,
    )
    .unwrap();
    match op.transfer {
        TransferCall::Programmable(p) => {
            assert_eq!(p.amount, 1);
            assert_eq!(p.authority, k(4), "authority must be the source wallet");
            assert_eq!(p.auth_rules_program, Some(k(14)));
            assert_eq!(p.auth_rules, Some(rule_set));
            let keys = p.account_keys();
            assert_eq!(keys.len(), 17);
            assert_eq!(keys[0], k(2)); // token
            assert_eq!(keys[1], k(4)); // token owner
            assert_eq!(keys[2], k(5)); // destination token
            assert_eq!(keys[3], k(10)); // destination owner
            assert_eq!(keys[4], k(9)); // mint
            assert_eq!(keys[5], k(20)); // metadata
            assert_eq!(keys[6], k(6)); // edition
            assert_eq!(keys[7], k(7)); // token record, source
            assert_eq!(keys[8], k(8)); // token record, target
            assert_eq!(keys[9], k(4)); // authority: the source wallet again
            assert_eq!(keys[10], k(15)); // payer
            assert_eq!(keys[11], k(12)); // system program
            assert_eq!(keys[12], k(13)); // sysvar instructions
            assert_eq!(keys[13], k(1)); // token program
            assert_eq!(keys[14], k(11)); // associated token program
            assert_eq!(keys[15], k(14)); // authorization rules program
            assert_eq!(keys[16], rule_set); // authorization rules
        }
        TransferCall::Standard(_) => panic!("expected a programmable transfer"),
    }
}

#[test]
fn scenario_programmable_without_rule_set_omits_both_fields() {
    // Programmable asset with no rule set, amount 1: authorization-rules and
    // authorization-rules-program both omitted, not null-filled.
    let meta = AccountRef {
        key: k(20),
        is_signer: false,
        is_writable: false,
        data: metadata_bytes(Some(TokenStandard::ProgrammableNonFungible), None),
    };
    let target = AccountRef { key: k(5), is_signer: false, is_writable: true, data: vec![1] };
    let op = transfer_any_asset(
        &k(1), &k(2), &target, &k(4), &k(6), &k(7), &k(8), &k(9), &meta, &k(10), &k(11),
        &k(12), &k(13), &k(14), None, None, &k(15), &k(16), 0, 1,
    )
    .unwrap();
    match op.transfer {
        TransferCall::Programmable(p) => {
            assert!(p.auth_rules_program.is_none());
            assert!(p.auth_rules.is_none());
            let keys = p.account_keys();
            assert_eq!(keys.len(), 15);
            assert_eq!(keys[14], k(11));
        }
        TransferCall::Standard(_) => panic!("expected a programmable transfer"),
    }
}

#[test]
fn scenario_multi_unit_programmable_fails() {
    // Programmable asset, amount 2: refused with the multi-unit error and
    // nothing decided, before any call.
    let meta = AccountRef {
        key: k(20),
        is_signer: false,
        is_writable: false,
        data: metadata_bytes(Some(TokenStandard::ProgrammableNonFungible), Some(k(21))),
    };
    let target = AccountRef { key: k(5), is_signer: false, is_writable: true, data: vec![] };
    let r = transfer_any_asset(
        &k(1), &k(2), &target, &k(4), &k(6), &k(7), &k(8), &k(9), &meta, &k(10), &k(11),
        &k(12), &k(13), &k(14), Some(k(21)), None, &k(15), &k(16), 0, 2,
    );
    assert!(matches!(r, Err(SharedError::CannotTransferMultiplePnfts)));
}

#[test]
fn standard_asset_moves_any_amount() {
    let meta = AccountRef { key: k(20), is_signer: false, is_writable: false, data: vec![] };
    let target = AccountRef { key: k(5), is_signer: false, is_writable: true, data: vec![1] };
    let op = transfer_any_asset(
        &k(1), &k(2), &target, &k(4), &k(6), &k(7), &k(8), &k(9), &meta, &k(10), &k(11),
        &k(12), &k(13), &k(14), None, None, &k(15), &k(16), 3, 250,
    )
    .unwrap();
    match op.transfer {
        TransferCall::Standard(s) => {
            assert_eq!(s.amount, 250);
            assert_eq!(s.decimals, 3);
            assert!(s.trailing_accounts.is_empty());
        }
        TransferCall::Programmable(_) => panic!("expected a standard transfer"),
    }
}

#[test]
fn wrong_destination_address_is_refused_first() {
    let wallet = k(9);
    let mint = k(8);
    let target = AccountRef { key: k(33), is_signer: false, is_writable: true, data: vec![] };
    let r = transfer_generic_spl(
        &TOKEN_PROGRAM_ID, &k(3), &target, &k(4), &mint, &wallet, &k(10), &k(11), None, &k(12),
        0, 1, &vec![],
    );
    assert!(matches!(r, Err(SharedError::InvalidTokenAccount)));
}

#[test]
fn missing_edition_is_a_typed_error() {
    let wallet = k(9);
    let mint = k(8);
    let source_token = k(3);
    let token_program = TOKEN_PROGRAM_ID;
    let target_key = derive_associated_token_account(&wallet, &mint, &token_program).unwrap();
    let target = AccountRef { key: target_key, is_signer: false, is_writable: true, data: vec![1] };
    let metadata_addr = derive_metadata_address(&mint).unwrap();
    let pool = vec![account(
        metadata_addr,
        metadata_bytes(Some(TokenStandard::ProgrammableNonFungible), None),
    )];
    let r = transfer_generic_spl(
        &token_program, &source_token, &target, &k(4), &mint, &wallet, &k(10), &k(11), None,
        &k(12), 0, 1, &pool,
    );
    assert!(matches!(
        r,
        Err(SharedError::MissingRequiredAccount(RequiredAccount::Edition))
    ));
}

#[test]
fn pool_path_resolves_and_routes_programmable() {
    let wallet = k(9);
    let mint = k(8);
    let source_token = k(3);
    let rule_set = k(21);
    let token_program = TOKEN_PROGRAM_ID;
    let target_key = derive_associated_token_account(&wallet, &mint, &token_program).unwrap();
    let target = AccountRef { key: target_key, is_signer: false, is_writable: true, data: vec![1] };

    let metadata_addr = derive_metadata_address(&mint).unwrap();
    let edition_addr = derive_edition_address(&mint).unwrap();
    let record_src = derive_token_record_address(&mint, &source_token).unwrap();
    let record_tgt = derive_token_record_address(&mint, &target_key).unwrap();
    let pool = vec![
        account(metadata_addr, metadata_bytes(
            Some(TokenStandard::ProgrammableNonFungible),
            Some(rule_set),
        )),
        account(edition_addr, vec![1]),
        account(record_src, vec![1]),
        account(record_tgt, vec![1]),
        account(SYSVAR_INSTRUCTIONS_ID, vec![]),
        account(AUTH_RULES_PROGRAM_ID, vec![]),
        account(METADATA_PROGRAM_ID, vec![]),
        account(rule_set, vec![1]),
    ];
    let op = transfer_generic_spl(
        &token_program, &source_token, &target, &k(4), &mint, &wallet, &k(10), &k(11), None,
        &k(12), 0, 1, &pool,
    )
    .unwrap();
    match op.transfer {
        TransferCall::Programmable(p) => {
            assert_eq!(p.amount, 1);
            assert_eq!(p.metadata, metadata_addr);
            assert_eq!(p.edition, edition_addr);
            assert_eq!(p.token_record_source, record_src);
            assert_eq!(p.token_record_target, record_tgt);
            assert_eq!(p.authority, k(4));
            assert_eq!(p.auth_rules, Some(rule_set));
            assert_eq!(p.auth_rules_program, Some(AUTH_RULES_PROGRAM_ID));
            assert_eq!(p.account_keys().len(), 17);
        }
        TransferCall::Standard(_) => panic!("expected a programmable transfer"),
    }
}

#[test]
fn pool_path_programmable_amount_is_implicitly_one() {
    let wallet = k(9);
    let mint = k(8);
    let source_token = k(3);
    let token_program = TOKEN_PROGRAM_ID;
    let target_key = derive_associated_token_account(&wallet, &mint, &token_program).unwrap();
    let target = AccountRef { key: target_key, is_signer: false, is_writable: true, data: vec![1] };
    let pool = vec![
        account(
            derive_metadata_address(&mint).unwrap(),
            metadata_bytes(Some(TokenStandard::ProgrammableNonFungible), None),
        ),
        account(derive_edition_address(&mint).unwrap(), vec![1]),
        account(derive_token_record_address(&mint, &source_token).unwrap(), vec![1]),
        account(derive_token_record_address(&mint, &target_key).unwrap(), vec![1]),
        account(SYSVAR_INSTRUCTIONS_ID, vec![]),
        account(AUTH_RULES_PROGRAM_ID, vec![]),
        account(METADATA_PROGRAM_ID, vec![]),
    ];
    // multi-unit amounts are not representable on the programmable pool path
    let op = transfer_generic_spl(
        &token_program, &source_token, &target, &k(4), &mint, &wallet, &k(10), &k(11), None,
        &k(12), 0, 5, &pool,
    )
    .unwrap();
    match op.transfer {
        TransferCall::Programmable(p) => assert_eq!(p.amount, 1),
        TransferCall::Standard(_) => panic!("expected a programmable transfer"),
    }
}

#[test]
fn standard_pool_path_appends_only_unconsumed_accounts() {
    let wallet = k(9);
    let mint = k(8);
    let token_program = TOKEN_PROGRAM_ID;
    let target_key = derive_associated_token_account(&wallet, &mint, &token_program).unwrap();
    let target = AccountRef { key: target_key, is_signer: false, is_writable: true, data: vec![1] };
    let metadata_addr = derive_metadata_address(&mint).unwrap();
    let pool = vec![
        account(k(41), vec![1]),
        account(metadata_addr, metadata_bytes(Some(TokenStandard::Fungible), None)),
        account(k(42), vec![1]),
    ];
    let op = transfer_generic_spl(
        &token_program, &k(3), &target, &k(4), &mint, &wallet, &k(10), &k(11), None, &k(12),
        0, 2, &pool,
    )
    .unwrap();
    match op.transfer {
        TransferCall::Standard(s) => {
            // the consumed metadata account is not re-appended
            assert_eq!(s.trailing_accounts, vec![k(41), k(42)]);
        }
        TransferCall::Programmable(_) => panic!("expected a standard transfer"),
    }
}

#[test]
fn provisioner_issues_at_most_one_creation() {
    let uninitialized = AccountRef { key: k(5), is_signer: false, is_writable: true, data: vec![] };
    let first = provision_destination(&uninitialized, &k(9), &k(8), &k(12), &k(11), &k(1));
    assert!(first.is_some());
    // after a successful creation the account is no longer empty
    let initialized = AccountRef { key: k(5), is_signer: false, is_writable: true, data: vec![0; 165] };
    let second = provision_destination(&initialized, &k(9), &k(8), &k(12), &k(11), &k(1));
    assert!(second.is_none());
}

#[test]
fn authority_seeds_are_carried_through() {
    let meta = AccountRef { key: k(20), is_signer: false, is_writable: false, data: vec![] };
    let target = AccountRef { key: k(5), is_signer: false, is_writable: true, data: vec![1] };
    let seeds = AuthoritySeeds { seeds: vec![vec![vec![1, 2], vec![3]]] };
    let op = transfer_any_asset(
        &k(1), &k(2), &target, &k(4), &k(6), &k(7), &k(8), &k(9), &meta, &k(10), &k(11),
        &k(12), &k(13), &k(14), None, Some(seeds), &k(15), &k(16), 0, 1,
    )
    .unwrap();
    assert_eq!(op.authority_seeds.unwrap().seeds, vec![vec![vec![1, 2], vec![3]]]);
}

#[test]
fn standard_account_list_is_ordered_and_flagged() {
    let call = transfer_non_pnft(&k(1), &k(2), &k(3), &k(4), &k(5), 0, 7, vec![k(6), k(7)]);
    let list = call.account_list();
    assert_eq!(list.len(), 6);
    assert_eq!(list[0].key, k(2));
    assert!(list[0].is_writable && !list[0].is_signer);
    assert_eq!(list[1].key, k(5));
    assert!(!list[1].is_writable && !list[1].is_signer);
    assert_eq!(list[2].key, k(3));
    assert!(list[2].is_writable && !list[2].is_signer);
    assert_eq!(list[3].key, k(4));
    assert!(!list[3].is_writable && list[3].is_signer);
    assert_eq!(list[4].key, k(6));
    assert!(!list[4].is_writable && !list[4].is_signer);
    assert_eq!(list[5].key, k(7));
    assert!(!list[5].is_writable && !list[5].is_signer);
}

#[test]
fn standard_instruction_matches_token_protocol_encoder() {
    let token_program = spl_token_2022::ID.to_bytes();
    let call = transfer_non_pnft(&token_program, &k(2), &k(3), &k(4), &k(5), 2, 7, vec![k(6)]);
    let ix = standard_instruction(&call).expect("a token-program id must encode");
    let mut expected = spl_token_2022::instruction::transfer_checked(
        &spl_token_2022::ID,
        &Pubkey::new_from_array(k(2)),
        &Pubkey::new_from_array(k(5)),
        &Pubkey::new_from_array(k(3)),
        &Pubkey::new_from_array(k(4)),
        &[],
        7,
        2,
    )
    .unwrap();
    expected.accounts.push(AccountMeta::new_readonly(Pubkey::new_from_array(k(6)), false));
    assert_eq!(ix.program_id, expected.program_id);
    assert_eq!(ix.accounts, expected.accounts);
    assert_eq!(ix.data, expected.data);
}

#[test]
fn standard_instruction_refuses_unknown_token_program() {
    let call = transfer_non_pnft(&k(1), &k(2), &k(3), &k(4), &k(5), 2, 7, vec![]);
    assert!(standard_instruction(&call).is_none());
}
