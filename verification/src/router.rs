//! The transfer router's two entry points. The explicit entry takes every
//! account by name and a unit amount; the pool entry takes a loose candidate
//! pool, decimals and amount. Both classify the asset, decide whether the
//! destination account must be created, and assemble exactly one transfer
//! call — nothing is issued here, and every locally detectable fault is
//! returned before the caller issues anything.

use vstd::prelude::*;

use crate::accounts::{find_account, spec_find_first, AccountRef};
use crate::classifier::{classify, spec_classify, TokenClassification};
use crate::errors::SharedError;
use crate::keys::{key_eq, Key};
use crate::pda::{derive_associated_token_account, derive_metadata_address, expected_token_account, metadata_address};
use crate::programmable::{
    lemma_first_missing_view, spec_bundle_first_missing, transfer_pnft, ProgrammableTransferCall,
};
use crate::provisioner::{needs_creation, provision_destination, CreateDestinationCall};
use crate::resolver::{spec_resolve, MetaplexProgrammableTransferExtraAccounts};
use crate::standard::{transfer_non_pnft, StandardTransferCall};

verus! {

/// Optional signing material of a program-owned authority. `None` means the
/// transaction's own signer authorizes the transfer; `Some` means the call
/// must be signed on behalf of a program-derived address with these seeds.
pub struct AuthoritySeeds {
    pub seeds: Vec<Vec<Vec<u8>>>,
}

/// The one transfer call an operation issues.
pub enum TransferCall {
    Standard(StandardTransferCall),
    Programmable(ProgrammableTransferCall),
}

/// Everything one router invocation decides: an optional creation call to
/// issue first, the transfer call to issue after it, and how to sign.
pub struct TransferOperation {
    pub creation: Option<CreateDestinationCall>,
    pub transfer: TransferCall,
    pub authority_seeds: Option<AuthoritySeeds>,
}

/// The addresses of a candidate pool, in pool order.
pub open spec fn pool_keys(pool: Seq<AccountRef>) -> Seq<Key> {
    pool.map_values(|a: AccountRef| a.key)
}

/// The pool addresses resolution did not consume: all of them, except the
/// account matched as the mint's metadata account, if one was.
pub open spec fn unconsumed_keys(pool: Seq<AccountRef>, mint: Seq<u8>) -> Seq<Key> {
    match metadata_address(mint) {
        Some(a) => match spec_find_first(pool, a) {
            Some(i) => pool_keys(pool).remove(i),
            None => pool_keys(pool),
        },
        None => pool_keys(pool),
    }
}

/// Collects the pool addresses not consumed by resolution, in pool order.
fn unconsumed_pool_keys(pool: &Vec<AccountRef>, mint: &Key) -> (r: Vec<Key>)
    ensures
        r@ == unconsumed_keys(pool@, mint@),
{
    let consumed: Option<usize> = match derive_metadata_address(mint) {
        Some(a) => find_account(pool, &a),
        None => None,
    };
    let n = pool.len();
    let mut keys: Vec<Key> = Vec::new();
    let mut i: usize = 0;
    while i < n
        invariant
            n == pool@.len(),
            i <= n,
            keys@.len() == i,
            forall|j: int| 0 <= j < i ==> keys@[j] == pool@[j].key,
        decreases n - i,
    {
        keys.push(pool[i].key);
        i = i + 1;
    }
    proof {
        assert(keys@ =~= pool_keys(pool@));
    }
    match consumed {
        Some(s) => {
            keys.remove(s);
            keys
        }
        None => keys,
    }
}

/// The explicit-accounts entry: every account is supplied by name. The asset
/// is classified from the supplied metadata account; a programmable asset
/// asked to move more than one unit is refused before anything else — that
/// is the only error this entry can return. Otherwise the operation carries
/// the creation call exactly when the destination is uninitialized, and the
/// transfer call of the matching executor, every field pinned to its input.
pub fn transfer_any_asset(
    token_program: &Key,
    source_token_account: &Key,
    target_token_account: &AccountRef,
    source_wallet: &Key,
    edition: &Key,
    source_token_record: &Key,
    target_token_record: &Key,
    mint: &Key,
    metadata: &AccountRef,
    target_wallet: &Key,
    associated_token_program: &Key,
    system_program: &Key,
    sysvar_instructions: &Key,
    auth_rules_program: &Key,
    auth_rules: Option<Key>,
    authority_seeds: Option<AuthoritySeeds>,
    payer: &Key,
    mpl_token_program: &Key,
    decimals: u8,
    amount: u64,
) -> (r: Result<TransferOperation, SharedError>)
    ensures
        r is Err <==> (spec_classify(metadata.data@) == TokenClassification::Programmable
            && amount > 1),
        r matches Err(e) ==> e == SharedError::CannotTransferMultiplePnfts,
        r matches Ok(op) ==> {
            &&& op.authority_seeds == authority_seeds
            &&& (op.creation is Some <==> needs_creation(target_token_account.data@))
            &&& (op.creation matches Some(c) ==> c == (CreateDestinationCall {
                payer: *payer,
                new_account: target_token_account.key,
                owning_wallet: *target_wallet,
                mint: *mint,
                system_program: *system_program,
                token_program: *token_program,
            }))
            &&& (spec_classify(metadata.data@) == TokenClassification::Programmable ==> (
                op.transfer matches TransferCall::Programmable(p) && p == (ProgrammableTransferCall {
                    token: *source_token_account,
                    token_owner: *source_wallet,
                    destination_token: target_token_account.key,
                    destination_owner: *target_wallet,
                    mint: *mint,
                    metadata: metadata.key,
                    edition: *edition,
                    token_record_source: *source_token_record,
                    token_record_target: *target_token_record,
                    authority: *source_wallet,
                    payer: *payer,
                    system_program: *system_program,
                    sysvar_instructions: *sysvar_instructions,
                    token_program: *token_program,
                    associated_token_program: *associated_token_program,
                    auth_rules_program: if auth_rules is Some {
                        Some(*auth_rules_program)
                    } else {
                        None
                    },
                    auth_rules: auth_rules,
                    amount: 1u64,
                })
            ))
            &&& (spec_classify(metadata.data@) == TokenClassification::Standard ==> (
                op.transfer matches TransferCall::Standard(s) && {
                    &&& s.token_program == *token_program
                    &&& s.source_token_account == *source_token_account
                    &&& s.mint == *mint
                    &&& s.target_token_account == target_token_account.key
                    &&& s.authority == *source_wallet
                    &&& s.amount == amount
                    &&& s.decimals == decimals
                    &&& s.trailing_accounts@.len() == 0
                }
            ))
        },
{
    let profile = classify(&metadata.data);
    let programmable = profile.classification == TokenClassification::Programmable;
    if programmable && amount > 1 {
        return Err(SharedError::CannotTransferMultiplePnfts);
    }
    let creation = provision_destination(
        target_token_account,
        target_wallet,
        mint,
        payer,
        system_program,
        token_program,
    );
    let transfer = if programmable {
        let bundle = MetaplexProgrammableTransferExtraAccounts {
            metadata: Some(metadata.key),
            edition: Some(*edition),
            token_record_source: Some(*source_token_record),
            token_record_target: Some(*target_token_record),
            sysvar_instructions: Some(*sysvar_instructions),
            auth_rules_program: Some(*auth_rules_program),
            auth_rules,
            mpl_token_program: Some(*mpl_token_program),
            classification: TokenClassification::Programmable,
        };
        match transfer_pnft(
            token_program,
            source_token_account,
            &target_token_account.key,
            source_wallet,
            mint,
            target_wallet,
            associated_token_program,
            system_program,
            payer,
            &bundle,
        ) {
            Ok(p) => TransferCall::Programmable(p),
            Err(e) => {
                // every mandatory bundle field was supplied above
                proof {
                    assert(false);
                }
                return Err(e);
            }
        }
    } else {
        TransferCall::Standard(transfer_non_pnft(
            token_program,
            source_token_account,
            &target_token_account.key,
            source_wallet,
            mint,
            decimals,
            amount,
            Vec::new(),
        ))
    };
    Ok(TransferOperation { creation, transfer, authority_seeds })
}

/// The pool entry: a loose candidate pool stands in for the named auxiliary
/// accounts. The destination must be exactly the associated token account of
/// (target wallet, mint, token program) — anything else is refused before
/// anything is decided. The bundle is then resolved from the pool; a
/// programmable asset moves by the programmable executor with an implicit
/// unit amount, anything else by a plain checked transfer that carries the
/// given amount and decimals and appends the unconsumed pool accounts as
/// read-only metadata.
pub fn transfer_generic_spl(
    token_program: &Key,
    source_token_account: &Key,
    target_token_account: &AccountRef,
    source_wallet: &Key,
    mint: &Key,
    target_wallet: &Key,
    associated_token_program: &Key,
    system_program: &Key,
    authority_seeds: Option<AuthoritySeeds>,
    payer: &Key,
    decimals: u8,
    amount: u64,
    remaining_accounts: &Vec<AccountRef>,
) -> (r: Result<TransferOperation, SharedError>)
    ensures
        !(expected_token_account(target_wallet@, mint@, token_program@) matches Some(a)
            && a == target_token_account.key@) <==> r == Err::<TransferOperation, SharedError>(
            SharedError::InvalidTokenAccount,
        ),
        (expected_token_account(target_wallet@, mint@, token_program@) matches Some(a)
            && a == target_token_account.key@) ==> {
            let sb = spec_resolve(
                remaining_accounts@,
                mint@,
                source_token_account@,
                target_token_account.key@,
            );
            &&& (sb.classification == TokenClassification::Programmable
                ==> match spec_bundle_first_missing(sb) {
                Some(missing) => r == Err::<TransferOperation, SharedError>(
                    SharedError::MissingRequiredAccount(missing),
                ),
                None => r matches Ok(op) && op.transfer matches TransferCall::Programmable(p) && {
                    &&& p.token == *source_token_account
                    &&& p.token_owner == *source_wallet
                    &&& p.destination_token == target_token_account.key
                    &&& p.destination_owner == *target_wallet
                    &&& sb.metadata == Some(p.metadata@)
                    &&& sb.edition == Some(p.edition@)
                    &&& sb.token_record_source == Some(p.token_record_source@)
                    &&& sb.token_record_target == Some(p.token_record_target@)
                    &&& sb.sysvar_instructions == Some(p.sysvar_instructions@)
                    &&& p.mint == *mint
                    &&& p.authority == *source_wallet
                    &&& p.payer == *payer
                    &&& p.system_program == *system_program
                    &&& p.token_program == *token_program
                    &&& p.associated_token_program == *associated_token_program
                    &&& (match p.auth_rules {
                        Some(k) => sb.auth_rules == Some(k@),
                        None => sb.auth_rules is None,
                    })
                    &&& (match p.auth_rules_program {
                        Some(k) => sb.auth_rules is Some && sb.auth_rules_program == Some(k@),
                        None => sb.auth_rules is None,
                    })
                    &&& p.amount == 1
                },
            })
            &&& (sb.classification != TokenClassification::Programmable ==> (
                r matches Ok(op) && op.transfer matches TransferCall::Standard(s) && {
                    &&& s.token_program == *token_program
                    &&& s.source_token_account == *source_token_account
                    &&& s.mint == *mint
                    &&& s.target_token_account == target_token_account.key
                    &&& s.authority == *source_wallet
                    &&& s.amount == amount
                    &&& s.decimals == decimals
                    &&& s.trailing_accounts@ == unconsumed_keys(remaining_accounts@, mint@)
                }
            ))
        },
        r matches Ok(op) ==> {
            &&& op.authority_seeds == authority_seeds
            &&& (op.creation is Some <==> needs_creation(target_token_account.data@))
            &&& (op.creation matches Some(c) ==> c == (CreateDestinationCall {
                payer: *payer,
                new_account: target_token_account.key,
                owning_wallet: *target_wallet,
                mint: *mint,
                system_program: *system_program,
                token_program: *token_program,
            }))
        },
{
    let address_ok = match derive_associated_token_account(target_wallet, mint, token_program) {
        Some(expected) => key_eq(&expected, &target_token_account.key),
        None => false,
    };
    if !address_ok {
        return Err(SharedError::InvalidTokenAccount);
    }
    let creation = provision_destination(
        target_token_account,
        target_wallet,
        mint,
        payer,
        system_program,
        token_program,
    );
    let bundle = MetaplexProgrammableTransferExtraAccounts::new(
        remaining_accounts,
        mint,
        source_token_account,
        &target_token_account.key,
    );
    if bundle.classification == TokenClassification::Programmable {
        proof {
            lemma_first_missing_view(bundle);
        }
        match transfer_pnft(
            token_program,
            source_token_account,
            &target_token_account.key,
            source_wallet,
            mint,
            target_wallet,
            associated_token_program,
            system_program,
            payer,
            &bundle,
        ) {
            Ok(p) => Ok(TransferOperation {
                creation,
                transfer: TransferCall::Programmable(p),
                authority_seeds,
            }),
            Err(e) => Err(e),
        }
    } else {
        let trailing = unconsumed_pool_keys(remaining_accounts, mint);
        let s = transfer_non_pnft(
            token_program,
            source_token_account,
            &target_token_account.key,
            source_wallet,
            mint,
            decimals,
            amount,
            trailing,
        );
        Ok(TransferOperation { creation, transfer: TransferCall::Standard(s), authority_seeds })
    }
}

} // verus!
