//! The rule-constrained transfer executor. A programmable asset moves by one
//! structured instruction of the metadata protocol, with seventeen logical
//! fields in a fixed order, each present or explicitly omitted, and an
//! account list that mirrors that order. The authority is always the source
//! wallet — the external protocol's signature check turns on that field. A
//! missing mandatory account is a typed, recoverable error, raised before
//! any call is issued.

use vstd::prelude::*;

use crate::errors::{RequiredAccount, SharedError};
use crate::keys::Key;
use crate::resolver::{MetaplexProgrammableTransferExtraAccounts, SpecBundle};

verus! {

/// One programmable transfer, fully decided: the seventeen logical fields of
/// the external protocol's transfer instruction, in order. The two
/// authorization-rules fields are either both present (the asset has a rule
/// set) or both omitted — never a placeholder.
pub struct ProgrammableTransferCall {
    pub token: Key,
    pub token_owner: Key,
    pub destination_token: Key,
    pub destination_owner: Key,
    pub mint: Key,
    pub metadata: Key,
    pub edition: Key,
    pub token_record_source: Key,
    pub token_record_target: Key,
    /// Always the source wallet: the signature the external protocol checks.
    pub authority: Key,
    pub payer: Key,
    pub system_program: Key,
    pub sysvar_instructions: Key,
    pub token_program: Key,
    pub associated_token_program: Key,
    pub auth_rules_program: Option<Key>,
    pub auth_rules: Option<Key>,
    /// Fixed at one: multi-unit programmable transfers do not exist.
    pub amount: u64,
}

/// The first mandatory account absent from a resolved bundle, in the fixed
/// check order, if any. The authorization-rules account is not mandatory.
pub open spec fn bundle_first_missing(
    b: MetaplexProgrammableTransferExtraAccounts,
) -> Option<RequiredAccount> {
    if b.metadata is None {
        Some(RequiredAccount::Metadata)
    } else if b.edition is None {
        Some(RequiredAccount::Edition)
    } else if b.token_record_source is None {
        Some(RequiredAccount::TokenRecordSource)
    } else if b.token_record_target is None {
        Some(RequiredAccount::TokenRecordTarget)
    } else if b.sysvar_instructions is None {
        Some(RequiredAccount::SysvarInstructions)
    } else if b.auth_rules_program is None {
        Some(RequiredAccount::AuthRulesProgram)
    } else if b.mpl_token_program is None {
        Some(RequiredAccount::MplTokenProgram)
    } else {
        None
    }
}

/// `bundle_first_missing`, stated of the bundle's mathematical shadow.
pub open spec fn spec_bundle_first_missing(b: SpecBundle) -> Option<RequiredAccount> {
    if b.metadata is None {
        Some(RequiredAccount::Metadata)
    } else if b.edition is None {
        Some(RequiredAccount::Edition)
    } else if b.token_record_source is None {
        Some(RequiredAccount::TokenRecordSource)
    } else if b.token_record_target is None {
        Some(RequiredAccount::TokenRecordTarget)
    } else if b.sysvar_instructions is None {
        Some(RequiredAccount::SysvarInstructions)
    } else if b.auth_rules_program is None {
        Some(RequiredAccount::AuthRulesProgram)
    } else if b.mpl_token_program is None {
        Some(RequiredAccount::MplTokenProgram)
    } else {
        None
    }
}

/// A bundle and its shadow agree on what is missing.
pub proof fn lemma_first_missing_view(b: MetaplexProgrammableTransferExtraAccounts)
    ensures
        bundle_first_missing(b) == spec_bundle_first_missing(b@),
{
}

/// Builds the programmable transfer call from a resolved bundle. Fails with
/// the first missing mandatory account, before anything is issued; otherwise
/// every field of the result is pinned: the base accounts to the inputs, the
/// auxiliary ones to the bundle, the authority to the source wallet, the
/// amount to one, and the two authorization-rules fields both present
/// exactly when the bundle carries a rule-set account.
pub fn transfer_pnft(
    token_program: &Key,
    source_token_account: &Key,
    target_token_account: &Key,
    source_wallet: &Key,
    mint: &Key,
    target_wallet: &Key,
    associated_token_program: &Key,
    system_program: &Key,
    payer: &Key,
    extra_accounts: &MetaplexProgrammableTransferExtraAccounts,
) -> (r: Result<ProgrammableTransferCall, SharedError>)
    ensures
        match bundle_first_missing(*extra_accounts) {
            Some(missing) => r == Err::<ProgrammableTransferCall, SharedError>(
                SharedError::MissingRequiredAccount(missing),
            ),
            None => r matches Ok(p) && {
                &&& p.token == *source_token_account
                &&& p.token_owner == *source_wallet
                &&& p.destination_token == *target_token_account
                &&& p.destination_owner == *target_wallet
                &&& p.mint == *mint
                &&& Some(p.metadata) == extra_accounts.metadata
                &&& Some(p.edition) == extra_accounts.edition
                &&& Some(p.token_record_source) == extra_accounts.token_record_source
                &&& Some(p.token_record_target) == extra_accounts.token_record_target
                &&& p.authority == *source_wallet
                &&& p.payer == *payer
                &&& p.system_program == *system_program
                &&& Some(p.sysvar_instructions) == extra_accounts.sysvar_instructions
                &&& p.token_program == *token_program
                &&& p.associated_token_program == *associated_token_program
                &&& p.auth_rules == extra_accounts.auth_rules
                &&& p.auth_rules_program == (if extra_accounts.auth_rules is Some {
                    extra_accounts.auth_rules_program
                } else {
                    None::<Key>
                })
                &&& p.amount == 1
            },
        },
{
    let metadata = match extra_accounts.metadata {
        Some(k) => k,
        None => {
            return Err(SharedError::MissingRequiredAccount(RequiredAccount::Metadata));
        }
    };
    let edition = match extra_accounts.edition {
        Some(k) => k,
        None => {
            return Err(SharedError::MissingRequiredAccount(RequiredAccount::Edition));
        }
    };
    let token_record_source = match extra_accounts.token_record_source {
        Some(k) => k,
        None => {
            return Err(SharedError::MissingRequiredAccount(RequiredAccount::TokenRecordSource));
        }
    };
    let token_record_target = match extra_accounts.token_record_target {
        Some(k) => k,
        None => {
            return Err(SharedError::MissingRequiredAccount(RequiredAccount::TokenRecordTarget));
        }
    };
    let sysvar_instructions = match extra_accounts.sysvar_instructions {
        Some(k) => k,
        None => {
            return Err(SharedError::MissingRequiredAccount(RequiredAccount::SysvarInstructions));
        }
    };
    let auth_rules_program = match extra_accounts.auth_rules_program {
        Some(k) => k,
        None => {
            return Err(SharedError::MissingRequiredAccount(RequiredAccount::AuthRulesProgram));
        }
    };
    match extra_accounts.mpl_token_program {
        Some(_) => {}
        None => {
            return Err(SharedError::MissingRequiredAccount(RequiredAccount::MplTokenProgram));
        }
    }
    let auth_rules = extra_accounts.auth_rules;
    let auth_rules_program = match auth_rules {
        Some(_) => Some(auth_rules_program),
        None => None,
    };
    Ok(ProgrammableTransferCall {
        token: *source_token_account,
        token_owner: *source_wallet,
        destination_token: *target_token_account,
        destination_owner: *target_wallet,
        mint: *mint,
        metadata,
        edition,
        token_record_source,
        token_record_target,
        authority: *source_wallet,
        payer: *payer,
        system_program: *system_program,
        sysvar_instructions,
        token_program: *token_program,
        associated_token_program: *associated_token_program,
        auth_rules_program,
        auth_rules,
        amount: 1,
    })
}

/// The ordered account list of one programmable transfer: the fifteen base
/// fields in instruction order, then the authorization-rules program and the
/// authorization-rules account, each only when present.
pub open spec fn programmable_account_order(p: ProgrammableTransferCall) -> Seq<Key> {
    let base = seq![
        p.token,
        p.token_owner,
        p.destination_token,
        p.destination_owner,
        p.mint,
        p.metadata,
        p.edition,
        p.token_record_source,
        p.token_record_target,
        p.authority,
        p.payer,
        p.system_program,
        p.sysvar_instructions,
        p.token_program,
        p.associated_token_program,
    ];
    let with_program = match p.auth_rules_program {
        Some(k) => base.push(k),
        None => base,
    };
    match p.auth_rules {
        Some(k) => with_program.push(k),
        None => with_program,
    }
}

impl ProgrammableTransferCall {
    /// The addresses to hand to the cross-program call, in exactly the order
    /// of the instruction's fields, the optional rule-set account last.
    pub fn account_keys(&self) -> (r: Vec<Key>)
        ensures
            r@ == programmable_account_order(*self),
    {
        let mut r: Vec<Key> = Vec::new();
        r.push(self.token);
        r.push(self.token_owner);
        r.push(self.destination_token);
        r.push(self.destination_owner);
        r.push(self.mint);
        r.push(self.metadata);
        r.push(self.edition);
        r.push(self.token_record_source);
        r.push(self.token_record_target);
        r.push(self.authority);
        r.push(self.payer);
        r.push(self.system_program);
        r.push(self.sysvar_instructions);
        r.push(self.token_program);
        r.push(self.associated_token_program);
        match self.auth_rules_program {
            Some(k) => r.push(k),
            None => {}
        }
        match self.auth_rules {
            Some(k) => r.push(k),
            None => {}
        }
        proof {
            assert(r@ =~= programmable_account_order(*self));
        }
        r
    }
}

} // verus!
