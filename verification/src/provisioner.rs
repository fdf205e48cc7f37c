//! Destination-account provisioning. A destination token account with
//! zero-length data does not exist yet and must be created — funded by the
//! payer, owned by the target wallet, scoped to the mint and token program —
//! before the transfer is invoked. The decision turns on the data length
//! alone, so a second pass over an account the first pass created finds it
//! non-empty and issues nothing: provisioning is idempotent by construction.

use vstd::prelude::*;

use crate::accounts::AccountRef;
use crate::keys::Key;

verus! {

/// One account-creation call, ready to issue:
/// (payer, new account, owning wallet, mint, system program, token program).
pub struct CreateDestinationCall {
    pub payer: Key,
    pub new_account: Key,
    pub owning_wallet: Key,
    pub mint: Key,
    pub system_program: Key,
    pub token_program: Key,
}

/// An account with zero-length data is uninitialized and must be created.
pub open spec fn needs_creation(dest_data: Seq<u8>) -> bool {
    dest_data.len() == 0
}

/// Decides whether the destination token account must be created, and with
/// which creation call. `Some` exactly when the account's data is empty.
pub fn provision_destination(
    target_token_account: &AccountRef,
    target_wallet: &Key,
    mint: &Key,
    payer: &Key,
    system_program: &Key,
    token_program: &Key,
) -> (r: Option<CreateDestinationCall>)
    ensures
        r is Some <==> needs_creation(target_token_account.data@),
        r matches Some(c) ==> c.payer == *payer && c.new_account == target_token_account.key
            && c.owning_wallet == *target_wallet && c.mint == *mint
            && c.system_program == *system_program && c.token_program == *token_program,
{
    if target_token_account.data.len() == 0 {
        Some(CreateDestinationCall {
            payer: *payer,
            new_account: target_token_account.key,
            owning_wallet: *target_wallet,
            mint: *mint,
            system_program: *system_program,
            token_program: *token_program,
        })
    } else {
        None
    }
}

/// Law: provisioning twice in sequence never issues two creation calls.
/// `before_first` is the destination as the first pass sees it and
/// `before_second` as the second pass sees it; a creation that succeeded
/// leaves the account non-empty, and a pass that created nothing leaves it
/// untouched. Under exactly those premises at most one of the two passes
/// issues a creation call.
pub proof fn provisioner_idempotent(before_first: AccountRef, before_second: AccountRef)
    requires
        needs_creation(before_first.data@) ==> before_second.data@.len() > 0,
        !needs_creation(before_first.data@) ==> before_second.data@ == before_first.data@,
    ensures
        !(needs_creation(before_first.data@) && needs_creation(before_second.data@)),
{
}

} // verus!
