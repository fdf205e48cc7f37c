//! The plain transfer executor. A standard asset moves by one checked
//! transfer of the token protocol: (amount, decimals) over the ordered
//! accounts [source, mint, target, authority], with any trailing accounts
//! appended as non-signer, non-writable metadata. The call payload the token
//! protocol's own encoder builds is produced behind a trusted wrapper; the
//! ordered account list itself is assembled and proved here.

use vstd::prelude::*;

use solana_program::instruction::{AccountMeta, Instruction};
use solana_program::pubkey::Pubkey;

use crate::accounts::AccountSlot;
use crate::keys::{Key, TOKEN_2022_PROGRAM_ID, TOKEN_PROGRAM_ID};

verus! {

/// Declares solana_program's `Instruction` so a real, ready-to-issue
/// instruction can cross the library's boundary; its inside stays opaque
/// here.
#[verifier::external_type_specification]
#[verifier::external_body]
pub struct ExInstruction(Instruction);

/// One plain checked transfer, fully decided: the ordered base accounts, the
/// trailing read-only accounts, and the operation parameters.
pub struct StandardTransferCall {
    pub token_program: Key,
    pub source_token_account: Key,
    pub mint: Key,
    pub target_token_account: Key,
    /// Always the source wallet: the signature the token protocol checks.
    pub authority: Key,
    pub trailing_accounts: Vec<Key>,
    pub amount: u64,
    pub decimals: u8,
}

/// Builds the plain transfer call. Every field of the result is pinned to the
/// corresponding input; the authority is the source wallet.
pub fn transfer_non_pnft(
    token_program: &Key,
    source_token_account: &Key,
    target_token_account: &Key,
    source_wallet: &Key,
    mint: &Key,
    decimals: u8,
    amount: u64,
    trailing_accounts: Vec<Key>,
) -> (r: StandardTransferCall)
    ensures
        r.token_program == *token_program,
        r.source_token_account == *source_token_account,
        r.mint == *mint,
        r.target_token_account == *target_token_account,
        r.authority == *source_wallet,
        r.trailing_accounts == trailing_accounts,
        r.amount == amount,
        r.decimals == decimals,
{
    StandardTransferCall {
        token_program: *token_program,
        source_token_account: *source_token_account,
        mint: *mint,
        target_token_account: *target_token_account,
        authority: *source_wallet,
        trailing_accounts,
        amount,
        decimals,
    }
}

impl StandardTransferCall {
    /// The ordered account list of the checked transfer: source (writable),
    /// mint, target (writable), authority (signer), then every trailing
    /// account as non-signer, non-writable metadata.
    pub fn account_list(&self) -> (r: Vec<AccountSlot>)
        ensures
            r@.len() == 4 + self.trailing_accounts@.len(),
            r@[0].key == self.source_token_account && r@[0].is_writable && !r@[0].is_signer,
            r@[1].key == self.mint && !r@[1].is_writable && !r@[1].is_signer,
            r@[2].key == self.target_token_account && r@[2].is_writable && !r@[2].is_signer,
            r@[3].key == self.authority && !r@[3].is_writable && r@[3].is_signer,
            forall|s: int| 4 <= s < r@.len() ==> #[trigger] r@[s] == (AccountSlot {
                key: self.trailing_accounts@[s - 4],
                is_signer: false,
                is_writable: false,
            }),
    {
        let mut r: Vec<AccountSlot> = Vec::new();
        r.push(AccountSlot { key: self.source_token_account, is_signer: false, is_writable: true });
        r.push(AccountSlot { key: self.mint, is_signer: false, is_writable: false });
        r.push(AccountSlot { key: self.target_token_account, is_signer: false, is_writable: true });
        r.push(AccountSlot { key: self.authority, is_signer: true, is_writable: false });
        let n = self.trailing_accounts.len();
        let mut i: usize = 0;
        while i < n
            invariant
                n == self.trailing_accounts@.len(),
                i <= n,
                r@.len() == 4 + i,
                r@[0].key == self.source_token_account && r@[0].is_writable && !r@[0].is_signer,
                r@[1].key == self.mint && !r@[1].is_writable && !r@[1].is_signer,
                r@[2].key == self.target_token_account && r@[2].is_writable && !r@[2].is_signer,
                r@[3].key == self.authority && !r@[3].is_writable && r@[3].is_signer,
                forall|s: int| 4 <= s < r@.len() ==> #[trigger] r@[s] == (AccountSlot {
                    key: self.trailing_accounts@[s - 4],
                    is_signer: false,
                    is_writable: false,
                }),
            decreases n - i,
        {
            r.push(AccountSlot {
                key: self.trailing_accounts[i],
                is_signer: false,
                is_writable: false,
            });
            i = i + 1;
        }
        r
    }
}

/// What the token protocol's encoder returns for one checked transfer over
/// these arguments: a function of the arguments alone.
pub uninterp spec fn transfer_checked_ix(
    token_program: Key,
    source: Key,
    mint: Key,
    target: Key,
    authority: Key,
    amount: u64,
    decimals: u8,
) -> Instruction;

/// `ix` with one more account appended to its account list as non-signer,
/// non-writable metadata: a function of the two arguments alone.
pub uninterp spec fn with_readonly(ix: Instruction, key: Key) -> Instruction;

/// `ix` with every key of `keys` appended as non-signer, non-writable
/// metadata, in order.
pub open spec fn with_readonly_all(ix: Instruction, keys: Seq<Key>) -> Instruction
    decreases keys.len(),
{
    if keys.len() == 0 {
        ix
    } else {
        with_readonly_all(with_readonly(ix, keys[0]), keys.drop_first())
    }
}

/// Appending the keys and then one more is appending one more at the end.
proof fn lemma_with_readonly_all_push(ix: Instruction, keys: Seq<Key>, key: Key)
    ensures
        with_readonly_all(ix, keys.push(key)) == with_readonly(with_readonly_all(ix, keys), key),
    decreases keys.len(),
{
    reveal_with_fuel(with_readonly_all, 3);
    if keys.len() == 0 {
        assert(keys.push(key)[0] == key);
        assert(keys.push(key).drop_first().len() == 0);
        assert(with_readonly_all(ix, keys.push(key)) == with_readonly_all(
            with_readonly(ix, key),
            keys.push(key).drop_first(),
        ));
    } else {
        assert(keys.push(key)[0] == keys[0]);
        assert(keys.push(key).drop_first() =~= keys.drop_first().push(key));
        assert(with_readonly_all(ix, keys.push(key)) == with_readonly_all(
            with_readonly(ix, keys[0]),
            keys.drop_first().push(key),
        ));
        lemma_with_readonly_all_push(with_readonly(ix, keys[0]), keys.drop_first(), key);
        assert(with_readonly_all(ix, keys) == with_readonly_all(
            with_readonly(ix, keys[0]),
            keys.drop_first(),
        ));
    }
}

/// Relies on spl_token_2022's `instruction::transfer_checked`: it returns an
/// instruction exactly when the token program is one of the two token program
/// ids, fails with its incorrect-program-id error otherwise, and what it
/// returns is the encoding of exactly these arguments, named
/// `transfer_checked_ix`.
#[verifier::external_body]
fn encode_transfer_checked(
    token_program: &Key,
    source: &Key,
    mint: &Key,
    target: &Key,
    authority: &Key,
    amount: u64,
    decimals: u8,
) -> (r: Option<Instruction>)
    ensures
        r is Some <==> (token_program@ == TOKEN_PROGRAM_ID@ || token_program@
            == TOKEN_2022_PROGRAM_ID@),
        r matches Some(ix) ==> ix == transfer_checked_ix(
            *token_program,
            *source,
            *mint,
            *target,
            *authority,
            amount,
            decimals,
        ),
{
    spl_token_2022::instruction::transfer_checked(
        &Pubkey::new_from_array(*token_program),
        &Pubkey::new_from_array(*source),
        &Pubkey::new_from_array(*mint),
        &Pubkey::new_from_array(*target),
        &Pubkey::new_from_array(*authority),
        &[],
        amount,
        decimals,
    )
    .ok()
}

/// Relies on solana_program's `AccountMeta::new_readonly` and `Vec::push`:
/// appends one non-signer, non-writable account to the instruction's list —
/// the step named `with_readonly`, a function of the old value and the key.
#[verifier::external_body]
fn push_readonly_account(ix: &mut Instruction, key: &Key)
    ensures
        *final(ix) == with_readonly(*old(ix), *key),
{
    ix.accounts.push(AccountMeta::new_readonly(Pubkey::new_from_array(*key), false));
}

/// Encodes the decided call as one real instruction of the token protocol:
/// the encoder's result for exactly the call's accounts, amount and
/// decimals, with the call's trailing accounts appended in order; `None`
/// exactly when the token program is neither of the two token program ids.
pub fn standard_instruction(call: &StandardTransferCall) -> (r: Option<Instruction>)
    ensures
        r is Some <==> (call.token_program@ == TOKEN_PROGRAM_ID@ || call.token_program@
            == TOKEN_2022_PROGRAM_ID@),
        r matches Some(ix) ==> ix == with_readonly_all(
            transfer_checked_ix(
                call.token_program,
                call.source_token_account,
                call.mint,
                call.target_token_account,
                call.authority,
                call.amount,
                call.decimals,
            ),
            call.trailing_accounts@,
        ),
{
    match encode_transfer_checked(
        &call.token_program,
        &call.source_token_account,
        &call.mint,
        &call.target_token_account,
        &call.authority,
        call.amount,
        call.decimals,
    ) {
        Some(ix) => {
            let mut ix = ix;
            let n = call.trailing_accounts.len();
            let mut i: usize = 0;
            while i < n
                invariant
                    n == call.trailing_accounts@.len(),
                    i <= n,
                    ix == with_readonly_all(
                        transfer_checked_ix(
                            call.token_program,
                            call.source_token_account,
                            call.mint,
                            call.target_token_account,
                            call.authority,
                            call.amount,
                            call.decimals,
                        ),
                        call.trailing_accounts@.take(i as int),
                    ),
                decreases n - i,
            {
                push_readonly_account(&mut ix, &call.trailing_accounts[i]);
                proof {
                    lemma_with_readonly_all_push(
                        transfer_checked_ix(
                            call.token_program,
                            call.source_token_account,
                            call.mint,
                            call.target_token_account,
                            call.authority,
                            call.amount,
                            call.decimals,
                        ),
                        call.trailing_accounts@.take(i as int),
                        call.trailing_accounts@[i as int],
                    );
                    assert(call.trailing_accounts@.take(i + 1) =~= call.trailing_accounts@.take(
                        i as int,
                    ).push(call.trailing_accounts@[i as int]));
                }
                i = i + 1;
            }
            proof {
                assert(call.trailing_accounts@.take(n as int) =~= call.trailing_accounts@);
            }
            Some(ix)
        }
        None => None,
    }
}

} // verus!
