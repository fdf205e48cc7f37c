//! Resolution of the auxiliary accounts a programmable transfer needs, out of
//! an unordered pool of candidate account references. Every expected address
//! is derived from the fixed seed formulas; the pool is scanned for an exact
//! key match, first match wins. Resolution never fails by itself: a field
//! whose account is absent stays empty, and the executor decides later
//! whether that is fatal.

use vstd::prelude::*;

use crate::accounts::{find_account, spec_find_first, AccountRef};
use crate::classifier::{classify, spec_classify, spec_rule_set, TokenClassification};
use crate::keys::{Key, AUTH_RULES_PROGRAM_ID, METADATA_PROGRAM_ID, SYSVAR_INSTRUCTIONS_ID};
use crate::pda::{
    derive_edition_address, derive_metadata_address, derive_token_record_address,
    edition_address, metadata_address, token_record_address,
};

verus! {

/// The resolved account set of one transfer. For a programmable asset every
/// field but `auth_rules` must be filled before invocation; for a standard
/// asset only `metadata` is ever filled. `classification` records what the
/// resolved metadata account said.
pub struct MetaplexProgrammableTransferExtraAccounts {
    pub metadata: Option<Key>,
    pub edition: Option<Key>,
    pub token_record_source: Option<Key>,
    pub token_record_target: Option<Key>,
    pub sysvar_instructions: Option<Key>,
    pub auth_rules_program: Option<Key>,
    pub auth_rules: Option<Key>,
    pub mpl_token_program: Option<Key>,
    pub classification: TokenClassification,
}

/// The mathematical shadow of a resolved bundle: each field as the address it
/// holds, if any.
#[verifier::ext_equal]
pub ghost struct SpecBundle {
    pub metadata: Option<Seq<u8>>,
    pub edition: Option<Seq<u8>>,
    pub token_record_source: Option<Seq<u8>>,
    pub token_record_target: Option<Seq<u8>>,
    pub sysvar_instructions: Option<Seq<u8>>,
    pub auth_rules_program: Option<Seq<u8>>,
    pub auth_rules: Option<Seq<u8>>,
    pub mpl_token_program: Option<Seq<u8>>,
    pub classification: TokenClassification,
}

/// An optional address, as bytes.
pub open spec fn opt_key_view(o: Option<Key>) -> Option<Seq<u8>> {
    match o {
        Some(k) => Some(k@),
        None => None,
    }
}

impl View for MetaplexProgrammableTransferExtraAccounts {
    type V = SpecBundle;

    open spec fn view(&self) -> SpecBundle {
        SpecBundle {
            metadata: opt_key_view(self.metadata),
            edition: opt_key_view(self.edition),
            token_record_source: opt_key_view(self.token_record_source),
            token_record_target: opt_key_view(self.token_record_target),
            sysvar_instructions: opt_key_view(self.sysvar_instructions),
            auth_rules_program: opt_key_view(self.auth_rules_program),
            auth_rules: opt_key_view(self.auth_rules),
            mpl_token_program: opt_key_view(self.mpl_token_program),
            classification: self.classification,
        }
    }
}

/// What one field of the bundle resolves to: the expected address itself when
/// some pool account carries it, nothing when the address is unknown or no
/// pool account matches.
pub open spec fn pool_entry(pool: Seq<AccountRef>, addr: Option<Seq<u8>>) -> Option<Seq<u8>> {
    match addr {
        Some(a) => if spec_find_first(pool, a) is Some {
            Some(a)
        } else {
            None
        },
        None => None,
    }
}

/// The data of the pool account found at the mint's metadata address, if any.
pub open spec fn resolved_metadata_data(pool: Seq<AccountRef>, mint: Seq<u8>) -> Option<Seq<u8>> {
    match metadata_address(mint) {
        Some(a) => match spec_find_first(pool, a) {
            Some(i) => Some(pool[i].data@),
            None => None,
        },
        None => None,
    }
}

/// The classification the resolver reads: that of the resolved metadata
/// account, or standard when no metadata account was matched.
pub open spec fn resolved_classification(
    pool: Seq<AccountRef>,
    mint: Seq<u8>,
) -> TokenClassification {
    match resolved_metadata_data(pool, mint) {
        Some(d) => spec_classify(d),
        None => TokenClassification::Standard,
    }
}

/// The whole resolution, field by field: metadata by derived address; when the
/// resolved metadata marks the asset programmable, also the edition, both
/// token records, the three well-known accounts, and — only when a rule set
/// is configured — the authorization-rules account at that rule set's
/// address. Otherwise every programmable-only field stays empty.
pub open spec fn spec_resolve(
    pool: Seq<AccountRef>,
    mint: Seq<u8>,
    source_token_account: Seq<u8>,
    target_token_account: Seq<u8>,
) -> SpecBundle {
    let md = pool_entry(pool, metadata_address(mint));
    let cls = resolved_classification(pool, mint);
    if cls == TokenClassification::Programmable {
        let data = resolved_metadata_data(pool, mint)->0;
        SpecBundle {
            metadata: md,
            edition: pool_entry(pool, edition_address(mint)),
            token_record_source: pool_entry(pool, token_record_address(mint, source_token_account)),
            token_record_target: pool_entry(pool, token_record_address(mint, target_token_account)),
            sysvar_instructions: pool_entry(pool, Some(SYSVAR_INSTRUCTIONS_ID@)),
            auth_rules_program: pool_entry(pool, Some(AUTH_RULES_PROGRAM_ID@)),
            auth_rules: pool_entry(pool, opt_key_view(spec_rule_set(data))),
            mpl_token_program: pool_entry(pool, Some(METADATA_PROGRAM_ID@)),
            classification: TokenClassification::Programmable,
        }
    } else {
        SpecBundle {
            metadata: md,
            edition: None,
            token_record_source: None,
            token_record_target: None,
            sysvar_instructions: None,
            auth_rules_program: None,
            auth_rules: None,
            mpl_token_program: None,
            classification: cls,
        }
    }
}

/// Law: derivation and resolution round-trip. For every pool and mint, when
/// the mint's metadata address derives, resolution fills the metadata field
/// exactly when some candidate carries that address — and likewise, for a
/// pool resolved as programmable, the edition and both token-record fields
/// each track the presence of their derived address in the pool. A field is
/// never filled with anything but its derived address.
pub proof fn resolver_round_trip(
    pool: Seq<AccountRef>,
    mint: Seq<u8>,
    source_token_account: Seq<u8>,
    target_token_account: Seq<u8>,
)
    ensures
        metadata_address(mint) matches Some(a) ==> (
            spec_resolve(pool, mint, source_token_account, target_token_account).metadata
                == Some(a) <==> exists|i: int| 0 <= i < pool.len() && pool[i].key@ == a
        ),
        metadata_address(mint) matches Some(a) ==> (
            spec_resolve(pool, mint, source_token_account, target_token_account).metadata is None
                <==> forall|i: int| 0 <= i < pool.len() ==> pool[i].key@ != a
        ),
        metadata_address(mint) is None ==> spec_resolve(
            pool, mint, source_token_account, target_token_account,
        ).metadata is None,
        spec_resolve(pool, mint, source_token_account, target_token_account).classification
            == TokenClassification::Programmable ==> {
            let r = spec_resolve(pool, mint, source_token_account, target_token_account);
            &&& (edition_address(mint) matches Some(a) ==> (
                r.edition == Some(a) <==> exists|i: int| 0 <= i < pool.len() && pool[i].key@ == a
            ))
            &&& (token_record_address(mint, source_token_account) matches Some(a) ==> (
                r.token_record_source == Some(a) <==> exists|i: int|
                    0 <= i < pool.len() && pool[i].key@ == a
            ))
            &&& (token_record_address(mint, target_token_account) matches Some(a) ==> (
                r.token_record_target == Some(a) <==> exists|i: int|
                    0 <= i < pool.len() && pool[i].key@ == a
            ))
        },
{
    match metadata_address(mint) {
        Some(a) => crate::accounts::lemma_find_first_exists(pool, a),
        None => (),
    }
    match edition_address(mint) {
        Some(a) => crate::accounts::lemma_find_first_exists(pool, a),
        None => (),
    }
    match token_record_address(mint, source_token_account) {
        Some(a) => crate::accounts::lemma_find_first_exists(pool, a),
        None => (),
    }
    match token_record_address(mint, target_token_account) {
        Some(a) => crate::accounts::lemma_find_first_exists(pool, a),
        None => (),
    }
}

/// Scans the pool for a known expected address and keeps it when found.
fn resolve_at(pool: &Vec<AccountRef>, addr: Option<Key>) -> (r: Option<Key>)
    ensures
        opt_key_view(r) == pool_entry(pool@, opt_key_view(addr)),
{
    match addr {
        Some(a) => match find_account(pool, &a) {
            Some(_) => Some(a),
            None => None,
        },
        None => None,
    }
}

impl MetaplexProgrammableTransferExtraAccounts {
    /// Resolves the bundle for one transfer out of the candidate pool.
    pub fn new(
        remaining_accounts: &Vec<AccountRef>,
        mint: &Key,
        token_account_source: &Key,
        token_account_target: &Key,
    ) -> (r: Self)
        ensures
            r@ == spec_resolve(
                remaining_accounts@,
                mint@,
                token_account_source@,
                token_account_target@,
            ),
    {
        let pool = remaining_accounts;
        let empty = Self {
            metadata: None,
            edition: None,
            token_record_source: None,
            token_record_target: None,
            sysvar_instructions: None,
            auth_rules_program: None,
            auth_rules: None,
            mpl_token_program: None,
            classification: TokenClassification::Standard,
        };
        let maddr = match derive_metadata_address(mint) {
            Some(a) => a,
            None => {
                proof {
                    assert(empty@ =~~= spec_resolve(
                        pool@, mint@, token_account_source@, token_account_target@,
                    ));
                }
                return empty;
            }
        };
        let midx = match find_account(pool, &maddr) {
            Some(i) => i,
            None => {
                proof {
                    assert(empty@ =~~= spec_resolve(
                        pool@, mint@, token_account_source@, token_account_target@,
                    ));
                }
                return empty;
            }
        };
        let profile = classify(&pool[midx].data);
        if profile.classification == TokenClassification::Programmable {
            let edition = resolve_at(pool, derive_edition_address(mint));
            let token_record_source =
                resolve_at(pool, derive_token_record_address(mint, token_account_source));
            let token_record_target =
                resolve_at(pool, derive_token_record_address(mint, token_account_target));
            let sysvar_instructions = resolve_at(pool, Some(SYSVAR_INSTRUCTIONS_ID));
            let auth_rules_program = resolve_at(pool, Some(AUTH_RULES_PROGRAM_ID));
            let auth_rules = resolve_at(pool, profile.rule_set);
            let mpl_token_program = resolve_at(pool, Some(METADATA_PROGRAM_ID));
            let r = Self {
                metadata: Some(maddr),
                edition,
                token_record_source,
                token_record_target,
                sysvar_instructions,
                auth_rules_program,
                auth_rules,
                mpl_token_program,
                classification: TokenClassification::Programmable,
            };
            proof {
                assert(r@ =~~= spec_resolve(
                    pool@, mint@, token_account_source@, token_account_target@,
                ));
            }
            r
        } else {
            let r = Self {
                metadata: Some(maddr),
                edition: None,
                token_record_source: None,
                token_record_target: None,
                sysvar_instructions: None,
                auth_rules_program: None,
                auth_rules: None,
                mpl_token_program: None,
                classification: profile.classification,
            };
            proof {
                assert(r@ =~~= spec_resolve(
                    pool@, mint@, token_account_source@, token_account_target@,
                ));
            }
            r
        }
    }
}

} // verus!
