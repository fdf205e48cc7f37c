//! Classification of a mint from its metadata account. Zero-length data is a
//! standard asset; otherwise the metadata record is parsed and the asset is
//! programmable exactly when its token-standard tag carries the
//! rule-constrained non-fungible value. A record that does not parse is
//! treated as standard: classification itself never fails.

use vstd::prelude::*;

use mpl_token_metadata::accounts::Metadata;
use mpl_token_metadata::types::ProgrammableConfig;

use crate::keys::Key;

verus! {

/// How a mint's asset moves: by the plain token protocol or by the
/// rule-constrained (programmable) one.
#[derive(Clone, Copy, Debug, PartialEq, Eq, Structural)]
pub enum TokenClassification {
    Standard,
    Programmable,
}

/// What classification reads out of a parsed metadata record: the
/// token-standard tag, if the record carries one, and the configured rule-set
/// address, if the asset has one.
#[derive(Clone, Copy, Debug, PartialEq, Eq)]
pub struct MetadataSummary {
    pub token_standard: Option<u8>,
    pub rule_set: Option<Key>,
}

/// The token-standard tag that marks a rule-constrained non-fungible asset.
pub const PROGRAMMABLE_NON_FUNGIBLE_TAG: u8 = 4;

/// What the metadata protocol's parser makes of `data`: `None` when the bytes
/// are not a metadata record, else the fields classification reads. The
/// result is a function of the bytes alone.
pub uninterp spec fn parse_meta(data: Seq<u8>) -> Option<MetadataSummary>;

/// Relies on mpl_token_metadata's `Metadata::safe_deserialize`: the result is
/// a function of the bytes alone; the token-standard tag is the enum's
/// declaration-order discriminant and the rule set is the address of the
/// metadata record's version-one programmable config, when either is present.
#[verifier::external_body]
fn parse_metadata(data: &Vec<u8>) -> (r: Option<MetadataSummary>)
    ensures
        r == parse_meta(data@),
{
    match Metadata::safe_deserialize(data.as_slice()) {
        Ok(record) => {
            let rule_set = match record.programmable_config {
                Some(ProgrammableConfig::V1 { rule_set }) => rule_set.map(|k| k.to_bytes()),
                None => None,
            };
            Some(MetadataSummary {
                token_standard: record.token_standard.map(|t| t as u8),
                rule_set,
            })
        }
        Err(_) => None,
    }
}

/// The classification of a mint whose metadata account holds `data`.
pub open spec fn spec_classify(data: Seq<u8>) -> TokenClassification {
    if data.len() == 0 {
        TokenClassification::Standard
    } else {
        match parse_meta(data) {
            Some(summary) => if summary.token_standard == Some(PROGRAMMABLE_NON_FUNGIBLE_TAG) {
                TokenClassification::Programmable
            } else {
                TokenClassification::Standard
            },
            None => TokenClassification::Standard,
        }
    }
}

/// The rule-set address configured in `data`, if any.
pub open spec fn spec_rule_set(data: Seq<u8>) -> Option<Key> {
    if data.len() == 0 {
        None
    } else {
        match parse_meta(data) {
            Some(summary) => summary.rule_set,
            None => None,
        }
    }
}

/// What classification and rule resolution learn from one metadata account.
pub struct AssetProfile {
    pub classification: TokenClassification,
    pub rule_set: Option<Key>,
}

/// Classifies a mint from the raw bytes of its metadata account and reads the
/// configured rule set, if one is there. Zero-length data is always standard;
/// data that does not parse is standard as well, never an error.
pub fn classify(data: &Vec<u8>) -> (r: AssetProfile)
    ensures
        r.classification == spec_classify(data@),
        r.rule_set == spec_rule_set(data@),
        data@.len() == 0 ==> r.classification == TokenClassification::Standard,
        data@.len() > 0 ==> (parse_meta(data@) matches Some(summary) ==> (
            r.classification == TokenClassification::Programmable
                <==> summary.token_standard == Some(PROGRAMMABLE_NON_FUNGIBLE_TAG)
        )),
{
    if data.len() == 0 {
        return AssetProfile { classification: TokenClassification::Standard, rule_set: None };
    }
    match parse_metadata(data) {
        Some(summary) => {
            let programmable = match summary.token_standard {
                Some(tag) => tag == PROGRAMMABLE_NON_FUNGIBLE_TAG,
                None => false,
            };
            if programmable {
                AssetProfile {
                    classification: TokenClassification::Programmable,
                    rule_set: summary.rule_set,
                }
            } else {
                AssetProfile {
                    classification: TokenClassification::Standard,
                    rule_set: summary.rule_set,
                }
            }
        }
        None => AssetProfile { classification: TokenClassification::Standard, rule_set: None },
    }
}

} // verus!
