//! The boundary to the external chain services.
//!
//! Two collaborators are consumed: an authenticity check ("is this payment
//! instrument an authentic bridged asset approved for trading") and a
//! native-denomination lookup. Both are fallible; the host shell performs
//! the wire calls and hands the decoded answers to the functions here, which
//! make every decision that depends on them.

use vstd::prelude::*;

use crate::msg::{ApprovedTokenJson, ApprovedTokensForTradeJson, TestBridgeValidationResponse};

verus! {

/// Wire request of the authenticity check: the bare contract address.
#[derive(Clone, Debug, PartialEq, Eq)]
pub struct QueryValidateWrappedTokenForTradeRequest {
    pub contract_address: String,
}

/// Wire response of the authenticity check.
#[derive(Clone, Copy, Debug, PartialEq, Eq)]
pub struct QueryValidateWrappedTokenForTradeResponse {
    pub is_valid: bool,
}

/// One approved bridged token as the chain reports it.
#[derive(Clone, Debug, PartialEq, Eq)]
pub struct BridgeTradeApprovedToken {
    pub chain_id: String,
    pub contract_address: String,
}

/// Wire response of the approved-tokens listing.
#[derive(Clone, Debug, PartialEq, Eq)]
pub struct QueryApprovedTokensForTradeResponseProto {
    pub approved_tokens: Vec<BridgeTradeApprovedToken>,
}

/// Request marker for endpoints without fields.
#[derive(Clone, Copy, Debug, PartialEq, Eq)]
pub struct EmptyRequest {}

/// Request marker of the bank total-supply query; pagination is omitted, the
/// first coin is all that is read.
#[derive(Clone, Copy, Debug, PartialEq, Eq)]
pub struct QueryTotalSupplyRequest {}

/// One coin of the bank's total supply.
#[derive(Clone, Debug, PartialEq, Eq)]
pub struct CoinProto {
    pub denom: String,
    pub amount: String,
}

/// Wire response of the bank total-supply query.
#[derive(Clone, Debug, PartialEq, Eq)]
pub struct QueryTotalSupplyResponse {
    pub supply: Vec<CoinProto>,
}

/// What the authenticity check came back with. An unavailable or erroring
/// check is never treated as approval.
#[derive(Clone, Debug, PartialEq, Eq)]
pub enum ValidationOutcome {
    /// The chain confirmed the payment instrument.
    Approved,
    /// The chain answered, and rejected the payment instrument.
    Rejected,
    /// The chain could not be asked, or answered with an error.
    Unavailable { reason: String },
}

/// A payment-token identifier with any leading `cw20:` tag removed.
pub open spec fn spec_strip_cw20_prefix(s: Seq<char>) -> Seq<char> {
    if s.len() >= 5 && s.subrange(0, 5) == "cw20:"@ {
        s.subrange(5, s.len() as int)
    } else {
        s
    }
}

/// A payment-token identifier with a `cw20:` tag ensured in front.
pub open spec fn spec_with_cw20_prefix(s: Seq<char>) -> Seq<char> {
    if s.len() >= 5 && s.subrange(0, 5) == "cw20:"@ {
        s
    } else {
        "cw20:"@ + s
    }
}

/// Whether an identifier carries the `cw20:` tag.
pub fn has_cw20_prefix(s: &str) -> (has: bool)
    ensures
        has == (s@.len() >= 5 && s@.subrange(0, 5) == "cw20:"@),
{
    proof {
        reveal_strlit("cw20:");
    }
    let n = s.unicode_len();
    if n < 5 {
        return false;
    }
    let c0 = s.get_char(0);
    let c1 = s.get_char(1);
    let c2 = s.get_char(2);
    let c3 = s.get_char(3);
    let c4 = s.get_char(4);
    let tagged = c0 == 'c' && c1 == 'w' && c2 == '2' && c3 == '0' && c4 == ':';
    proof {
        let sub = s@.subrange(0, 5);
        assert(sub[0] == s@[0] && sub[1] == s@[1] && sub[2] == s@[2] && sub[3] == s@[3] && sub[4]
            == s@[4]);
        if tagged {
            assert(sub =~= "cw20:"@);
        }
    }
    tagged
}

/// Remove a leading `cw20:` tag, if present.
pub fn strip_cw20_prefix(s: &str) -> (stripped: String)
    ensures
        stripped@ == spec_strip_cw20_prefix(s@),
{
    if has_cw20_prefix(s) {
        let n = s.unicode_len();
        s.substring_char(5, n).to_owned()
    } else {
        s.to_owned()
    }
}

/// Ensure a leading `cw20:` tag, adding one if absent.
pub fn with_cw20_prefix(s: &str) -> (prefixed: String)
    ensures
        prefixed@ == spec_with_cw20_prefix(s@),
{
    if has_cw20_prefix(s) {
        s.to_owned()
    } else {
        let mut prefixed = String::from_str("cw20:");
        prefixed.append(s);
        prefixed
    }
}

/// Build the authenticity-check request for a payment-token identifier,
/// accepting either a raw contract address or one tagged with `cw20:`.
pub fn validate_request_for(token_identifier: &str) -> (request:
    QueryValidateWrappedTokenForTradeRequest)
    ensures
        request.contract_address@ == spec_strip_cw20_prefix(token_identifier@),
{
    QueryValidateWrappedTokenForTradeRequest {
        contract_address: strip_cw20_prefix(token_identifier),
    }
}

/// Classify the raw answer of the authenticity check; a failed query carries
/// its reason.
pub fn validation_outcome(answer: Result<QueryValidateWrappedTokenForTradeResponse, String>) -> (
    outcome: ValidationOutcome)
    ensures
        outcome == (match answer {
            Result::Ok(response) => if response.is_valid {
                ValidationOutcome::Approved
            } else {
                ValidationOutcome::Rejected
            },
            Result::Err(reason) => ValidationOutcome::Unavailable { reason },
        }),
{
    match answer {
        Result::Ok(response) => {
            if response.is_valid {
                ValidationOutcome::Approved
            } else {
                ValidationOutcome::Rejected
            }
        },
        Result::Err(reason) => ValidationOutcome::Unavailable { reason },
    }
}

/// The probe response: valid exactly when the check approved.
pub fn bridge_validation_response(outcome: &ValidationOutcome) -> (response:
    TestBridgeValidationResponse)
    ensures
        response.is_valid == (*outcome is Approved),
{
    match outcome {
        ValidationOutcome::Approved => TestBridgeValidationResponse { is_valid: true },
        _ => TestBridgeValidationResponse { is_valid: false },
    }
}

/// Pick the chain's native denomination out of the bank's total supply: the
/// first coin's denomination, unless the listing is missing, empty, or names
/// an empty denomination, in which case the fixed default applies.
pub fn native_denom_from_supply(listing: Option<&QueryTotalSupplyResponse>) -> (denom: String)
    ensures
        denom@ == (match listing {
            Option::Some(response) => if response.supply@.len() > 0
                && response.supply@[0].denom@.len() > 0 {
                response.supply@[0].denom@
            } else {
                "ngonka"@
            },
            Option::None => "ngonka"@,
        }),
{
    match listing {
        Option::Some(response) => {
            if response.supply.len() > 0 {
                let first = &response.supply[0];
                if !first.denom.as_str().is_empty() {
                    return first.denom.clone();
                }
            }
            String::from_str("ngonka")
        },
        Option::None => String::from_str("ngonka"),
    }
}

/// Re-shape the wire listing of approved tokens into its JSON-normalized
/// form, preserving order and both fields of every entry.
pub fn normalize_approved_tokens(decoded: &QueryApprovedTokensForTradeResponseProto) -> (
    normalized: ApprovedTokensForTradeJson)
    ensures
        normalized.approved_tokens@.len() == decoded.approved_tokens@.len(),
        forall|i: int| #![trigger normalized.approved_tokens@[i]]
            0 <= i < decoded.approved_tokens@.len()
                ==> normalized.approved_tokens@[i].chain_id@
                == decoded.approved_tokens@[i].chain_id@
                && normalized.approved_tokens@[i].contract_address@
                == decoded.approved_tokens@[i].contract_address@,
{
    let mut approved_tokens: Vec<ApprovedTokenJson> = Vec::new();
    let count = decoded.approved_tokens.len();
    for idx in 0..count
        invariant
            count == decoded.approved_tokens@.len(),
            approved_tokens@.len() == idx,
            forall|i: int| #![trigger approved_tokens@[i]]
                0 <= i < idx ==> approved_tokens@[i].chain_id@
                    == decoded.approved_tokens@[i].chain_id@
                    && approved_tokens@[i].contract_address@
                    == decoded.approved_tokens@[i].contract_address@,
    {
        let entry = &decoded.approved_tokens[idx];
        approved_tokens.push(
            ApprovedTokenJson {
                chain_id: entry.chain_id.clone(),
                contract_address: entry.contract_address.clone(),
            },
        );
    }
    ApprovedTokensForTradeJson { approved_tokens }
}

} // verus!
