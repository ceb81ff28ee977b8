//! Typed conversions of raw result payloads for the catalog's methods:
//! `getblockcount`, `getblockhash` and `getblockchaininfo`.

use vstd::prelude::*;
use vstd::string::StrSliceExecFns;
use crate::digits::{canonical_dec, dec_val, parse_u64};
use crate::error::Error;

verus! {

/// Whether `c` is a hexadecimal digit, either case.
pub open spec fn is_hex_digit(c: char) -> bool {
    ||| 48 <= c as u32 <= 57
    ||| 97 <= c as u32 <= 102
    ||| 65 <= c as u32 <= 70
}

/// Whether `s` is exactly 64 hexadecimal digits.
pub open spec fn is_hex64(s: Seq<char>) -> bool {
    s.len() == 64 && forall|i: int| 0 <= i < s.len() ==> is_hex_digit(#[trigger] s[i])
}

/// Whether `s` is a JSON string literal without escapes: quotes around text
/// that itself holds no quote and no backslash.
pub open spec fn plain_json_string(s: Seq<char>) -> bool {
    &&& s.len() >= 2
    &&& s[0] == '"'
    &&& s[s.len() - 1] == '"'
    &&& forall|i: int| 1 <= i < s.len() - 1 ==> #[trigger] s[i] != '"' && s[i] != '\\'
}

/// The text inside a JSON string literal's quotes.
pub open spec fn json_string_body(s: Seq<char>) -> Seq<char> {
    s.subrange(1, s.len() - 1)
}

#[verifier::external_type_specification]
#[verifier::external_body]
pub struct ExBlockHash(bitcoin::BlockHash);

/// Relies on bitcoin::BlockHash's FromStr (via str::parse): it succeeds
/// exactly when the string is 64 hexadecimal digits, either case; a failure
/// is returned as its display text.
#[verifier::external_body]
fn parse_block_hash(s: &str) -> (r: Result<bitcoin::BlockHash, String>)
    ensures
        r is Ok <==> is_hex64(s@),
{
    match s.parse::<bitcoin::BlockHash>() {
        Ok(h) => Ok(h),
        Err(e) => Err(e.to_string()),
    }
}

/// Converts the raw `getblockcount` result payload into a block height.
/// The payload must be a canonical decimal integer fitting a `u64` — else
/// the JSON kind — and must fit a `u32` — else the integer-narrowing kind.
pub fn block_count_from_result(payload: Option<String>) -> (r: Result<u32, Error>)
    ensures
        match payload {
            None => r matches Err(Error::Json(m)) && m@ == "missing result payload"@,
            Some(s) => if canonical_dec(s@) && dec_val(s@) <= u64::MAX {
                if dec_val(s@) <= u32::MAX {
                    r matches Ok(v) && v == dec_val(s@)
                } else {
                    r matches Err(Error::TryFromInt(m)) && m@
                        == "block count does not fit in u32"@
                }
            } else {
                r matches Err(Error::Json(m)) && m@
                    == "result is not a canonical unsigned integer"@
            },
        },
{
    match payload {
        None => Err(Error::Json("missing result payload".to_owned())),
        Some(s) => match parse_u64(s.as_str()) {
            None => Err(Error::Json("result is not a canonical unsigned integer".to_owned())),
            Some(v) => {
                if v <= 0xFFFF_FFFFu64 {
                    Ok(v as u32)
                } else {
                    Err(Error::TryFromInt("block count does not fit in u32".to_owned()))
                }
            },
        },
    }
}

/// Converts the raw `getblockhash` result payload into a block hash.  The
/// payload must be a plain JSON string — else the JSON kind — whose body
/// parses as a hash: exactly 64 hexadecimal digits — else the hash-parsing
/// kind.
pub fn block_hash_from_result(payload: Option<String>) -> (r: Result<bitcoin::BlockHash, Error>)
    ensures
        match payload {
            None => r matches Err(Error::Json(m)) && m@ == "missing result payload"@,
            Some(s) => if plain_json_string(s@) {
                if is_hex64(json_string_body(s@)) {
                    r is Ok
                } else {
                    r matches Err(Error::HexToArray(_))
                }
            } else {
                r matches Err(Error::Json(m)) && m@ == "result is not a plain JSON string"@
            },
        },
{
    match payload {
        None => Err(Error::Json("missing result payload".to_owned())),
        Some(s) => {
            if !is_plain_json_string(s.as_str()) {
                Err(Error::Json("result is not a plain JSON string".to_owned()))
            } else {
                let n = s.as_str().unicode_len();
                let body = s.as_str().substring_char(1, n - 1);
                match parse_block_hash(body) {
                    Ok(h) => Ok(h),
                    Err(cause) => Err(Error::HexToArray(cause)),
                }
            }
        },
    }
}

/// Decides whether `s` is a JSON string literal without escapes.
fn is_plain_json_string(s: &str) -> (ok: bool)
    ensures
        ok == plain_json_string(s@),
{
    let n = s.unicode_len();
    if n < 2 || s.get_char(0) != '"' || s.get_char(n - 1) != '"' {
        return false;
    }
    let mut i: usize = 1;
    while i < n - 1
        invariant
            1 <= i <= n - 1,
            n == s@.len(),
            2 <= n,
            s@[0] == '"',
            s@[n - 1] == '"',
            forall|j: int| 1 <= j < i ==> #[trigger] s@[j] != '"' && s@[j] != '\\',
        decreases n - 1 - i,
    {
        let c = s.get_char(i);
        if c == '"' || c == '\\' {
            return false;
        }
        i += 1;
    }
    true
}

#[verifier::external_type_specification]
#[verifier::external_body]
pub struct ExModelGetBlockchainInfo(corepc_types::model::GetBlockchainInfo);

/// Whether serde_json::from_str decodes `s` into v29::GetBlockchainInfo;
/// a function of the text alone.
pub uninterp spec fn blockchain_info_decodes(s: Seq<char>) -> bool;

/// Whether `s` decodes into v29::GetBlockchainInfo and that shape converts
/// into the model; a function of the text alone.
pub uninterp spec fn blockchain_info_models(s: Seq<char>) -> bool;

/// Relies on serde_json::from_str::<v29::GetBlockchainInfo> and on
/// v29::GetBlockchainInfo::into_model: decodes the raw result payload, then
/// converts it into the version nonspecific model.  Both steps depend on the
/// text alone; a failure comes back as its display text, flagged true when
/// it was the decode step that failed.
#[verifier::external_body]
fn model_blockchain_info(raw: &str) -> (r: Result<
    corepc_types::model::GetBlockchainInfo,
    (bool, String),
>)
    ensures
        r is Ok <==> blockchain_info_models(raw@),
        r is Ok ==> blockchain_info_decodes(raw@),
        r matches Err(f) ==> (f.0 <==> !blockchain_info_decodes(raw@)),
{
    match serde_json::from_str::<corepc_types::v29::GetBlockchainInfo>(raw) {
        Err(e) => Err((true, e.to_string())),
        Ok(v) => match v.into_model() {
            Err(e) => Err((false, e.to_string())),
            Ok(m) => Ok(m),
        },
    }
}

/// Converts the raw `getblockchaininfo` result payload into the domain
/// model: the model exactly when the payload decodes and converts; the JSON
/// kind when the payload is absent or does not decode; the model-conversion
/// kind when it decodes but does not convert.
pub fn blockchain_info_from_result(payload: Option<String>) -> (r: Result<
    corepc_types::model::GetBlockchainInfo,
    Error,
>)
    ensures
        match payload {
            None => r matches Err(Error::Json(m)) && m@ == "missing result payload"@,
            Some(s) => {
                &&& r is Ok <==> blockchain_info_models(s@)
                &&& !blockchain_info_decodes(s@) ==> (r matches Err(Error::Json(_)))
                &&& blockchain_info_decodes(s@) && !blockchain_info_models(s@) ==> (r matches Err(
                    Error::Model(_),
                ))
            },
        },
{
    match payload {
        None => Err(Error::Json("missing result payload".to_owned())),
        Some(s) => match model_blockchain_info(s.as_str()) {
            Err((true, cause)) => Err(Error::Json(cause)),
            Err((false, cause)) => Err(Error::Model(cause)),
            Ok(model) => Ok(model),
        },
    }
}

} // verus!
