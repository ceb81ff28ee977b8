//! Typed conversions of raw result payloads for the verbose block and block
//! header queries of Bitcoin Core's version 28 interface.

use vstd::prelude::*;
use crate::error::Error;

verus! {

#[verifier::external_type_specification]
#[verifier::external_body]
pub struct ExModelGetBlockHeaderVerbose(corepc_types::model::GetBlockHeaderVerbose);

#[verifier::external_type_specification]
#[verifier::external_body]
pub struct ExModelGetBlockVerboseOne(corepc_types::model::GetBlockVerboseOne);

/// Whether serde_json::from_str decodes `s` into v28::GetBlockHeaderVerbose;
/// a function of the text alone.
pub uninterp spec fn block_header_verbose_decodes(s: Seq<char>) -> bool;

/// Whether `s` decodes into v28::GetBlockHeaderVerbose and that shape
/// converts into the model; a function of the text alone.
pub uninterp spec fn block_header_verbose_models(s: Seq<char>) -> bool;

/// Whether serde_json::from_str decodes `s` into v28::GetBlockVerboseOne;
/// a function of the text alone.
pub uninterp spec fn block_verbose_one_decodes(s: Seq<char>) -> bool;

/// Whether `s` decodes into v28::GetBlockVerboseOne and that shape converts
/// into the model; a function of the text alone.
pub uninterp spec fn block_verbose_one_models(s: Seq<char>) -> bool;

/// Relies on serde_json::from_str::<v28::GetBlockHeaderVerbose> and on
/// v28::GetBlockHeaderVerbose::into_model: decodes the raw result payload,
/// then converts it into the version nonspecific model.  Both steps depend
/// on the text alone; a failure comes back as its display text, flagged true
/// when it was the decode step that failed.
#[verifier::external_body]
fn model_block_header_verbose(raw: &str) -> (r: Result<
    corepc_types::model::GetBlockHeaderVerbose,
    (bool, String),
>)
    ensures
        r is Ok <==> block_header_verbose_models(raw@),
        r is Ok ==> block_header_verbose_decodes(raw@),
        r matches Err(f) ==> (f.0 <==> !block_header_verbose_decodes(raw@)),
{
    match serde_json::from_str::<corepc_types::v28::GetBlockHeaderVerbose>(raw) {
        Err(e) => Err((true, e.to_string())),
        Ok(v) => match v.into_model() {
            Err(e) => Err((false, e.to_string())),
            Ok(m) => Ok(m),
        },
    }
}

/// Relies on serde_json::from_str::<v28::GetBlockVerboseOne> and on
/// v28::GetBlockVerboseOne::into_model: decodes the raw result payload, then
/// converts it into the version nonspecific model.  Both steps depend on the
/// text alone; a failure comes back as its display text, flagged true when
/// it was the decode step that failed.
#[verifier::external_body]
fn model_block_verbose_one(raw: &str) -> (r: Result<
    corepc_types::model::GetBlockVerboseOne,
    (bool, String),
>)
    ensures
        r is Ok <==> block_verbose_one_models(raw@),
        r is Ok ==> block_verbose_one_decodes(raw@),
        r matches Err(f) ==> (f.0 <==> !block_verbose_one_decodes(raw@)),
{
    match serde_json::from_str::<corepc_types::v28::GetBlockVerboseOne>(raw) {
        Err(e) => Err((true, e.to_string())),
        Ok(v) => match v.into_model() {
            Err(e) => Err((false, e.to_string())),
            Ok(m) => Ok(m),
        },
    }
}

/// Converts the raw `getblockheader` (verbosity 1) result payload into the
/// domain model: the model exactly when the payload decodes and converts;
/// the JSON kind when the payload is absent or does not decode; the
/// header-conversion kind when it decodes but does not convert.
pub fn block_header_verbose_from_result(payload: Option<String>) -> (r: Result<
    corepc_types::model::GetBlockHeaderVerbose,
    Error,
>)
    ensures
        match payload {
            None => r matches Err(Error::Json(m)) && m@ == "missing result payload"@,
            Some(s) => {
                &&& r is Ok <==> block_header_verbose_models(s@)
                &&& !block_header_verbose_decodes(s@) ==> (r matches Err(Error::Json(_)))
                &&& block_header_verbose_decodes(s@) && !block_header_verbose_models(s@)
                    ==> (r matches Err(Error::GetBlockHeaderVerbose(_)))
            },
        },
{
    match payload {
        None => Err(Error::Json("missing result payload".to_owned())),
        Some(s) => match model_block_header_verbose(s.as_str()) {
            Err((true, cause)) => Err(Error::Json(cause)),
            Err((false, cause)) => Err(Error::GetBlockHeaderVerbose(cause)),
            Ok(model) => Ok(model),
        },
    }
}

/// Converts the raw `getblock` (verbosity 1) result payload into the domain
/// model: the model exactly when the payload decodes and converts; the JSON
/// kind when the payload is absent or does not decode; the block-conversion
/// kind when it decodes but does not convert.
pub fn block_verbose_from_result(payload: Option<String>) -> (r: Result<
    corepc_types::model::GetBlockVerboseOne,
    Error,
>)
    ensures
        match payload {
            None => r matches Err(Error::Json(m)) && m@ == "missing result payload"@,
            Some(s) => {
                &&& r is Ok <==> block_verbose_one_models(s@)
                &&& !block_verbose_one_decodes(s@) ==> (r matches Err(Error::Json(_)))
                &&& block_verbose_one_decodes(s@) && !block_verbose_one_models(s@)
                    ==> (r matches Err(Error::GetBlockVerboseOne(_)))
            },
        },
{
    match payload {
        None => Err(Error::Json("missing result payload".to_owned())),
        Some(s) => match model_block_verbose_one(s.as_str()) {
            Err((true, cause)) => Err(Error::Json(cause)),
            Err((false, cause)) => Err(Error::GetBlockVerboseOne(cause)),
            Ok(model) => Ok(model),
        },
    }
}

} // verus!
