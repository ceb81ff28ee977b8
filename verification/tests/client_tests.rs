use corerpc::client::Client;
use corerpc::envelope::{render_request, Request, Response};
use corerpc::error::{Error, RpcError};
use corerpc::methods::block_count_from_result;
use corerpc::rpc::{Rpc, RpcMethod};

fn echo(req: Request) -> Result<Response, String> {
    Ok(Response {
        id: req.id,
        result: Some(format!("{}", req.id)),
        error: None,
    })
}

#[test]
fn identifiers_strictly_increase_from_zero() {
    let mut c = Client::new();
    let r0 = c.call(&Rpc::GetBlockCount, &[], echo).unwrap();
    let r1 = c.call(&Rpc::GetBlockCount, &[], echo).unwrap();
    let r2 = c.call(&Rpc::GetBlockCount, &[], echo).unwrap();
    assert_eq!(r0, Some("0".to_string()));
    assert_eq!(r1, Some("1".to_string()));
    assert_eq!(r2, Some("2".to_string()));
}

#[test]
fn default_client_starts_at_zero() {
    let mut c = Client::default();
    let r0 = c.call(&Rpc::GetBlockCount, &[], echo).unwrap();
    assert_eq!(r0, Some("0".to_string()));
}

#[test]
fn empty_params_are_omitted() {
    let mut c = Client::new();
    let check = |req: Request| -> Result<Response, String> {
        assert!(req.params.is_none());
        Ok(Response { id: req.id, result: None, error: None })
    };
    let r = c.call(&Rpc::GetBlockCount, &[], check).unwrap();
    assert_eq!(r, None);
}

#[test]
fn nonempty_params_are_rendered_as_array() {
    let mut c = Client::new();
    let params = vec![serde_json::Value::from(5u64)];
    let check = |req: Request| -> Result<Response, String> {
        assert_eq!(req.params.as_deref(), Some("[5]"));
        Ok(Response { id: req.id, result: None, error: None })
    };
    c.call(&Rpc::GetBlockHash, &params, check).unwrap();
}

#[test]
fn request_envelope_fields() {
    let mut c = Client::new();
    let req = c.request("getblockcount".to_string(), None);
    assert_eq!(req.method, "getblockcount");
    assert_eq!(req.params, None);
    assert_eq!(req.id, 0);
    assert_eq!(req.jsonrpc, "2.0");
    let req2 = c.request("getblockhash".to_string(), Some("[5]".to_string()));
    assert_eq!(req2.id, 1);
    assert_eq!(req2.params, Some("[5]".to_string()));
}

#[test]
fn rendered_envelope_omits_params_field() {
    let mut c = Client::new();
    let req = c.request("getblockcount".to_string(), None);
    let text = render_request(&req);
    assert_eq!(text, "{\"method\":\"getblockcount\",\"id\":0,\"jsonrpc\":\"2.0\"}");
    assert!(!text.contains("params"));
}

#[test]
fn rendered_envelope_round_trips_to_empty_params() {
    let mut c = Client::new();
    let req = c.request("getblockcount".to_string(), None);
    let text = render_request(&req);
    let decoded: serde_json::Value = serde_json::from_str(&text).unwrap();
    assert!(decoded.get("params").is_none());
    assert_eq!(decoded.get("method").unwrap(), "getblockcount");
    assert_eq!(decoded.get("id").unwrap(), 0);
    assert_eq!(decoded.get("jsonrpc").unwrap(), "2.0");
}

#[test]
fn rendered_envelope_with_params() {
    let mut c = Client::new();
    let req = c.request("getblockhash".to_string(), Some("[5]".to_string()));
    let text = render_request(&req);
    assert_eq!(
        text,
        "{\"method\":\"getblockhash\",\"params\":[5],\"id\":0,\"jsonrpc\":\"2.0\"}"
    );
}

#[test]
fn mismatched_id_fails_with_nonce_mismatch() {
    let mut c = Client::new();
    let bad = |_req: Request| -> Result<Response, String> {
        Ok(Response {
            id: 999,
            result: Some("123".to_string()),
            error: None,
        })
    };
    let r: Result<Option<String>, Error> = c.call(&Rpc::GetBlockCount, &[], bad);
    assert!(matches!(r, Err(Error::NonceMismatch)));
}

#[test]
fn get_block_count_end_to_end() {
    let mut c = Client::new();
    let stub = |req: Request| -> Result<Response, String> {
        assert_eq!(req.method, "getblockcount");
        assert_eq!(req.jsonrpc, "2.0");
        Ok(Response {
            id: req.id,
            result: Some("123".to_string()),
            error: None,
        })
    };
    let payload = c.call(&Rpc::GetBlockCount, &[], stub).unwrap();
    let height = block_count_from_result(payload).unwrap();
    assert_eq!(height, 123u32);
}

#[test]
fn remote_error_propagates_as_rpc_kind() {
    let mut c = Client::new();
    let stub = |req: Request| -> Result<Response, String> {
        Ok(Response {
            id: req.id,
            result: None,
            error: Some(RpcError {
                code: -32601,
                message: "Method not found".to_string(),
                data: None,
            }),
        })
    };
    let r = c.call(&Rpc::GetBlockCount, &[], stub);
    match r {
        Err(Error::Rpc(e)) => {
            assert_eq!(e.code, -32601);
            assert_eq!(e.message, "Method not found");
        }
        other => panic!("expected Rpc error, got {:?}", other),
    }
}

#[test]
fn transport_failure_propagates_with_cause() {
    let mut c = Client::new();
    let stub = |_req: Request| -> Result<Response, String> { Err("connection refused".to_string()) };
    let r = c.call(&Rpc::GetBlockCount, &[], stub);
    match r {
        Err(Error::Transport(cause)) => assert_eq!(cause, "connection refused"),
        other => panic!("expected Transport error, got {:?}", other),
    }
}

#[test]
fn method_names_are_canonical_lowercase() {
    assert_eq!(Rpc::GetBlockchainInfo.method(), "getblockchaininfo");
    assert_eq!(Rpc::GetBlockCount.method(), "getblockcount");
    assert_eq!(Rpc::GetBlockHash.method(), "getblockhash");
}
