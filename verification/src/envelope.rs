//! Request and response envelopes, and the request's wire rendering.
//!
//! Parameters travel pre-rendered: the request holds the parameter block as
//! raw JSON text, produced once from the caller's values, and omits it
//! entirely when the call has no parameters.  Result payloads likewise travel
//! as raw JSON text until a typed conversion reads them.

use vstd::prelude::*;
use vstd::string::StringExecFns;
use crate::digits::{dec_spec, is_digit, u64_to_string};
use crate::error::RpcError;
use crate::rpc::Rpc;

verus! {

/// A JSON-RPC request envelope.
#[derive(Debug, Clone)]
pub struct Request {
    /// The name of the RPC call.
    pub method: String,
    /// The parameter block as raw JSON text (an array), absent when the call
    /// has no parameters.
    pub params: Option<String>,
    /// Identifier for this request, which should appear in the response.
    pub id: u64,
    /// Protocol version tag; always "2.0".
    pub jsonrpc: String,
}

/// A JSON-RPC response envelope.
#[derive(Debug, Clone)]
pub struct Response {
    /// Identifier echoed from the request.
    pub id: u64,
    /// The result payload as raw JSON text, when there is one.
    pub result: Option<String>,
    /// The structured remote error, when there is one.
    pub error: Option<RpcError>,
}

#[verifier::external_type_specification]
#[verifier::external_body]
pub struct ExValue(serde_json::Value);

/// The JSON array text that the serializer produces for a parameter list;
/// a function of the values alone.
pub uninterp spec fn params_json_of(params: Seq<serde_json::Value>) -> Seq<char>;

/// Relies on serde_json::to_string: renders the given parameter values as one
/// JSON array.  For a slice of `Value` the serializer has no failure path —
/// it writes into a vector, numbers are always finite, and object keys are
/// strings — and its output depends on the values alone.
#[verifier::external_body]
pub(crate) fn render_params(params: &[serde_json::Value]) -> (r: Result<String, String>)
    ensures
        match r {
            Ok(s) => s@ == params_json_of(params@),
            Err(_) => false,
        },
{
    match serde_json::to_string(params) {
        Ok(s) => Ok(s),
        Err(e) => Err(e.to_string()),
    }
}

/// The exact wire text of a request envelope: the params field stands between
/// method and id when present, and is omitted entirely when absent.
pub open spec fn render_spec(req: Request) -> Seq<char> {
    "{\"method\":\""@ + req.method@ + "\""@ + (match req.params {
        Some(p) => ",\"params\":"@ + p@,
        None => Seq::<char>::empty(),
    }) + ",\"id\":"@ + dec_spec(req.id as nat) + ",\"jsonrpc\":\""@ + req.jsonrpc@ + "\"}"@
}

/// Renders the request envelope as wire text.
pub fn render_request(req: &Request) -> (s: String)
    ensures
        s@ == render_spec(*req),
{
    let mut s = String::from_str("{\"method\":\"");
    s.append(req.method.as_str());
    s.append("\"");
    match &req.params {
        Some(p) => {
            s.append(",\"params\":");
            s.append(p.as_str());
        },
        None => {},
    }
    s.append(",\"id\":");
    let id_text = u64_to_string(req.id);
    s.append(id_text.as_str());
    s.append(",\"jsonrpc\":\"");
    s.append(req.jsonrpc.as_str());
    s.append("\"}");
    proof {
        assert(s@ =~= render_spec(*req));
    }
    s
}

/// Whether `t` occurs in `s` starting at position `i`.
pub open spec fn occurs_at(s: Seq<char>, t: Seq<char>, i: int) -> bool {
    &&& 0 <= i
    &&& i + t.len() <= s.len()
    &&& forall|k: int| 0 <= k < t.len() ==> s[i + k] == #[trigger] t[k]
}

/// Whether `t` occurs anywhere in `s`.
pub open spec fn occurs(s: Seq<char>, t: Seq<char>) -> bool {
    exists|i: int| occurs_at(s, t, i)
}

/// No 'p' immediately followed by 'a' anywhere in `s`.
spec fn pa_free(s: Seq<char>) -> bool {
    forall|i: int| 0 <= i < s.len() - 1 ==> !(s[i] == 'p' && #[trigger] s[i + 1] == 'a')
}

proof fn lemma_pa_free_concat(a: Seq<char>, b: Seq<char>)
    requires
        pa_free(a),
        pa_free(b),
        b.len() > 0 ==> b[0] != 'a',
    ensures
        pa_free(a + b),
{
    let s = a + b;
    assert(s.len() == a.len() + b.len());
    assert forall|i: int| 0 <= i < s.len() - 1 implies !(s[i] == 'p' && #[trigger] s[i + 1]
        == 'a') by {
        if i + 1 < a.len() {
            assert(s[i] == a[i]);
            assert(s[i + 1] == a[i + 1]);
            assert(!(a[i] == 'p' && a[i + 1] == 'a'));
        } else if i + 1 == a.len() {
            assert(s[i + 1] == b[0]);
            assert(b[0] != 'a');
        } else {
            let j = i - a.len();
            assert(0 <= j < b.len() - 1);
            assert(s[i] == b[j]);
            assert(s[i + 1] == b[j + 1]);
            assert(!(b[j] == 'p' && b[j + 1] == 'a'));
        }
    }
}

proof fn lemma_dec_spec_digits(n: nat)
    ensures
        forall|i: int| 0 <= i < dec_spec(n).len() ==> is_digit(#[trigger] dec_spec(n)[i]),
        dec_spec(n).len() > 0,
    decreases n,
{
    if n >= 10 {
        lemma_dec_spec_digits(n / 10);
    }
}

/// A catalog request without parameters renders to an envelope in which the
/// text "params" occurs nowhere: the parameters field is omitted entirely.
pub proof fn lemma_empty_params_omitted(req: Request, rpc: Rpc)
    requires
        req.params is None,
        req.method@ == rpc.wire_name(),
        req.jsonrpc@ == "2.0"@,
    ensures
        !occurs(render_spec(req), "params"@),
{
    reveal_strlit("{\"method\":\"");
    reveal_strlit("\"");
    reveal_strlit(",\"id\":");
    reveal_strlit(",\"jsonrpc\":\"");
    reveal_strlit("2.0");
    reveal_strlit("\"}");
    reveal_strlit("params");
    reveal_strlit("getblockchaininfo");
    reveal_strlit("getblockcount");
    reveal_strlit("getblockhash");
    let l1 = "{\"method\":\""@;
    let m = req.method@;
    let q = "\""@;
    let e0 = Seq::<char>::empty();
    let l2 = ",\"id\":"@;
    let d = dec_spec(req.id as nat);
    let l3 = ",\"jsonrpc\":\""@;
    let v = req.jsonrpc@;
    let l4 = "\"}"@;
    lemma_dec_spec_digits(req.id as nat);
    assert(pa_free(l1));
    assert(pa_free(m));
    assert(pa_free(q));
    assert(pa_free(e0));
    assert(pa_free(l2));
    assert(pa_free(d)) by {
        assert forall|i: int| 0 <= i < d.len() - 1 implies !(d[i] == 'p' && #[trigger] d[i + 1]
            == 'a') by {
            assert(is_digit(d[i + 1]));
        }
    }
    assert(pa_free(l3));
    assert(pa_free(v));
    assert(pa_free(l4));
    assert(m[0] != 'a');
    assert(d[0] != 'a') by {
        assert(is_digit(d[0]));
    }
    lemma_pa_free_concat(l1, m);
    lemma_pa_free_concat(l1 + m, q);
    lemma_pa_free_concat(l1 + m + q, e0);
    lemma_pa_free_concat(l1 + m + q + e0, l2);
    lemma_pa_free_concat(l1 + m + q + e0 + l2, d);
    lemma_pa_free_concat(l1 + m + q + e0 + l2 + d, l3);
    lemma_pa_free_concat(l1 + m + q + e0 + l2 + d + l3, v);
    lemma_pa_free_concat(l1 + m + q + e0 + l2 + d + l3 + v, l4);
    let s = render_spec(req);
    assert(s =~= l1 + m + q + e0 + l2 + d + l3 + v + l4);
    if occurs(s, "params"@) {
        let i = choose|i: int| occurs_at(s, "params"@, i);
        assert("params"@[0] == 'p');
        assert("params"@[1] == 'a');
        assert(s[i + 0] == 'p');
        assert(s[i + 1] == 'a');
        assert(false);
    }
}

} // verus!
