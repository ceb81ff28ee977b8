//! The request/response correlator: builds an envelope with a fresh
//! monotonic identifier, invokes the caller-supplied send operation, and
//! verifies the returned identifier before handing out the result payload.

use vstd::prelude::*;
use crate::envelope::{params_json_of, render_params, Request, Response};
use crate::error::Error;
use crate::rpc::RpcMethod;

verus! {

/// What the correlator makes of a send outcome: a transport failure is
/// wrapped with its cause; a response with the wrong identifier is rejected
/// without looking at its payload; a remote error propagates verbatim;
/// otherwise the raw result payload comes out.
pub open spec fn spec_process(id: u64, sr: Result<Response, String>) -> Result<
    Option<String>,
    Error,
> {
    match sr {
        Err(cause) => Err(Error::Transport(cause)),
        Ok(resp) => if resp.id != id {
            Err(Error::NonceMismatch)
        } else {
            match resp.error {
                Some(e) => Err(Error::Rpc(e)),
                None => Ok(resp.result),
            }
        },
    }
}

/// Correlates one send outcome with the identifier of the request it answers.
pub fn process_response(id: u64, sr: Result<Response, String>) -> (r: Result<
    Option<String>,
    Error,
>)
    ensures
        r == spec_process(id, sr),
{
    match sr {
        Err(cause) => Err(Error::Transport(cause)),
        Ok(resp) => {
            if resp.id != id {
                Err(Error::NonceMismatch)
            } else {
                match resp.error {
                    Some(e) => Err(Error::Rpc(e)),
                    None => Ok(resp.result),
                }
            }
        },
    }
}

/// A response whose identifier differs from the request's identifier always
/// fails with the nonce-mismatch kind, whatever payload or error it carries:
/// the payload is never decoded or inspected.
pub proof fn lemma_mismatched_id_rejected(id: u64, resp: Response)
    requires
        resp.id != id,
    ensures
        spec_process(id, Ok(resp)) == Err::<Option<String>, Error>(Error::NonceMismatch),
{
}

/// Identifiers allocated by a run of calls on one freshly constructed client
/// are exactly 0, 1, 2, ...: each `call` hands the current counter value to
/// the request and increments the counter by one, so the sequence of
/// allocated identifiers is strictly increasing, starts at 0, and never
/// repeats.
pub proof fn lemma_identifiers_strictly_increasing(ids: Seq<u64>)
    requires
        forall|k: int| 0 <= k < ids.len() ==> ids[k] == k,
    ensures
        forall|i: int, j: int| 0 <= i < j < ids.len() ==> ids[i] < ids[j],
        forall|i: int, j: int| 0 <= i < ids.len() && 0 <= j < ids.len() && i != j ==> ids[i]
            != ids[j],
        ids.len() > 0 ==> ids[0] == 0,
{
}

/// The client: owns exactly one monotonic identifier counter, reset to zero
/// at construction, and no other state.
#[derive(Debug)]
pub struct Client {
    nonce: u64,
}

impl Client {
    /// The identifier the next call will use.
    pub closed spec fn next_id(self) -> u64 {
        self.nonce
    }

    /// New client; the identifier counter starts at zero.
    pub fn new() -> (c: Client)
        ensures
            c.next_id() == 0,
    {
        Client { nonce: 0 }
    }

    /// The identifier the next call will use, as a value.
    pub fn next_identifier(&self) -> (n: u64)
        ensures
            n == self.next_id(),
    {
        self.nonce
    }

    /// Forms the request envelope and allocates the next identifier.
    pub fn request(&mut self, method: String, params: Option<String>) -> (req: Request)
        requires
            old(self).next_id() < u64::MAX,
        ensures
            final(self).next_id() == old(self).next_id() + 1,
            req.id == old(self).next_id(),
            req.method@ == method@,
            req.params == params,
            req.jsonrpc@ == "2.0"@,
    {
        let id = self.nonce;
        self.nonce = self.nonce + 1;
        Request { method, params, id, jsonrpc: "2.0".to_owned() }
    }

    /// Executes the RPC: renders the parameters (omitting an empty sequence
    /// entirely), builds the envelope with a fresh identifier, invokes the
    /// send operation exactly once, and correlates the outcome.
    ///
    /// The counter advances by one, and the result is exactly `spec_process`
    /// of an outcome the send operation can produce for the envelope carrying
    /// this method, this identifier, and the rendered parameter block —
    /// omitted when the sequence is empty, the serializer's array text
    /// otherwise.
    pub fn call<M: RpcMethod, F: Fn(Request) -> Result<Response, String>>(
        &mut self,
        rpc: &M,
        params: &[serde_json::Value],
        send: F,
    ) -> (r: Result<Option<String>, Error>)
        requires
            old(self).next_id() < u64::MAX,
            forall|req: Request|
                {
                    &&& req.id == old(self).next_id()
                    &&& req.method@ == rpc.method_spec()
                    &&& req.jsonrpc@ == "2.0"@
                    &&& (params@.len() == 0 <==> req.params is None)
                } ==> #[trigger] call_requires(send, (req,)),
        ensures
            final(self).next_id() == old(self).next_id() + 1,
            exists|req: Request, sr: Result<Response, String>|
                {
                    &&& #[trigger] call_ensures(send, (req,), sr)
                    &&& req.id == old(self).next_id()
                    &&& req.method@ == rpc.method_spec()
                    &&& req.jsonrpc@ == "2.0"@
                    &&& match req.params {
                        None => params@.len() == 0,
                        Some(t) => params@.len() > 0 && t@ == params_json_of(params@),
                    }
                    &&& r == spec_process(old(self).next_id(), sr)
                },
    {
        let method = rpc.method();
        let rendered: Option<String>;
        if params.len() == 0 {
            rendered = None;
        } else {
            match render_params(params) {
                Ok(text) => {
                    rendered = Some(text);
                },
                Err(cause) => {
                    // unreachable while the serializer upholds its contract;
                    // fails closed rather than sending an unrendered request
                    return Err(Error::Json(cause));
                },
            }
        }
        let req = self.request(method, rendered);
        let ghost greq = req;
        let id = req.id;
        let sr = send(req);
        let ghost gsr = sr;
        let r = process_response(id, sr);
        proof {
            assert(call_ensures(send, (greq,), gsr));
        }
        r
    }
}

impl Default for Client {
    /// Same as `Client::new`: the identifier counter starts at zero.
    fn default() -> (c: Self)
        ensures
            c.next_id() == 0,
    {
        Client::new()
    }
}

} // verus!
