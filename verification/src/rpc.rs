//! The closed catalog of supported remote procedure names.

use vstd::prelude::*;

verus! {

/// Names a remote procedure.  Every implementor projects to its canonical
/// lowercase wire name; the projection is fixed by `method_spec`.
pub trait RpcMethod {
    /// The canonical wire name.
    spec fn method_spec(&self) -> Seq<char>;

    /// Return the RPC method name string.
    fn method(&self) -> (name: String)
        ensures
            name@ == self.method_spec(),
    ;
}

/// The supported RPCs.  Adding a method is a compile-time edit of this
/// enumeration; the core call path accepts no dynamic method names.
#[derive(Debug, Clone, Copy, PartialEq, Eq, Hash, Structural)]
pub enum Rpc {
    GetBlockchainInfo,
    GetBlockCount,
    GetBlockHash,
}

impl Rpc {
    /// The canonical lowercase wire name of this method.
    pub open spec fn wire_name(self) -> Seq<char> {
        match self {
            Rpc::GetBlockchainInfo => "getblockchaininfo"@,
            Rpc::GetBlockCount => "getblockcount"@,
            Rpc::GetBlockHash => "getblockhash"@,
        }
    }
}

impl RpcMethod for Rpc {
    open spec fn method_spec(&self) -> Seq<char> {
        self.wire_name()
    }

    fn method(&self) -> (name: String) {
        match self {
            Rpc::GetBlockchainInfo => "getblockchaininfo".to_owned(),
            Rpc::GetBlockCount => "getblockcount".to_owned(),
            Rpc::GetBlockHash => "getblockhash".to_owned(),
        }
    }
}

} // verus!
