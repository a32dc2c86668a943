//! Handles of the RPC surface: the namespace the API server builds per
//! request, and the prover gateway's RPC server description. The wire
//! protocol itself lives outside; these types carry what the handlers read.

use vstd::prelude::*;

verus! {

/// Tracks the method currently being served, for metrics.
#[derive(Clone, Copy, Debug, PartialEq, Eq, Structural)]
pub struct MethodTracer {
    pub observed_calls: u64,
}

/// The state an RPC namespace reads: the chain it serves and the tracer of
/// the method in flight.
#[derive(Clone, Copy, Debug, PartialEq, Eq, Structural)]
pub struct RpcState {
    pub chain_id: u64,
    pub current_method: MethodTracer,
}

/// The rollup-specific RPC namespace.
#[derive(Clone, Copy, Debug)]
pub struct ZksNamespace {
    pub state: RpcState,
}

impl ZksNamespace {
    pub fn new(state: RpcState) -> (r: Self)
        ensures
            r.state == state,
    {
        ZksNamespace { state }
    }

    pub fn current_method(&self) -> (r: &MethodTracer)
        ensures
            *r == self.state.current_method,
    {
        &self.state.current_method
    }
}

/// The prover gateway's RPC server: the port it listens on.
#[derive(Clone, Copy, Debug)]
pub struct RpcServer {
    pub ws_port: u16,
}

impl RpcServer {
    pub fn new(ws_port: u16) -> (r: Self)
        ensures
            r.ws_port == ws_port,
    {
        RpcServer { ws_port }
    }
}

} // verus!
