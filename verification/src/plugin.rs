//! The shapes a block exchanges with its host: kind declarations, the
//! describe answer, node errors, input envelopes and output messages.

use vstd::prelude::*;

verus! {

/// A node kind that a block contributes.
pub struct KindDecl {
    pub kind_id: String,
    pub display_name: Option<String>,
    pub inputs: Vec<String>,
    pub outputs: Vec<String>,
}

/// A block's answer to the host's describe request.
pub struct DescribeResponse {
    pub extension_id: String,
    pub version: String,
    pub kinds: Vec<KindDecl>,
}

/// One message handed to a wasm node: its kind, input port and JSON text.
pub struct OnInputEnvelope {
    pub kind_id: String,
    pub port: String,
    pub msg_json: String,
}

/// One message a wasm node emits: output port and JSON text.
pub struct OutputMsg {
    pub port: String,
    pub msg_json: String,
}

/// A message a process node emits on one of its ports; the payload is JSON
/// text.
pub struct Emit {
    pub port: String,
    pub payload_json: String,
}

/// Why a node refused a message or a configuration.
pub enum NodeError {
    /// A runtime failure with its message.
    Runtime(String),
    /// The node's settings could not be decoded.
    InvalidConfig(String),
}

/// The views of the two strings of a `Result`.
pub open spec fn result_view(r: Result<String, String>) -> Result<Seq<char>, Seq<char>> {
    match r {
        Ok(s) => Ok(s@),
        Err(e) => Err(e@),
    }
}

/// The message text of a runtime node error.
pub open spec fn is_runtime_error(e: NodeError, msg: Seq<char>) -> bool {
    e matches NodeError::Runtime(m) && m@ == msg
}

/// Builds a runtime node error.
pub fn runtime_error(msg: String) -> (e: NodeError)
    ensures
        is_runtime_error(e, msg@),
{
    NodeError::Runtime(msg)
}

} // verus!
