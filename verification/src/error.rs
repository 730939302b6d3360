//! Error taxonomy of the dispatcher and of the completion adapter.

use vstd::prelude::*;

verus! {

/// A failure of one prompt call.
#[derive(Debug, PartialEq, Eq)]
pub enum PromptError {
    /// No valid agent was available.  Carried in the depth/history shape so
    /// that callers handle it like any other depth exhaustion.
    MaxDepth { depth: usize, history: Vec<String>, prompt: String },
    /// The remote endpoint returned a non-success response or an error body.
    Provider { message: String },
    /// Connection-level failure in the transport layer.
    Transport { cause: String },
    /// A message could not be converted to the wire shape.
    Conversion { reason: String },
    /// A successful reply that carried no usable content.
    Response { reason: String },
}

/// The error returned by the retrying entry points.
#[derive(Debug, PartialEq, Eq)]
pub enum RandAgentError {
    /// The pool was empty or every entry was invalid.
    NoValidAgents,
    /// The last underlying prompt failure, after retries were exhausted.
    AgentError(PromptError),
}

/// The error a dispatch round returns when the pool holds no valid entry.
pub fn no_valid_agents_error() -> (r: PromptError)
    ensures
        r matches PromptError::MaxDepth { depth, history, prompt } ==> {
            &&& depth == 0
            &&& history@ == Seq::<String>::empty()
            &&& prompt@ == "no valid agent"@
        },
        r is MaxDepth,
{
    PromptError::MaxDepth {
        depth: 0,
        history: Vec::new(),
        prompt: "no valid agent".to_owned(),
    }
}

} // verus!
