//! Engine errors and the messages shown to users for them.
use vstd::prelude::*;

use crate::text::{decimal, decimal_string, push_str};

verus! {

/// An error of the engine.
#[derive(Debug)]
pub enum EngineError {
    /// A tool failed.
    Tool(String),
    /// The model called a tool that is not registered.
    ToolNotFound(String),
    /// The model's service failed; holds the message for users.
    Llm(String),
    /// The loop reached its turn limit.
    MaxIterations { iterations: usize, session_id: String },
    /// Anything else, with its description.
    Other(String),
}

/// The message for users of an error.
pub open spec fn spec_user_message(e: EngineError) -> Seq<char> {
    match e {
        EngineError::Llm(m) => m@,
        EngineError::ToolNotFound(name) => "Tool '"@ + name@
            + "' is not available. The LLM tried to call a tool that isn't registered. This may indicate a model hallucination."@,
        EngineError::Tool(msg) => "A tool encountered an error: "@ + msg@,
        EngineError::MaxIterations { iterations, session_id } => "Reached the maximum iteration limit ("@
            + decimal(iterations as nat) + " turns). Session "@ + session_id@
            + " has been saved \u{2014} resume with --session "@ + session_id@,
        EngineError::Other(e) => "Unexpected error: "@ + e@,
    }
}

impl EngineError {
    /// A message for users with guidance on what to do.
    pub fn user_message(&self) -> (r: String)
        ensures
            r@ == spec_user_message(*self),
    {
        match self {
            EngineError::Llm(m) => m.clone(),
            EngineError::ToolNotFound(name) => {
                let mut r = "Tool '".to_string();
                push_str(&mut r, name.as_str());
                push_str(&mut r, "' is not available. The LLM tried to call a tool that isn't registered. This may indicate a model hallucination.");
                r
            },
            EngineError::Tool(msg) => {
                let mut r = "A tool encountered an error: ".to_string();
                push_str(&mut r, msg.as_str());
                r
            },
            EngineError::MaxIterations { iterations, session_id } => {
                let mut r = "Reached the maximum iteration limit (".to_string();
                let d = decimal_string(*iterations);
                push_str(&mut r, d.as_str());
                push_str(&mut r, " turns). Session ");
                push_str(&mut r, session_id.as_str());
                push_str(&mut r, " has been saved \u{2014} resume with --session ");
                push_str(&mut r, session_id.as_str());
                r
            },
            EngineError::Other(e) => {
                let mut r = "Unexpected error: ".to_string();
                push_str(&mut r, e.as_str());
                r
            },
        }
    }
}

} // verus!
