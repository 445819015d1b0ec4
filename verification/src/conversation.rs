//! The parts of a conversation and of the model's tool catalogue that the
//! engine's decisions read, as plain values.
use vstd::prelude::*;

verus! {

/// A tool as offered to the model.
#[derive(Debug, Clone)]
pub struct ToolDefinition {
    pub name: String,
    pub description: String,
    /// The JSON schema of the tool's parameters, as JSON text.
    pub parameters: String,
}

/// A tool call recorded in an assistant message.
#[derive(Debug, Clone)]
pub struct ToolUse {
    pub id: String,
    pub name: String,
    /// The call's arguments, as JSON text.
    pub input: String,
}

/// A message of a session.
#[derive(Debug, Clone)]
pub enum Message {
    User { content: String },
    Assistant { content: String, tool_uses: Vec<ToolUse> },
    ToolResult { tool_use_id: String, content: String, is_error: bool },
    /// A summary standing for older messages.
    Summary { content: String },
}

impl ToolDefinition {
    /// A copy equal to this definition.
    pub fn duplicate(&self) -> (r: Self)
        ensures
            r == *self,
    {
        ToolDefinition {
            name: self.name.clone(),
            description: self.description.clone(),
            parameters: self.parameters.clone(),
        }
    }
}

impl ToolUse {
    /// A copy equal to this tool use.
    pub fn duplicate(&self) -> (r: Self)
        ensures
            r == *self,
    {
        ToolUse { id: self.id.clone(), name: self.name.clone(), input: self.input.clone() }
    }
}

} // verus!
