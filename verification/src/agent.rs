//! An agent as a capability: to call it is to prompt the agent.

use crate::document::{push_field, push_item, view_fields, view_items, Document, DocumentView};
use crate::tool::{ArgsDecodeError, Argument, ToolDefinition};
use vstd::prelude::*;
use vstd::string::StringExecFns;

verus! {

/// The name under which an agent is called where it has none of its own.
pub const AGENT_TOOL_NAME: &'static str = "agent_tool";

/// What the description of an agent capability says before the agent's
/// preamble.
pub const AGENT_TOOL_DESCRIPTION: &'static str =
    "A tool that allows the agent to call another agent by prompting it. The preamble\n                of that agent follows:\n                --- \n                ";

/// An agent: a completion model under a persona.
pub struct Agent<M> {
    /// The completion model that answers for the agent.
    pub model: M,
    /// The agent's persona, given to the model as its system instruction.
    pub preamble: String,
    /// The name under which the agent is called, where it has one of its own.
    pub name: Option<String>,
}

/// The arguments of a call of an agent capability.
#[derive(Debug, PartialEq, Eq)]
pub struct AgentToolArgs {
    prompt: String,
}

/// The schema of the argument `prompt`: a string.
pub open spec fn prompt_parameter() -> DocumentView {
    DocumentView::Object(
        seq![
            ("type"@, DocumentView::String("string"@)),
            ("description"@, DocumentView::String("The prompt for the agent to call."@)),
        ],
    )
}

/// The schema of the arguments of an agent capability: an object with one
/// required string, `prompt`.
pub open spec fn agent_tool_parameters() -> DocumentView {
    DocumentView::Object(
        seq![
            ("type"@, DocumentView::String("object"@)),
            ("properties"@, DocumentView::Object(seq![("prompt"@, prompt_parameter())])),
            ("required"@, DocumentView::Array(seq![DocumentView::String("prompt"@)])),
        ],
    )
}

impl<M> Agent<M> {
    /// The name that this agent is called by.
    pub open spec fn tool_name(&self) -> Seq<char> {
        match self.name {
            Some(name) => name@,
            None => AGENT_TOOL_NAME@,
        }
    }

    /// The name under which this agent is called: its own where it has one,
    /// else [`AGENT_TOOL_NAME`].
    pub fn name(&self) -> (name: String)
        ensures
            name@ == self.tool_name(),
    {
        match &self.name {
            Some(name) => name.clone(),
            None => AGENT_TOOL_NAME.to_owned(),
        }
    }

    /// How this agent presents itself as a capability. The description ends
    /// with the agent's preamble, word for word.
    pub fn definition(&self, _prompt: String) -> (definition: ToolDefinition)
        ensures
            definition.name@ == self.tool_name(),
            definition.description@ == AGENT_TOOL_DESCRIPTION@ + self.preamble@,
            definition.parameters@ == agent_tool_parameters(),
    {
        let mut prompt: Vec<(String, Document)> = Vec::new();
        assert(view_fields(prompt@) =~= Seq::empty());
        push_field(&mut prompt, "type", Document::string("string"));
        push_field(
            &mut prompt,
            "description",
            Document::string("The prompt for the agent to call."),
        );
        assert(view_fields(prompt@) =~= prompt_parameter()->Object_0);
        let mut properties: Vec<(String, Document)> = Vec::new();
        push_field(&mut properties, "prompt", Document::object(prompt));
        let mut required: Vec<Document> = Vec::new();
        assert(view_items(required@) =~= Seq::empty());
        push_item(&mut required, Document::string("prompt"));
        let mut parameters: Vec<(String, Document)> = Vec::new();
        push_field(&mut parameters, "type", Document::string("object"));
        push_field(&mut parameters, "properties", Document::object(properties));
        push_field(&mut parameters, "required", Document::array(required));
        assert(view_fields(parameters@) =~= agent_tool_parameters()->Object_0);
        ToolDefinition {
            name: self.name(),
            description: AGENT_TOOL_DESCRIPTION.to_owned().concat(self.preamble.as_str()),
            parameters: Document::object(parameters),
        }
    }
}

impl View for AgentToolArgs {
    type V = Seq<char>;

    /// The prompt.
    closed spec fn view(&self) -> Seq<char> {
        self.prompt@
    }
}

/// The prompt that a document decodes to: that of an object whose `prompt`
/// is a string.
pub open spec fn decoded_prompt(args: DocumentView) -> Result<Seq<char>, ArgsDecodeError> {
    match args {
        DocumentView::Object(_) => match args.get("prompt"@) {
            None => Err(ArgsDecodeError::Missing(Argument::Prompt)),
            Some(DocumentView::String(prompt)) => Ok(prompt),
            Some(_) => Err(ArgsDecodeError::Invalid(Argument::Prompt)),
        },
        _ => Err(ArgsDecodeError::NotAnObject),
    }
}

impl AgentToolArgs {
    /// The arguments that ask the agent `prompt`.
    pub fn new(prompt: String) -> (args: AgentToolArgs)
        ensures
            args@ == prompt@,
    {
        AgentToolArgs { prompt }
    }

    /// Decodes the arguments of a call of an agent capability.
    pub fn decode(args: &Document) -> (decoded: Result<AgentToolArgs, ArgsDecodeError>)
        ensures
            match decoded {
                Ok(value) => decoded_prompt(args@) == Ok::<_, ArgsDecodeError>(value@),
                Err(error) => decoded_prompt(args@) == Err::<Seq<char>, _>(error),
            },
    {
        match args {
            Document::Object(_) => {},
            _ => {
                return Err(ArgsDecodeError::NotAnObject);
            },
        }
        match args.get("prompt") {
            None => Err(ArgsDecodeError::Missing(Argument::Prompt)),
            Some(Document::String(prompt)) => Ok(AgentToolArgs { prompt: prompt.clone() }),
            Some(_) => Err(ArgsDecodeError::Invalid(Argument::Prompt)),
        }
    }

    /// What to ask the agent.
    pub fn prompt(&self) -> (prompt: &String)
        ensures
            prompt@ == self@,
    {
        &self.prompt
    }

    /// What to ask the agent, out of the arguments.
    pub fn into_prompt(self) -> (prompt: String)
        ensures
            prompt@ == self@,
    {
        self.prompt
    }
}

} // verus!
