//! Shared types of the tool layer: tool responses and the parameters of
//! each named operation.
//!
//! The outer protocol layer validates and decodes raw requests into these
//! plain values before the tool logic runs; rendering back to the wire
//! format happens outside the library as well.

use vstd::prelude::*;
use vstd::string::*;

verus! {

/// One piece of response content.
#[derive(Debug, Clone)]
pub enum ContentItem {
    /// Plain text.
    Text { text: String },
}

/// A tool's response: a list of content items.
#[derive(Debug, Clone)]
pub struct ToolResponse {
    /// The response content, in order.
    pub content: Vec<ContentItem>,
}

impl ToolResponse {
    /// A response of one text item.
    pub fn text(text: String) -> (r: ToolResponse)
        ensures
            r.content@.len() == 1,
            r.content@[0] == (ContentItem::Text { text }),
    {
        let mut content: Vec<ContentItem> = Vec::new();
        content.push(ContentItem::Text { text });
        ToolResponse { content }
    }

    /// A response of one text item per string, in order.
    pub fn texts(texts: Vec<String>) -> (r: ToolResponse)
        ensures
            r.content@.len() == texts@.len(),
            forall|i: int|
                0 <= i < texts@.len() ==> r.content@[i] == (ContentItem::Text {
                    text: texts@[i],
                }),
    {
        let ghost orig = texts@;
        let mut rest = texts;
        let mut content: Vec<ContentItem> = Vec::new();
        while rest.len() > 0
            invariant
                content@.len() + rest@.len() == orig.len(),
                rest@ == orig.skip(content@.len() as int),
                forall|i: int|
                    0 <= i < content@.len() ==> content@[i] == (ContentItem::Text {
                        text: orig[i],
                    }),
            decreases rest@.len(),
        {
            let t = rest.remove(0);
            proof {
                assert(t == orig[content@.len() as int]);
                assert(rest@ =~= orig.skip(content@.len() as int + 1));
            }
            content.push(ContentItem::Text { text: t });
        }
        ToolResponse { content }
    }
}

/// A tool made visible to callers: its name, what it does, and the JSON
/// schema (as text) of its parameters.
#[derive(Debug, Clone)]
pub struct ToolDefinition {
    /// The tool's name.
    pub name: String,
    /// What the tool does.
    pub description: String,
    /// JSON schema of the tool's parameters, as JSON text.
    pub input_schema: String,
}

/// Parameters of the open-dump tool.
#[derive(Debug, Clone)]
pub struct OpenWindbgDumpParams {
    /// Path of the dump file to open.
    pub dump_path: String,
    /// Also run the stack-trace command.
    pub include_stack_trace: bool,
    /// Also run the module-list command.
    pub include_modules: bool,
    /// Also run the thread-list command.
    pub include_threads: bool,
}

/// Parameters of the open-remote tool.
#[derive(Debug, Clone)]
pub struct OpenWindbgRemoteParams {
    /// The remote connection string.
    pub connection_string: String,
    /// Also run the stack-trace command.
    pub include_stack_trace: bool,
    /// Also run the module-list command.
    pub include_modules: bool,
    /// Also run the thread-list command.
    pub include_threads: bool,
}

/// Parameters of the run-command tool.  Exactly one of `dump_path` and
/// `connection_string` selects the session.
#[derive(Debug, Clone)]
pub struct RunWindbgCmdParams {
    /// Dump file path; mutually exclusive with `connection_string`.
    pub dump_path: Option<String>,
    /// Connection string; mutually exclusive with `dump_path`.
    pub connection_string: Option<String>,
    /// The command to execute.
    pub command: String,
}

impl RunWindbgCmdParams {
    /// Exactly one of the two targets is given.
    pub open spec fn is_valid(&self) -> bool {
        (self.dump_path is Some) != (self.connection_string is Some)
    }

    /// Check that exactly one of `dump_path` and `connection_string` is
    /// given; says which way the check failed otherwise.
    pub fn validate(&self) -> (r: Result<(), String>)
        ensures
            r is Ok <==> self.is_valid(),
            self.dump_path is None && self.connection_string is None ==> (r matches Err(m)
                && m@ == "Either dump_path or connection_string must be provided"@),
            self.dump_path is Some && self.connection_string is Some ==> (r matches Err(m)
                && m@ == "dump_path and connection_string cannot both be provided"@),
    {
        match (&self.dump_path, &self.connection_string) {
            (Option::None, Option::None) => Err(
                String::from_str("Either dump_path or connection_string must be provided"),
            ),
            (Option::Some(_), Option::Some(_)) => Err(
                String::from_str("dump_path and connection_string cannot both be provided"),
            ),
            _ => Ok(()),
        }
    }

    /// The target the command runs against: the dump path when given,
    /// else the connection string, else nothing.
    pub fn session_identifier(&self) -> (r: Option<&str>)
        ensures
            match r {
                Option::Some(s) => (self.dump_path matches Some(d) && s@ == d@) || (
                self.dump_path is None && (self.connection_string matches Some(c) && s@ == c@)),
                Option::None => self.dump_path is None && self.connection_string is None,
            },
    {
        match (&self.dump_path, &self.connection_string) {
            (Option::Some(d), _) => Some(d.as_str()),
            (Option::None, Option::Some(c)) => Some(c.as_str()),
            (Option::None, Option::None) => None,
        }
    }
}

/// Parameters of the close-dump tool.
#[derive(Debug, Clone)]
pub struct CloseWindbgDumpParams {
    /// Path of the dump file whose session is closed.
    pub dump_path: String,
}

/// Parameters of the close-remote tool.
#[derive(Debug, Clone)]
pub struct CloseWindbgRemoteParams {
    /// Connection string whose session is closed.
    pub connection_string: String,
}

/// Parameters of the list-dumps tool.
#[derive(Debug, Clone)]
pub struct ListWindbgDumpsParams {
    /// Directory to search; the system dump directory when absent.
    pub directory_path: Option<String>,
    /// Also search subdirectories.
    pub recursive: bool,
}

} // verus!
