//! Server-level configuration and the tool catalogue.
//!
//! The protocol transport, request decoding and response encoding live
//! outside the library; what is here is the configuration record, the
//! fixed list of tools the server offers, and the dispatch decision from
//! a tool's name to the tool itself.

use vstd::prelude::*;
use vstd::string::*;

use crate::text::dec_val;
use crate::text::eq_ignore_ascii_case;
use crate::text::eq_nocase;
use crate::text::is_u64_text;
use crate::text::parse_u64;
use crate::text::plus_stripped;
use crate::text::str_eq;
use crate::types::ToolDefinition;

verus! {

/// Server configuration.
#[derive(Debug, Clone)]
pub struct ServerConfig {
    /// Override for the debugger executable, if any.
    pub cdb_path: Option<String>,
    /// Symbol search path handed to spawned processes, if any.
    pub symbols_path: Option<String>,
    /// Command timeout in seconds.
    pub timeout_secs: u64,
    /// Startup-handshake timeout in seconds.
    pub init_timeout_secs: u64,
    /// Log every line read from the debugger.
    pub verbose: bool,
}

impl Default for ServerConfig {
    /// No overrides, a thirty-second command timeout, a two-minute
    /// startup timeout, quiet.
    fn default() -> (r: ServerConfig)
        ensures
            r.cdb_path is None,
            r.symbols_path is None,
            r.timeout_secs == 30,
            r.init_timeout_secs == 120,
            r.verbose == false,
    {
        ServerConfig {
            cdb_path: None,
            symbols_path: None,
            timeout_secs: 30,
            init_timeout_secs: 120,
            verbose: false,
        }
    }
}

/// The command timeout an environment value selects: its decimal value
/// when it reads as a `u64`, the default of thirty seconds otherwise.
pub open spec fn env_timeout_spec(timeout: Option<String>) -> u64 {
    match timeout {
        Option::Some(t) => if is_u64_text(t@) {
            dec_val(plus_stripped(t@)) as u64
        } else {
            30
        },
        Option::None => 30,
    }
}

/// The verbosity an environment value selects: on exactly for "true" in
/// any letter case, or "1".
pub open spec fn env_verbose_spec(verbose: Option<String>) -> bool {
    match verbose {
        Option::Some(v) => eq_nocase(v@, "true"@) || eq_nocase(v@, "1"@),
        Option::None => false,
    }
}

impl ServerConfig {
    /// Build the configuration from what the environment holds: the
    /// executable override and the symbol path are taken as given, the
    /// timeout variable must read as a whole number of seconds to take
    /// effect, and the verbosity variable turns logging on exactly for
    /// "true" in any letter case or "1".
    pub fn from_env(
        cdb_path: Option<String>,
        symbols_path: Option<String>,
        timeout: Option<String>,
        verbose: Option<String>,
    ) -> (r: ServerConfig)
        ensures
            r.cdb_path == cdb_path,
            r.symbols_path == symbols_path,
            r.timeout_secs == env_timeout_spec(timeout),
            r.init_timeout_secs == 120,
            r.verbose == env_verbose_spec(verbose),
    {
        let mut config = ServerConfig {
            cdb_path,
            symbols_path,
            timeout_secs: 30,
            init_timeout_secs: 120,
            verbose: false,
        };
        match timeout {
            Option::Some(t) => {
                match parse_u64(t.as_str()) {
                    Option::Some(v) => {
                        config.timeout_secs = v;
                    },
                    Option::None => {},
                }
            },
            Option::None => {},
        }
        match verbose {
            Option::Some(v) => {
                config.verbose = eq_ignore_ascii_case(v.as_str(), "true")
                    || eq_ignore_ascii_case(v.as_str(), "1");
            },
            Option::None => {},
        }
        config
    }
}

/// The tools the server offers.
#[derive(Debug, Clone, Copy, PartialEq, Eq, Structural)]
pub enum ToolKind {
    /// Open and analyze a crash dump file.
    OpenWindbgDump,
    /// Connect to a remote debugging target.
    OpenWindbgRemote,
    /// Run one command in an existing session.
    RunWindbgCmd,
    /// Close a dump session.
    CloseWindbgDump,
    /// Close a remote session.
    CloseWindbgRemote,
    /// List dump files in a directory.
    ListWindbgDumps,
}

/// The tool a request names, if the name is known.
pub fn parse_tool_name(name: &str) -> (r: Option<ToolKind>)
    ensures
        (r == Some(ToolKind::OpenWindbgDump)) <==> name@ == "open_windbg_dump"@,
        (r == Some(ToolKind::OpenWindbgRemote)) <==> name@ == "open_windbg_remote"@,
        (r == Some(ToolKind::RunWindbgCmd)) <==> name@ == "run_windbg_cmd"@,
        (r == Some(ToolKind::CloseWindbgDump)) <==> name@ == "close_windbg_dump"@,
        (r == Some(ToolKind::CloseWindbgRemote)) <==> name@ == "close_windbg_remote"@,
        (r == Some(ToolKind::ListWindbgDumps)) <==> name@ == "list_windbg_dumps"@,
{
    proof {
        reveal_strlit("open_windbg_dump");
        reveal_strlit("open_windbg_remote");
        reveal_strlit("run_windbg_cmd");
        reveal_strlit("close_windbg_dump");
        reveal_strlit("close_windbg_remote");
        reveal_strlit("list_windbg_dumps");
        assert("open_windbg_dump"@.len() == 16);
        assert("open_windbg_remote"@.len() == 18);
        assert("run_windbg_cmd"@.len() == 14);
        assert("close_windbg_dump"@.len() == 17);
        assert("close_windbg_remote"@.len() == 19);
        assert("list_windbg_dumps"@.len() == 17);
        assert("close_windbg_dump"@[0] == 'c' && "list_windbg_dumps"@[0] == 'l');
    }
    if str_eq(name, "open_windbg_dump") {
        Some(ToolKind::OpenWindbgDump)
    } else if str_eq(name, "open_windbg_remote") {
        Some(ToolKind::OpenWindbgRemote)
    } else if str_eq(name, "run_windbg_cmd") {
        Some(ToolKind::RunWindbgCmd)
    } else if str_eq(name, "close_windbg_dump") {
        Some(ToolKind::CloseWindbgDump)
    } else if str_eq(name, "close_windbg_remote") {
        Some(ToolKind::CloseWindbgRemote)
    } else if str_eq(name, "list_windbg_dumps") {
        Some(ToolKind::ListWindbgDumps)
    } else {
        None
    }
}

/// The fields of one tool definition, pinned by view.
pub open spec fn tool_def_is(
    t: ToolDefinition,
    name: Seq<char>,
    description: Seq<char>,
    schema: Seq<char>,
) -> bool {
    t.name@ == name && t.description@ == description && t.input_schema@ == schema
}

/// Parameter schema of the open-dump tool.
pub const OPEN_DUMP_SCHEMA: &'static str = r#"{"type":"object","properties":{"dump_path":{"type":"string","description":"Path to the dump file"},"include_stack_trace":{"type":"boolean","description":"Whether to include stack trace","default":false},"include_modules":{"type":"boolean","description":"Whether to include module list","default":false},"include_threads":{"type":"boolean","description":"Whether to include thread list","default":false}},"required":["dump_path"]}"#;

/// Parameter schema of the open-remote tool.
pub const OPEN_REMOTE_SCHEMA: &'static str = r#"{"type":"object","properties":{"connection_string":{"type":"string","description":"Remote connection string (e.g., tcp:Port=5005,Server=192.168.0.100)"},"include_stack_trace":{"type":"boolean","description":"Whether to include stack trace","default":false},"include_modules":{"type":"boolean","description":"Whether to include module list","default":false},"include_threads":{"type":"boolean","description":"Whether to include thread list","default":false}},"required":["connection_string"]}"#;

/// Parameter schema of the run-command tool.
pub const RUN_CMD_SCHEMA: &'static str = r#"{"type":"object","properties":{"dump_path":{"type":"string","description":"Dump file path (mutually exclusive with connection_string)"},"connection_string":{"type":"string","description":"Remote connection string (mutually exclusive with dump_path)"},"command":{"type":"string","description":"WinDbg command to execute"}},"required":["command"]}"#;

/// Parameter schema of the close-dump tool.
pub const CLOSE_DUMP_SCHEMA: &'static str = r#"{"type":"object","properties":{"dump_path":{"type":"string","description":"Path to the dump file to close"}},"required":["dump_path"]}"#;

/// Parameter schema of the close-remote tool.
pub const CLOSE_REMOTE_SCHEMA: &'static str = r#"{"type":"object","properties":{"connection_string":{"type":"string","description":"Remote connection string to close"}},"required":["connection_string"]}"#;

/// Parameter schema of the list-dumps tool.
pub const LIST_DUMPS_SCHEMA: &'static str = r#"{"type":"object","properties":{"directory_path":{"type":"string","description":"Directory path to search (optional, defaults to system dump directory)"},"recursive":{"type":"boolean","description":"Whether to recursively search subdirectories","default":false}}}"#;

/// The tools the server offers, in catalogue order, each with its name,
/// description and parameter schema.
pub fn list_tools() -> (r: Vec<ToolDefinition>)
    ensures
        r@.len() == 6,
        tool_def_is(
            r@[0],
            "open_windbg_dump"@,
            "Open and analyze Windows crash dump files"@,
            OPEN_DUMP_SCHEMA@,
        ),
        tool_def_is(
            r@[1],
            "open_windbg_remote"@,
            "Connect to a remote debugging session"@,
            OPEN_REMOTE_SCHEMA@,
        ),
        tool_def_is(
            r@[2],
            "run_windbg_cmd"@,
            "Execute WinDbg commands in an existing session"@,
            RUN_CMD_SCHEMA@,
        ),
        tool_def_is(
            r@[3],
            "close_windbg_dump"@,
            "Close a dump file session"@,
            CLOSE_DUMP_SCHEMA@,
        ),
        tool_def_is(
            r@[4],
            "close_windbg_remote"@,
            "Close a remote debugging session"@,
            CLOSE_REMOTE_SCHEMA@,
        ),
        tool_def_is(
            r@[5],
            "list_windbg_dumps"@,
            "List dump files in a directory"@,
            LIST_DUMPS_SCHEMA@,
        ),
{
    let mut r: Vec<ToolDefinition> = Vec::new();
    r.push(ToolDefinition {
        name: String::from_str("open_windbg_dump"),
        description: String::from_str("Open and analyze Windows crash dump files"),
        input_schema: String::from_str(OPEN_DUMP_SCHEMA),
    });
    r.push(ToolDefinition {
        name: String::from_str("open_windbg_remote"),
        description: String::from_str("Connect to a remote debugging session"),
        input_schema: String::from_str(OPEN_REMOTE_SCHEMA),
    });
    r.push(ToolDefinition {
        name: String::from_str("run_windbg_cmd"),
        description: String::from_str("Execute WinDbg commands in an existing session"),
        input_schema: String::from_str(RUN_CMD_SCHEMA),
    });
    r.push(ToolDefinition {
        name: String::from_str("close_windbg_dump"),
        description: String::from_str("Close a dump file session"),
        input_schema: String::from_str(CLOSE_DUMP_SCHEMA),
    });
    r.push(ToolDefinition {
        name: String::from_str("close_windbg_remote"),
        description: String::from_str("Close a remote debugging session"),
        input_schema: String::from_str(CLOSE_REMOTE_SCHEMA),
    });
    r.push(ToolDefinition {
        name: String::from_str("list_windbg_dumps"),
        description: String::from_str("List dump files in a directory"),
        input_schema: String::from_str(LIST_DUMPS_SCHEMA),
    });
    r
}

} // verus!
