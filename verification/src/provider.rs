//! The provider abstraction: what one external CLI call is given and what
//! it returns, and the exact command lines the two provider kinds get.
//!
//! Spawning and awaiting the process happens outside the library; the
//! functions here decide everything that is passed to it: the full prompt
//! with the file list, and the argument list including session handling.

use vstd::prelude::*;
use crate::config::{Config, Provider, Reviewer};
use crate::jsonvalue::{parse_json_value, value_get, value_as_string};
use crate::strutil::{string_of, chars_of, string_chars};
use crate::text::extend_chars;

verus! {

/// What one provider call returned.
#[derive(Debug, Clone)]
pub struct ProviderOutput {
    pub stdout: String,
    pub stderr: String,
    pub duration_ms: u64,
    pub exit_code: i32,
    /// A provider-minted session id, surfaced so the caller can adopt it.
    pub session_id: Option<String>,
}

/// Session continuity across the chunks of one unit.
#[derive(Debug, Clone)]
pub struct SessionInfo {
    pub session_id: Option<String>,
    /// Resume the identifier rather than starting a fresh, named session.
    pub is_resume: bool,
}

/// Provider settings for a call made outside any unit.
#[derive(Debug, Clone)]
pub struct ProviderConfig {
    pub binary: String,
    pub model: String,
    pub tools: Vec<String>,
    pub permission_mode: String,
}

/// The session-id-taking runner's settings.
#[derive(Debug, Clone)]
pub struct ClaudeRunner {
    pub binary: String,
    pub model: String,
    pub tools: Vec<String>,
    pub permission_mode: String,
    pub working_dir: String,
}

/// The stdin-fed runner's settings.
#[derive(Debug, Clone)]
pub struct CodexRunner {
    pub binary: String,
    pub model: String,
    pub working_dir: String,
}

/// One of the two runner kinds.
#[derive(Debug, Clone)]
pub enum AnyRunner {
    Claude(ClaudeRunner),
    Codex(CodexRunner),
}

/// Creates the runner for a unit from the run configuration.
pub fn create_runner(config: &Config, reviewer: &Reviewer) -> (r: AnyRunner)
    ensures
        reviewer.provider == Provider::ClaudeCli ==> (r matches AnyRunner::Claude(c)
            && c.binary@ == config.providers.claude_cli.binary@ && c.model@
            == config.providers.claude_cli.model@ && c.tools@
            == config.providers.claude_cli.tools@ && c.permission_mode@
            == config.providers.claude_cli.permission_mode@ && c.working_dir@ == config.target@),
        reviewer.provider == Provider::CodexCli ==> (r matches AnyRunner::Codex(c) && c.binary@
            == config.providers.codex_cli.binary@ && c.model@ == config.providers.codex_cli.model@
            && c.working_dir@ == config.target@),
{
    match reviewer.provider {
        Provider::ClaudeCli => AnyRunner::Claude(
            ClaudeRunner {
                binary: config.providers.claude_cli.binary.clone(),
                model: config.providers.claude_cli.model.clone(),
                tools: crate::discovery::clone_strings(&config.providers.claude_cli.tools),
                permission_mode: config.providers.claude_cli.permission_mode.clone(),
                working_dir: config.target.clone(),
            },
        ),
        Provider::CodexCli => AnyRunner::Codex(
            CodexRunner {
                binary: config.providers.codex_cli.binary.clone(),
                model: config.providers.codex_cli.model.clone(),
                working_dir: config.target.clone(),
            },
        ),
    }
}

/// Creates a runner for a bare provider choice; the working directory is
/// the current one.
pub fn create_runner_for_provider(provider: Provider, config: ProviderConfig) -> (r: AnyRunner)
    ensures
        provider == Provider::ClaudeCli ==> (r matches AnyRunner::Claude(c) && c.binary@
            == config.binary@ && c.model@ == config.model@ && c.tools@ == config.tools@
            && c.permission_mode@ == config.permission_mode@ && c.working_dir@ == "."@),
        provider == Provider::CodexCli ==> (r matches AnyRunner::Codex(c) && c.binary@
            == config.binary@ && c.model@ == config.model@ && c.working_dir@ == "."@),
{
    match provider {
        Provider::ClaudeCli => AnyRunner::Claude(
            ClaudeRunner {
                binary: config.binary,
                model: config.model,
                tools: config.tools,
                permission_mode: config.permission_mode,
                working_dir: string_of(&chars_of(".")),
            },
        ),
        Provider::CodexCli => AnyRunner::Codex(
            CodexRunner {
                binary: config.binary,
                model: config.model,
                working_dir: string_of(&chars_of(".")),
            },
        ),
    }
}

/// Strings joined by one separator character.
pub open spec fn join_char(items: Seq<String>, sep: char) -> Seq<char>
    decreases items.len(),
{
    if items.len() == 0 {
        Seq::empty()
    } else if items.len() == 1 {
        items[0]@
    } else {
        join_char(items.drop_last(), sep) + seq![sep] + items.last()@
    }
}

/// Joins strings with one separator character.
pub fn join_char_exec(items: &Vec<String>, sep: char) -> (r: String)
    ensures
        r@ == join_char(items@, sep),
{
    let n = items.len();
    let mut out: Vec<char> = Vec::new();
    let mut i: usize = 0;
    proof {
        assert(items@.take(0) =~= Seq::<String>::empty());
    }
    while i < n
        invariant
            0 <= i <= n == items@.len(),
            out@ == join_char(items@.take(i as int), sep),
        decreases n - i,
    {
        if i > 0 {
            out.push(sep);
        }
        let item = string_chars(&items[i]);
        extend_chars(&mut out, &item);
        i = i + 1;
        proof {
            let t = items@.take(i as int);
            assert(t.drop_last() =~= items@.take(i - 1));
            assert(t.last() == items@[i - 1]);
            assert(out@ =~= join_char(t, sep));
        }
    }
    proof {
        assert(items@.take(n as int) =~= items@);
    }
    string_of(&out)
}

/// The full prompt of a provider call: the prompt followed by the fenced
/// file list.
pub open spec fn full_prompt_spec(prompt: Seq<char>, files: Seq<String>) -> Seq<char> {
    prompt + "\n\n## Files to Analyze\n```\n"@ + join_char(files, '\n') + "\n```"@
}

/// Builds the full prompt of a provider call.
pub fn build_full_prompt(prompt: &str, files: &Vec<String>) -> (r: String)
    ensures
        r@ == full_prompt_spec(prompt@, files@),
{
    let mut out = chars_of(prompt);
    let p1 = chars_of("\n\n## Files to Analyze\n```\n");
    extend_chars(&mut out, &p1);
    let list = join_char_exec(files, '\n');
    let list_chars = string_chars(&list);
    extend_chars(&mut out, &list_chars);
    let p2 = chars_of("\n```");
    extend_chars(&mut out, &p2);
    proof {
        assert(out@ =~= full_prompt_spec(prompt@, files@));
    }
    string_of(&out)
}

/// The argument list of a session-id-taking call: the session arguments when a
/// handle is given (`--resume` to continue it, `--session-id` to start it
/// under that name), then the prompt and the fixed flags.
pub open spec fn claude_args_spec(
    full_prompt: Seq<char>,
    model: Seq<char>,
    tools_joined: Seq<char>,
    permission_mode: Seq<char>,
    session: Option<SessionInfo>,
) -> Seq<Seq<char>> {
    (match session {
        Some(si) => match si.session_id {
            Some(sid) => if si.is_resume {
                seq!["--resume"@, sid@]
            } else {
                seq!["--session-id"@, sid@]
            },
            None => Seq::empty(),
        },
        None => Seq::empty(),
    }) + seq![
        "-p"@,
        full_prompt,
        "--model"@,
        model,
        "--output-format"@,
        "json"@,
        "--allowedTools"@,
        tools_joined,
        "--permission-mode"@,
        permission_mode,
    ]
}

impl ClaudeRunner {
    /// Builds the argument list for one call, per `claude_args_spec`,
    /// with the tools joined by commas.
    pub fn build_args(&self, full_prompt: &str, session: &Option<SessionInfo>) -> (r: Vec<String>)
        ensures
            ({
                let spec_args = claude_args_spec(
                    full_prompt@,
                    self.model@,
                    join_char(self.tools@, ','),
                    self.permission_mode@,
                    *session,
                );
                r@.len() == spec_args.len() && (forall|k: int|
                    0 <= k < r@.len() ==> r@[k]@ == spec_args[k])
            }),
    {
        let mut args: Vec<String> = Vec::new();
        match session {
            Some(si) => {
                match &si.session_id {
                    Some(sid) => {
                        if si.is_resume {
                            args.push(string_of(&chars_of("--resume")));
                            args.push(sid.clone());
                        } else {
                            args.push(string_of(&chars_of("--session-id")));
                            args.push(sid.clone());
                        }
                    },
                    None => {},
                }
            },
            None => {},
        }
        args.push(string_of(&chars_of("-p")));
        args.push(string_of(&chars_of(full_prompt)));
        args.push(string_of(&chars_of("--model")));
        args.push(self.model.clone());
        args.push(string_of(&chars_of("--output-format")));
        args.push(string_of(&chars_of("json")));
        args.push(string_of(&chars_of("--allowedTools")));
        args.push(join_char_exec(&self.tools, ','));
        args.push(string_of(&chars_of("--permission-mode")));
        args.push(self.permission_mode.clone());
        args
    }
}

/// The argument list of a stdin-fed call. A resumed session is
/// `exec resume <id>`; a fresh call is `exec --model <model> --json
/// --output-last-message <path>` with the caller-supplied capture path.
/// Both end with `-`, reading the prompt from standard input.
pub open spec fn codex_args_spec(
    model: Seq<char>,
    session: Option<SessionInfo>,
    out_path: Option<String>,
) -> Seq<Seq<char>> {
    let is_resume = match session {
        Some(si) => si.is_resume,
        None => false,
    };
    (if is_resume {
        seq!["exec"@, "resume"@] + (match session {
            Some(si) => match si.session_id {
                Some(sid) => seq![sid@],
                None => Seq::empty(),
            },
            None => Seq::empty(),
        })
    } else {
        seq!["exec"@, "--model"@, model, "--json"@] + (match out_path {
            Some(p) => seq!["--output-last-message"@, p@],
            None => Seq::empty(),
        })
    }) + seq!["-"@]
}

impl CodexRunner {
    /// Builds the argument list for one call, per `codex_args_spec`.
    pub fn build_args(&self, session: &Option<SessionInfo>, out_path: &Option<String>) -> (r: Vec<
        String,
    >)
        ensures
            ({
                let spec_args = codex_args_spec(self.model@, *session, *out_path);
                r@.len() == spec_args.len() && (forall|k: int|
                    0 <= k < r@.len() ==> r@[k]@ == spec_args[k])
            }),
    {
        let mut args: Vec<String> = Vec::new();
        let is_resume = match session {
            Some(si) => si.is_resume,
            None => false,
        };
        if is_resume {
            args.push(string_of(&chars_of("exec")));
            args.push(string_of(&chars_of("resume")));
            match session {
                Some(si) => {
                    match &si.session_id {
                        Some(sid) => {
                            args.push(sid.clone());
                        },
                        None => {},
                    }
                },
                None => {},
            }
        } else {
            args.push(string_of(&chars_of("exec")));
            args.push(string_of(&chars_of("--model")));
            args.push(self.model.clone());
            args.push(string_of(&chars_of("--json")));
            match out_path {
                Some(p) => {
                    args.push(string_of(&chars_of("--output-last-message")));
                    args.push(p.clone());
                },
                None => {},
            }
        }
        args.push(string_of(&chars_of("-")));
        args
    }
}

/// Scans JSON-lines output for a provider-minted session id: every line
/// that parses as JSON is consulted for a `thread_id` string, and the
/// last one found wins. Lines that are not JSON, or JSON without the
/// field, are passed over.
pub fn extract_thread_id(stdout: &str) -> (r: Option<String>) {
    let chars = chars_of(stdout);
    let lines = crate::markdown::split_lines_exec(&chars);
    let n = lines.len();
    let mut found: Option<String> = None;
    let mut i: usize = 0;
    while i < n
        invariant
            0 <= i <= n == lines@.len(),
        decreases n - i,
    {
        let line = string_of(&lines[i]);
        match parse_json_value(line.as_str()) {
            Some(value) => {
                match value_get(&value, "thread_id") {
                    Some(tid) => {
                        match value_as_string(tid) {
                            Some(s) => {
                                found = Some(s);
                            },
                            None => {},
                        }
                    },
                    None => {},
                }
            },
            None => {},
        }
        i = i + 1;
    }
    found
}

} // verus!
