//! What a handler decides when it runs the provisioning tool as a
//! subprocess: which files to stage, which command to start, what to do with
//! each line of output, and what to report when the process ends. Starting
//! the process and reading its streams is left to the caller.
use vstd::prelude::*;
use crate::kernel::context::NyaContext;
use crate::json::{put, Json, JsonView};
use crate::codec::{compact_form, debug, debug_form, pretty_form, to_string, to_string_pretty};
use crate::embedded::{BIND9_DB, NAMED_CONF_LOCAL, NAMED_CONF_OPTIONS, REGISTRIES};
use crate::kernel::context::value_at;
use crate::pattern::{capture, compile, compiles, named_capture, source_of};
use crate::text::{decimal, decimal_text, join2, lemma_decimal_injective, texts};
use vstd::string::StringExecFns;

verus! {

/// The pattern that finds the join token in a line of output.
pub const TOKEN_PATTERN: &'static str = "K3S_TOKEN=(?P<token>[A-Za-z0-9:\\.]+)";

/// The name of the capture group that holds the token.
pub const TOKEN_GROUP: &'static str = "token";

/// The context key under which the join token is stored.
pub const TOKEN_KEY: &'static str = "k3s_node_token";

/// Finds the join token in lines of output.
pub struct TokenScanner {
    pattern: regex::Regex,
}

impl TokenScanner {
    #[verifier::type_invariant]
    spec fn holds_token_pattern(self) -> bool {
        source_of(self.pattern) == TOKEN_PATTERN@
    }

    /// A scanner for [`TOKEN_PATTERN`]; `None` where the pattern does not
    /// compile.
    pub fn new() -> (r: Option<TokenScanner>)
        ensures
            r is Some <==> compiles(TOKEN_PATTERN@),
    {
        match compile(TOKEN_PATTERN) {
            Some(pattern) => Some(TokenScanner { pattern }),
            None => None,
        }
    }

    /// The token that the line announces, if it announces one.
    pub fn scan(&self, line: &str) -> (r: Option<String>)
        ensures
            match named_capture(TOKEN_PATTERN@, TOKEN_GROUP@, line@) {
                Some(token) => r matches Some(t) && t@ == token,
                None => r is None,
            },
    {
        proof {
            use_type_invariant(self);
        }
        capture(&self.pattern, TOKEN_GROUP, line)
    }
}

/// Takes in one line of the process's standard output: a line that announces
/// a token has the token stored under [`TOKEN_KEY`]; any other line leaves the
/// context as it was. The result is the text to forward to the log, which is
/// the line itself.
pub fn on_stdout_line(context: &mut NyaContext, captured: Option<String>, line: &str) -> (log:
    String)
    ensures
        log@ == line@,
        final(context)@ == match captured {
            Some(token) => old(context)@.insert(TOKEN_KEY@, JsonView::String(token@)),
            None => old(context)@,
        },
{
    match captured {
        Some(token) => {
            context.set(TOKEN_KEY, Json::String(token));
        },
        None => {},
    }
    line.to_owned()
}

/// Takes in one line of the process's standard output as it was read: the
/// line is tested for a token, and all else is as in [`on_stdout_line`].
pub fn pump_stdout_line(scanner: &TokenScanner, context: &mut NyaContext, line: &str) -> (log:
    String)
    ensures
        log@ == line@,
        final(context)@ == match named_capture(TOKEN_PATTERN@, TOKEN_GROUP@, line@) {
            Some(token) => old(context)@.insert(TOKEN_KEY@, JsonView::String(token)),
            None => old(context)@,
        },
{
    let captured = scanner.scan(line);
    on_stdout_line(context, captured, line)
}

/// Which of the two output streams of the process have come to their end.
///
/// Both streams are read side by side, each line by line. The exit of the
/// process is waited for only when both have been read to the end, so that
/// no output is lost.
#[derive(Debug, Clone, Copy, PartialEq, Eq, Structural)]
pub struct Supervision {
    pub stdout_ended: bool,
    pub stderr_ended: bool,
}

/// One of the two output streams of the process.
#[derive(Debug, Clone, Copy, PartialEq, Eq, Structural)]
pub enum Output {
    Stdout,
    Stderr,
}

impl Supervision {
    /// The supervision of a process that has just been started: both streams
    /// are open.
    pub fn new() -> (r: Supervision)
        ensures
            r == (Supervision { stdout_ended: false, stderr_ended: false }),
    {
        Supervision { stdout_ended: false, stderr_ended: false }
    }

    /// Takes in that a stream has come to its end.
    pub fn ended(self, output: Output) -> (r: Supervision)
        ensures
            r == match output {
                Output::Stdout => (Supervision { stdout_ended: true, ..self }),
                Output::Stderr => (Supervision { stderr_ended: true, ..self }),
            },
    {
        match output {
            Output::Stdout => Supervision { stdout_ended: true, stderr_ended: self.stderr_ended },
            Output::Stderr => Supervision { stdout_ended: self.stdout_ended, stderr_ended: true },
        }
    }

    /// Whether the exit of the process may be waited for: both streams have
    /// come to their end.
    pub fn may_await_exit(&self) -> (r: bool)
        ensures
            r == (self.stdout_ended && self.stderr_ended),
    {
        self.stdout_ended && self.stderr_ended
    }
}

/// Takes in one line of the process's standard error: the text to forward to
/// the log, which is the line itself.
pub fn on_stderr_line(line: &str) -> (log: String)
    ensures
        log@ == line@,
{
    line.to_owned()
}

/// Hands out the numbers by which the invocations of the provisioning tool
/// are told apart: each number once, counted up from zero.
pub struct Invocations {
    issued: u64,
}

impl Invocations {
    /// How many numbers have been handed out.
    pub closed spec fn issued(&self) -> nat {
        self.issued as nat
    }

    /// The counter from which no number has been handed out.
    pub fn new() -> (r: Invocations)
        ensures
            r.issued() == 0,
    {
        Invocations { issued: 0 }
    }

    /// The number of the next invocation: the count of the numbers handed out
    /// before, so that it differs from each of them. `None` where the numbers
    /// have run out; the counter is then left as it was.
    pub fn fresh(&mut self) -> (id: Option<u64>)
        ensures
            match id {
                Some(number) => number == old(self).issued() && final(self).issued() == old(
                    self,
                ).issued() + 1,
                None => old(self).issued() == u64::MAX && final(self).issued() == old(
                    self,
                ).issued(),
            },
    {
        if self.issued < u64::MAX {
            let number = self.issued;
            self.issued = number + 1;
            Some(number)
        } else {
            None
        }
    }
}

/// The name of the file that holds the inventory of the invocation with the
/// given number, inside the directory for temporary files.
pub open spec fn inventory_name(invocation: nat) -> Seq<char> {
    "inventory-"@ + decimal(invocation) + ".json"@
}

/// The name of the inventory file of an invocation.
pub fn inventory_file_name(invocation: u64) -> (r: String)
    ensures
        r@ == inventory_name(invocation as nat),
{
    let mut out = join2("inventory-", decimal_text(invocation).as_str());
    out.append(".json");
    out
}

/// Two invocations with different numbers write their inventories to files of
/// different names, so neither overwrites the other's.
pub proof fn law_inventory_names_differ(a: nat, b: nat)
    requires
        a != b,
    ensures
        inventory_name(a) != inventory_name(b),
{
    if inventory_name(a) == inventory_name(b) {
        let prefix = "inventory-"@;
        let suffix = ".json"@;
        let da = decimal(a);
        let db = decimal(b);
        assert((prefix + da + suffix).len() == prefix.len() + da.len() + suffix.len());
        assert((prefix + db + suffix).len() == prefix.len() + db.len() + suffix.len());
        assert(da.len() == db.len());
        assert(da =~= (prefix + da + suffix).subrange(
            prefix.len() as int,
            (prefix.len() + da.len()) as int,
        ));
        assert(db =~= (prefix + db + suffix).subrange(
            prefix.len() as int,
            (prefix.len() + db.len()) as int,
        ));
        lemma_decimal_injective(a, b);
    }
}

/// What is to be done about the inventory of one step.
#[derive(Debug, PartialEq)]
pub enum Staging {
    /// The text is to be written to the file of this name.
    Write { file_name: String, content: String },
    /// The inventory cannot be written down; the message goes to the log, and
    /// the step goes on with an empty inventory path.
    Skip { log: String },
}

/// What `setup_temp_inventory` decides for a context, a key and the number of
/// the invocation.
pub open spec fn staging_of(
    context: Map<Seq<char>, JsonView>,
    key: Seq<char>,
    invocation: nat,
) -> StagingView {
    match pretty_form(value_at(context, key)) {
        Ok(text) => StagingView::Write { file_name: inventory_name(invocation), content: text },
        Err(message) => StagingView::Skip { log: "Couldn't read inventory: "@ + message },
    }
}

/// The mathematical model of a [`Staging`].
pub enum StagingView {
    Write { file_name: Seq<char>, content: Seq<char> },
    Skip { log: Seq<char> },
}

impl View for Staging {
    type V = StagingView;

    open spec fn view(&self) -> StagingView {
        match self {
            Staging::Write { file_name, content } => StagingView::Write {
                file_name: file_name@,
                content: content@,
            },
            Staging::Skip { log } => StagingView::Skip { log: log@ },
        }
    }
}

/// Stages the inventory of one invocation: the value stored under `key`,
/// written as indented JSON text, goes to a file of the invocation's own,
/// named after its number. The text never stands on the command line.
pub fn setup_temp_inventory(context: &NyaContext, key: &str, invocation: u64) -> (r: Staging)
    ensures
        r@ == staging_of(context@, key@, invocation as nat),
{
    let inventory = context.get(key);
    match to_string_pretty(&inventory) {
        Ok(content) => Staging::Write { file_name: inventory_file_name(invocation), content },
        Err(message) => Staging::Skip { log: join2("Couldn't read inventory: ", message.as_str()) },
    }
}

/// The message for the log when the inventory file could not be written.
pub fn inventory_write_failed(reason: &str) -> (log: String)
    ensures
        log@ == "Failed to create temp inventory file: "@ + reason@,
{
    join2("Failed to create temp inventory file: ", reason)
}

/// The variables of a step as one compact JSON text, as a specification: the
/// text of the value, or `{}` where the value cannot be written.
pub open spec fn vars_text(vars: JsonView) -> Seq<char> {
    match compact_form(vars) {
        Ok(text) => text,
        Err(_) => "{}"@,
    }
}

/// The variables stored under `key`, as the compact JSON text that is handed
/// to the process.
pub fn vars_json(context: &NyaContext, key: &str) -> (r: String)
    ensures
        r@ == vars_text(value_at(context@, key@)),
{
    let vars = context.get(key);
    compact_or_empty(&vars)
}

/// The compact JSON text of `vars`, or `{}` where it cannot be written.
pub fn compact_or_empty(vars: &Json) -> (r: String)
    ensures
        r@ == vars_text(vars@),
{
    match to_string(vars) {
        Ok(text) => text,
        Err(_) => "{}".to_owned(),
    }
}

/// The variables of the step that builds the nodes, and what the log is told
/// about them.
pub struct NodeVars {
    /// The variables as compact JSON text.
    pub json: String,
    /// The complaint for the log, where the token could not be added.
    pub log: Option<String>,
}

/// The variables of the nodes with the join token added, as a specification.
/// The token is added under [`TOKEN_KEY`] where the variables are an object
/// and the token is a string; otherwise the variables stay as they are.
pub open spec fn merged_vars(vars: JsonView, token: JsonView) -> JsonView {
    match (vars, token) {
        (JsonView::Object(entries), JsonView::String(text)) => JsonView::Object(
            put(entries, TOKEN_KEY@, JsonView::String(text)),
        ),
        _ => vars,
    }
}

/// The complaint that goes to the log where the token could not be added.
pub open spec fn merge_complaint(vars: JsonView, token: JsonView) -> Option<Seq<char>> {
    match vars {
        JsonView::Object(_) => match token {
            JsonView::String(_) => None,
            _ => Some("ERROR: k3s_token is not a String! Got: "@ + debug_form(token)),
        },
        _ => Some("ERROR: nya.nodes.vars is not an object! Got: "@ + debug_form(vars)),
    }
}

/// Adds the join token to the variables of the nodes and writes them down.
pub fn node_vars(vars: Json, token: Json) -> (r: NodeVars)
    ensures
        r.json@ == vars_text(merged_vars(vars@, token@)),
        match merge_complaint(vars@, token@) {
            Some(text) => r.log matches Some(log) && log@ == text,
            None => r.log is None,
        },
{
    if vars.is_object() {
        match token {
            Json::String(text) => {
                let merged = vars.with_member(TOKEN_KEY.to_owned(), Json::String(text));
                NodeVars { json: compact_or_empty(&merged), log: None }
            },
            other => {
                let shown = debug(&other);
                let log = join2("ERROR: k3s_token is not a String! Got: ", shown.as_str());
                NodeVars { json: compact_or_empty(&vars), log: Some(log) }
            },
        }
    } else {
        let shown = debug(&vars);
        let log = join2("ERROR: nya.nodes.vars is not an object! Got: ", shown.as_str());
        NodeVars { json: compact_or_empty(&vars), log: Some(log) }
    }
}

/// A file to write into the working directory of the process.
#[derive(Debug, PartialEq)]
pub struct StagedFile {
    pub name: String,
    pub content: String,
}

/// The name under which the playbook is written.
pub const PLAYBOOK_FILE: &'static str = "playbook.yml";

/// The files of one run, as a specification: the playbook first, then the
/// four templates, each under its file name.
pub open spec fn staged_files(playbook: Seq<char>) -> Seq<(Seq<char>, Seq<char>)> {
    seq![
        (PLAYBOOK_FILE@, playbook),
        ("bind9.db.j2"@, BIND9_DB@),
        ("named.conf.local.j2"@, NAMED_CONF_LOCAL@),
        ("named.conf.options.j2"@, NAMED_CONF_OPTIONS@),
        ("registries.yaml.j2"@, REGISTRIES@),
    ]
}

/// The files to write into the working directory before the process starts.
pub fn playbook_files(playbook: &str) -> (files: Vec<StagedFile>)
    ensures
        files@.len() == staged_files(playbook@).len(),
        forall|i: int|
            0 <= i < files@.len() ==> files@[i].name@ == (#[trigger] staged_files(playbook@)[i]).0
                && files@[i].content@ == staged_files(playbook@)[i].1,
{
    let mut files: Vec<StagedFile> = Vec::new();
    files.push(StagedFile { name: PLAYBOOK_FILE.to_owned(), content: playbook.to_owned() });
    files.push(StagedFile { name: "bind9.db.j2".to_owned(), content: BIND9_DB.to_owned() });
    files.push(
        StagedFile { name: "named.conf.local.j2".to_owned(), content: NAMED_CONF_LOCAL.to_owned() },
    );
    files.push(
        StagedFile {
            name: "named.conf.options.j2".to_owned(),
            content: NAMED_CONF_OPTIONS.to_owned(),
        },
    );
    files.push(StagedFile { name: "registries.yaml.j2".to_owned(), content: REGISTRIES.to_owned() });
    files
}

/// The directory that holds the control sockets of the multiplexed SSH
/// connections.
pub const CONTROL_DIR: &'static str = "/tmp/ssh";

/// The file name template of a control socket: short, so that the path of the
/// socket stays under the limit for socket paths.
pub const CONTROL_NAME: &'static str = "a%h-%p-%r";

/// The SSH options that make every connection to one host share one
/// multiplexed connection, as a specification.
pub open spec fn ssh_args_text(control_dir: Seq<char>) -> Seq<char> {
    "-o ControlMaster=auto -o ControlPersist=60s -o ControlPath="@ + control_dir + "/"@
        + CONTROL_NAME@
}

/// The SSH options for a control socket directory.
pub fn ssh_args(control_dir: &str) -> (r: String)
    ensures
        r@ == ssh_args_text(control_dir@),
{
    let mut out = "-o ControlMaster=auto -o ControlPersist=60s -o ControlPath=".to_owned();
    out.append(control_dir);
    out.append("/");
    out.append(CONTROL_NAME);
    out
}

/// What becomes of one of the three standard streams of the process.
#[derive(Debug, PartialEq, Eq, Structural)]
pub enum Stream {
    /// The stream is closed: the process reads nothing from it.
    Closed,
    /// The stream is captured and read line by line.
    Captured,
}

/// One variable of the environment of the process.
#[derive(Debug, PartialEq)]
pub struct EnvVar {
    pub name: String,
    pub value: String,
}

/// The command that starts the provisioning tool.
#[derive(Debug)]
pub struct Invocation {
    pub program: String,
    pub args: Vec<String>,
    pub current_dir: String,
    pub envs: Vec<EnvVar>,
    pub stdin: Stream,
    pub stdout: Stream,
    pub stderr: Stream,
}

/// The variables that are set for the process, as a specification: the SSH
/// options always, and the agent socket and the home directory where the
/// caller's own environment has them.
pub open spec fn environment(
    ssh_auth_sock: Option<Seq<char>>,
    home: Option<Seq<char>>,
) -> Seq<(Seq<char>, Seq<char>)> {
    seq![("ANSIBLE_SSH_ARGS"@, ssh_args_text(CONTROL_DIR@))] + (match ssh_auth_sock {
        Some(value) => seq![("SSH_AUTH_SOCK"@, value)],
        None => seq![],
    }) + (match home {
        Some(value) => seq![("HOME"@, value)],
        None => seq![],
    })
}

/// The names and values of a list of variables.
pub open spec fn env_pairs(envs: Seq<EnvVar>) -> Seq<(Seq<char>, Seq<char>)> {
    Seq::new(envs.len(), |i: int| (envs[i].name@, envs[i].value@))
}

/// The view of an optional string.
pub open spec fn opt_text(value: Option<String>) -> Option<Seq<char>> {
    match value {
        Some(text) => Some(text@),
        None => None,
    }
}

/// The command for one run of the provisioning tool: the playbook first among
/// the arguments, the working directory, the environment, standard input
/// closed and both output streams captured.
pub fn playbook_command(
    playbook_path: &str,
    cmd_args: Vec<String>,
    workdir: &str,
    ssh_auth_sock: Option<String>,
    home: Option<String>,
) -> (r: Invocation)
    ensures
        r.program@ == "ansible-playbook"@,
        texts(r.args@) == seq![playbook_path@] + texts(cmd_args@),
        r.current_dir@ == workdir@,
        env_pairs(r.envs@) == environment(opt_text(ssh_auth_sock), opt_text(home)),
        r.stdin == Stream::Closed,
        r.stdout == Stream::Captured,
        r.stderr == Stream::Captured,
{
    let mut args: Vec<String> = Vec::new();
    args.push(playbook_path.to_owned());
    let ghost given = texts(cmd_args@);
    let mut rest = cmd_args;
    args.append(&mut rest);
    assert(texts(args@) =~= seq![playbook_path@] + given);
    let mut envs: Vec<EnvVar> = Vec::new();
    envs.push(EnvVar { name: "ANSIBLE_SSH_ARGS".to_owned(), value: ssh_args(CONTROL_DIR) });
    match ssh_auth_sock {
        Some(value) => {
            envs.push(EnvVar { name: "SSH_AUTH_SOCK".to_owned(), value });
        },
        None => {},
    }
    match home {
        Some(value) => {
            envs.push(EnvVar { name: "HOME".to_owned(), value });
        },
        None => {},
    }
    assert(env_pairs(envs@) =~= environment(opt_text(ssh_auth_sock), opt_text(home)));
    Invocation {
        program: "ansible-playbook".to_owned(),
        args,
        current_dir: workdir.to_owned(),
        envs,
        stdin: Stream::Closed,
        stdout: Stream::Captured,
        stderr: Stream::Captured,
    }
}

/// The arguments that follow the playbook: the inventory file and the
/// variables.
pub fn step_args(inventory_path: &str, vars: &str) -> (args: Vec<String>)
    ensures
        texts(args@) == seq!["-i"@, inventory_path@, "-e"@, vars@],
{
    let mut args: Vec<String> = Vec::new();
    args.push("-i".to_owned());
    args.push(inventory_path.to_owned());
    args.push("-e".to_owned());
    args.push(vars.to_owned());
    assert(texts(args@) =~= seq!["-i"@, inventory_path@, "-e"@, vars@]);
    args
}

/// What the end of the process means for the step: a process that ended
/// without success is a failure of the step, told with its exit status.
pub fn exit_report(success: bool, status: &str) -> (r: Result<(), String>)
    ensures
        match r {
            Ok(_) => success,
            Err(message) => !success && message@ == "ansible-playbook failed with "@ + status@,
        },
{
    if success {
        Ok(())
    } else {
        Err(join2("ansible-playbook failed with ", status))
    }
}

/// The last message of a step for the log: the step's own message of success,
/// or the failure of the run.
pub fn step_report(outcome: &Result<(), String>, done: &str) -> (log: String)
    ensures
        log@ == match outcome {
            Ok(_) => done@,
            Err(message) => "Ansible failed: "@ + message@,
        },
{
    match outcome {
        Ok(_) => done.to_owned(),
        Err(message) => join2("Ansible failed: ", message.as_str()),
    }
}

} // verus!
