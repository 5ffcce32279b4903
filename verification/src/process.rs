//! What the owner needs to start the child, to tag what the child says, and
//! to end it.

use crate::model::Event;
use crate::supervisor::{outcome_view, Message};
use crate::text::{contains, decimal, occurs, push_decimal};
use vstd::prelude::*;
use vstd::string::StringExecFns;

verus! {

/// The description of one run of the child: the tag of the run, the program
/// and the secret key handed to it.
#[derive(Debug)]
pub struct ProcessListener {
    id: u64,
    path: String,
    api_key: String,
}

/// What a description of a run is to the contracts.
pub struct ListenerView {
    pub id: u64,
    pub path: Seq<char>,
    pub api_key: Seq<char>,
}

impl View for ProcessListener {
    type V = ListenerView;

    closed spec fn view(&self) -> ListenerView {
        ListenerView { id: self.id, path: self.path@, api_key: self.api_key@ }
    }
}

impl ProcessListener {
    /// The description of the run tagged `id` of the program at `path`
    /// with the key `api_key`.
    pub fn new(id: u64, path: String, api_key: String) -> (listener: ProcessListener)
        ensures
            listener@ == (ListenerView { id, path: path@, api_key: api_key@ }),
    {
        Self { id, path, api_key }
    }

    /// The tag of the run, which identifies it among all runs.
    pub fn id(&self) -> (id: u64)
        ensures
            id == self@.id,
    {
        self.id
    }

    /// The program to start.
    pub fn path(&self) -> (path: &String)
        ensures
            path@ == self@.path,
    {
        &self.path
    }

    /// The secret key.
    pub fn api_key(&self) -> (api_key: &String)
        ensures
            api_key@ == self@.api_key,
    {
        &self.api_key
    }

    /// The arguments that the program is started with: the flag `-k` and
    /// the key as its value.
    pub fn arguments(&self) -> (arguments: Vec<String>)
        ensures
            arguments.len() == 2,
            arguments[0]@ == "-k"@,
            arguments[1]@ == self@.api_key,
    {
        let mut arguments: Vec<String> = Vec::new();
        arguments.push(String::from_str("-k"));
        arguments.push(self.api_key.clone());
        arguments
    }
}

/// The event that a started child gives first: its process id, or the
/// failure to learn it.
pub fn pid_event(generation: u64, pid: Option<u32>) -> (message: Message)
    ensures
        message@ == match pid {
            Some(pid) => Event::ProcessActualPid(generation, pid),
            None => Event::ProcessError(
                generation,
                "Не удалось получить PID запущенного процесса."@,
            ),
        },
{
    match pid {
        Some(pid) => Message::ProcessActualPid(generation, pid),
        None => Message::ProcessError(
            generation,
            String::from_str("Не удалось получить PID запущенного процесса."),
        ),
    }
}

/// What the log says when the program at `path` could not be started.
pub open spec fn text_spawn_failed(path: Seq<char>, error: Seq<char>) -> Seq<char> {
    "Ошибка запуска процесса \""@ + path + "\": "@ + error
}

/// The event of a child that could not be started.
pub fn spawn_failure(generation: u64, path: &str, error: &str) -> (message: Message)
    ensures
        message@ == Event::ProcessError(generation, text_spawn_failed(path@, error@)),
{
    let mut text = String::from_str("Ошибка запуска процесса \"");
    text.append(path);
    text.append("\": ");
    text.append(error);
    Message::ProcessError(generation, text)
}

/// The event of a line that the child wrote to its standard output.
pub fn stdout_event(generation: u64, line: String) -> (message: Message)
    ensures
        message@ == Event::ProcessOutput(generation, line@),
{
    Message::ProcessOutput(generation, line)
}

/// The event of a line that the child wrote to its standard error: the
/// line is marked as such before it is parsed.
pub fn stderr_event(generation: u64, line: &str) -> (message: Message)
    ensures
        message@ == Event::ProcessOutput(generation, "STDERR: "@ + line@),
{
    let mut text = String::from_str("STDERR: ");
    text.append(line);
    Message::ProcessOutput(generation, text)
}

/// The event of a child that has exited: with its exit code, or with -1
/// where it ended without one.
pub fn exit_event(generation: u64, code: Option<i32>) -> (message: Message)
    ensures
        message@ == Event::ProcessTerminated(
            generation,
            match code {
                Some(code) => code,
                None => -1i32,
            },
        ),
{
    match code {
        Some(code) => Message::ProcessTerminated(generation, code),
        None => Message::ProcessTerminated(generation, -1),
    }
}

/// What the log says when waiting for the child failed.
pub open spec fn text_wait_failed(pid: u32, error: Seq<char>) -> Seq<char> {
    "Ошибка ожидания процесса PID "@ + decimal(pid as nat) + ": "@ + error
}

/// The event of a child whose exit could not be awaited.
pub fn wait_failure(generation: u64, pid: u32, error: &str) -> (message: Message)
    ensures
        message@ == Event::ProcessError(generation, text_wait_failed(pid, error@)),
{
    let mut text = String::from_str("Ошибка ожидания процесса PID ");
    push_decimal(&mut text, pid as u64);
    text.append(": ");
    text.append(error);
    Message::ProcessError(generation, text)
}

/// The kind of system that the launcher runs on.
#[derive(Clone, Copy, Debug, PartialEq, Eq, Structural)]
pub enum Platform {
    Unix,
    Windows,
    Other,
}

impl Platform {
    /// The command that ends a process by force, if the system has one.
    pub open spec fn program(self) -> Option<Seq<char>> {
        match self {
            Platform::Unix => Some("kill"@),
            Platform::Windows => Some("taskkill"@),
            Platform::Other => None,
        }
    }

    /// What the command writes to its standard error when the process that
    /// it was to end does not exist.
    pub open spec fn missing_mark(self) -> Seq<char> {
        match self {
            Platform::Windows => "not found"@,
            _ => "No such process"@,
        }
    }
}

/// The command line that ends the process `pid` by force: the program,
/// then its arguments.
pub open spec fn kill_line(pid: u32, platform: Platform) -> Option<Seq<Seq<char>>> {
    match platform {
        Platform::Unix => Some(seq!["kill"@, decimal(pid as nat)]),
        Platform::Windows => Some(seq!["taskkill"@, "/F"@, "/PID"@, decimal(pid as nat)]),
        Platform::Other => None,
    }
}

/// The views of a sequence of strings, in order.
pub open spec fn string_views(strings: Seq<String>) -> Seq<Seq<char>> {
    strings.map_values(|string: String| string@)
}

/// The command line that ends the process `pid` by force, where the
/// system has one.
pub fn kill_command(pid: u32, platform: Platform) -> (line: Option<Vec<String>>)
    ensures
        line is Some <==> kill_line(pid, platform) is Some,
        line matches Some(words) ==> Some(string_views(words@)) == kill_line(pid, platform),
{
    let mut number = String::new();
    push_decimal(&mut number, pid as u64);
    assert(number@ =~= decimal(pid as nat));
    let mut words: Vec<String> = Vec::new();
    match platform {
        Platform::Unix => {
            words.push(String::from_str("kill"));
            words.push(number);
            assert(string_views(words@) =~= seq!["kill"@, decimal(pid as nat)]);
            Some(words)
        },
        Platform::Windows => {
            words.push(String::from_str("taskkill"));
            words.push(String::from_str("/F"));
            words.push(String::from_str("/PID"));
            words.push(number);
            assert(string_views(words@) =~= seq![
                "taskkill"@,
                "/F"@,
                "/PID"@,
                decimal(pid as nat),
            ]);
            Some(words)
        },
        Platform::Other => None,
    }
}

/// How the attempt to run the kill command went.
#[derive(Debug)]
pub enum KillReport {
    /// The command could not be run; the text says why.
    NotIssued(String),
    /// The command ran: whether it reported success, its exit status in
    /// words, and what it wrote to its standard error.
    Finished { success: bool, status: String, stderr: String },
}

/// What a report is to the contracts.
pub enum KillReportView {
    NotIssued(Seq<char>),
    Finished { success: bool, status: Seq<char>, stderr: Seq<char> },
}

impl View for KillReport {
    type V = KillReportView;

    open spec fn view(&self) -> KillReportView {
        match self {
            KillReport::NotIssued(error) => KillReportView::NotIssued(error@),
            KillReport::Finished { success, status, stderr } => KillReportView::Finished {
                success: *success,
                status: status@,
                stderr: stderr@,
            },
        }
    }
}

pub open spec fn text_kill_unsupported() -> Seq<char> {
    "Остановка процесса не поддерживается на этой ОС."@
}

pub open spec fn text_kill_not_issued(program: Seq<char>, pid: u32, error: Seq<char>) -> Seq<char> {
    "Ошибка выполнения команды "@ + program + " для PID "@ + decimal(pid as nat) + ": "@ + error
}

pub open spec fn text_kill_rejected(
    program: Seq<char>,
    pid: u32,
    status: Seq<char>,
    stderr: Seq<char>,
) -> Seq<char> {
    "Команда "@ + program + " для PID "@ + decimal(pid as nat) + " завершилась с кодом: "@
        + status + ". Stderr: "@ + stderr
}

/// What the attempt to end the process `pid` comes to. It is a success
/// when the command reported success, and also when it failed only
/// because the process was gone already. It is a failure when the system
/// has no such command, when the command could not be run, and when it
/// failed for another reason.
pub open spec fn kill_verdict(pid: u32, platform: Platform, report: KillReportView) -> Result<
    (),
    Seq<char>,
> {
    match platform.program() {
        None => Err(text_kill_unsupported()),
        Some(program) => match report {
            KillReportView::NotIssued(error) => Err(text_kill_not_issued(program, pid, error)),
            KillReportView::Finished { success, status, stderr } => if success || occurs(
                stderr,
                platform.missing_mark(),
            ) {
                Ok(())
            } else {
                Err(text_kill_rejected(program, pid, status, stderr))
            },
        },
    }
}

/// Judges the attempt to end the process `pid` by force.
pub fn kill_result(pid: u32, platform: Platform, report: KillReport) -> (result: Result<
    (),
    String,
>)
    ensures
        outcome_view(result) == kill_verdict(pid, platform, report@),
{
    let program = match platform {
        Platform::Unix => "kill",
        Platform::Windows => "taskkill",
        Platform::Other => {
            return Err(String::from_str("Остановка процесса не поддерживается на этой ОС."));
        },
    };
    let mark = match platform {
        Platform::Windows => "not found",
        _ => "No such process",
    };
    match report {
        KillReport::NotIssued(error) => {
            let mut text = String::from_str("Ошибка выполнения команды ");
            text.append(program);
            text.append(" для PID ");
            push_decimal(&mut text, pid as u64);
            text.append(": ");
            text.append(error.as_str());
            Err(text)
        },
        KillReport::Finished { success, status, stderr } => {
            if success || contains(stderr.as_str(), mark) {
                Ok(())
            } else {
                let mut text = String::from_str("Команда ");
                text.append(program);
                text.append(" для PID ");
                push_decimal(&mut text, pid as u64);
                text.append(" завершилась с кодом: ");
                text.append(status.as_str());
                text.append(". Stderr: ");
                text.append(stderr.as_str());
                Err(text)
            }
        },
    }
}

} // verus!
