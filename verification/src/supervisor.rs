//! The supervisor that runs: one owned state, changed by one message at a
//! time, answering each message with the commands that its owner performs.

use crate::log::{add_log_impl, LogBuffer};
use crate::laws::step_keeps_invariant;
use crate::model::{text_exited, text_kill_outcome, Effect, Event, Lifecycle, Supervisor};
use crate::process::ProcessListener;
use crate::settings::AppSettings;
use crate::text::{decimal, push_decimal, push_signed_decimal};
use vstd::prelude::*;
use vstd::string::StringExecFns;

verus! {

/// What can happen to the launcher. An event of the child carries, first,
/// the generation of the run that it comes from.
#[derive(Debug)]
pub enum Message {
    SettingsButtonPressed,
    StartButtonPressed,
    StopButtonPressed,
    SelectExecutablePath,
    ApiKeyChanged(String),
    CloseSettingsPressed,
    ExecutablePathSelected(Result<Option<String>, String>),
    SettingsLoaded(Result<AppSettings, String>),
    SettingsSaved(Result<(), String>),
    ProcessActualPid(u64, u32),
    ProcessOutput(u64, String),
    ProcessTerminated(u64, i32),
    ProcessError(u64, String),
    ProcessKillResult(Result<(), String>),
    CloseRequested,
}

impl View for Message {
    type V = Event;

    open spec fn view(&self) -> Event {
        match self {
            Message::SettingsButtonPressed => Event::SettingsButtonPressed,
            Message::StartButtonPressed => Event::StartButtonPressed,
            Message::StopButtonPressed => Event::StopButtonPressed,
            Message::SelectExecutablePath => Event::SelectExecutablePath,
            Message::ApiKeyChanged(key) => Event::ApiKeyChanged(key@),
            Message::CloseSettingsPressed => Event::CloseSettingsPressed,
            Message::ExecutablePathSelected(choice) => Event::ExecutablePathSelected(
                match choice {
                    Ok(Some(path)) => Ok(Some(path@)),
                    Ok(None) => Ok(None),
                    Err(error) => Err(error@),
                },
            ),
            Message::SettingsLoaded(loaded) => Event::SettingsLoaded(
                match loaded {
                    Ok(settings) => Ok(settings@),
                    Err(error) => Err(error@),
                },
            ),
            Message::SettingsSaved(saved) => Event::SettingsSaved(outcome_view(*saved)),
            Message::ProcessActualPid(generation, pid) => Event::ProcessActualPid(
                *generation,
                *pid,
            ),
            Message::ProcessOutput(generation, line) => Event::ProcessOutput(*generation, line@),
            Message::ProcessTerminated(generation, code) => Event::ProcessTerminated(
                *generation,
                *code,
            ),
            Message::ProcessError(generation, error) => Event::ProcessError(*generation, error@),
            Message::ProcessKillResult(outcome) => Event::ProcessKillResult(outcome_view(*outcome)),
            Message::CloseRequested => Event::CloseRequested,
        }
    }
}

/// A copy of an outcome.
fn copy_outcome(outcome: &Result<(), String>) -> (copy: Result<(), String>)
    ensures
        outcome_view(copy) == outcome_view(*outcome),
{
    match outcome {
        Ok(_) => Ok(()),
        Err(error) => Err(error.clone()),
    }
}

impl Clone for Message {
    fn clone(&self) -> (copy: Message)
        ensures
            copy@ == self@,
    {
        match self {
            Message::SettingsButtonPressed => Message::SettingsButtonPressed,
            Message::StartButtonPressed => Message::StartButtonPressed,
            Message::StopButtonPressed => Message::StopButtonPressed,
            Message::SelectExecutablePath => Message::SelectExecutablePath,
            Message::ApiKeyChanged(key) => Message::ApiKeyChanged(key.clone()),
            Message::CloseSettingsPressed => Message::CloseSettingsPressed,
            Message::ExecutablePathSelected(choice) => Message::ExecutablePathSelected(
                match choice {
                    Ok(Some(path)) => Ok(Some(path.clone())),
                    Ok(None) => Ok(None),
                    Err(error) => Err(error.clone()),
                },
            ),
            Message::SettingsLoaded(loaded) => Message::SettingsLoaded(
                match loaded {
                    Ok(settings) => Ok(settings.clone()),
                    Err(error) => Err(error.clone()),
                },
            ),
            Message::SettingsSaved(saved) => Message::SettingsSaved(copy_outcome(saved)),
            Message::ProcessActualPid(generation, pid) => Message::ProcessActualPid(
                *generation,
                *pid,
            ),
            Message::ProcessOutput(generation, line) => Message::ProcessOutput(
                *generation,
                line.clone(),
            ),
            Message::ProcessTerminated(generation, code) => Message::ProcessTerminated(
                *generation,
                *code,
            ),
            Message::ProcessError(generation, error) => Message::ProcessError(
                *generation,
                error.clone(),
            ),
            Message::ProcessKillResult(outcome) => Message::ProcessKillResult(
                copy_outcome(outcome),
            ),
            Message::CloseRequested => Message::CloseRequested,
        }
    }
}

/// An outcome that carries nothing on success and a text on failure, as the
/// contracts see it.
pub open spec fn outcome_view(outcome: Result<(), String>) -> Result<(), Seq<char>> {
    match outcome {
        Ok(_) => Ok(()),
        Err(error) => Err(error@),
    }
}

/// What the launcher asks its owner to do.
#[derive(Debug)]
pub enum Command {
    /// Read the persisted settings and report them with `SettingsLoaded`.
    LoadSettings,
    /// Persist these settings and report with `SettingsSaved`.
    SaveSettings(AppSettings),
    /// Let the user choose a file and report with `ExecutablePathSelected`.
    SelectExecutable,
    /// Force the process with this id to end and report with `ProcessKillResult`.
    KillProcess(u32),
    /// Close the main window.
    CloseWindow,
}

impl View for Command {
    type V = Effect;

    open spec fn view(&self) -> Effect {
        match self {
            Command::LoadSettings => Effect::LoadSettings,
            Command::SaveSettings(settings) => Effect::SaveSettings(settings@),
            Command::SelectExecutable => Effect::SelectExecutable,
            Command::KillProcess(pid) => Effect::KillProcess(*pid),
            Command::CloseWindow => Effect::CloseWindow,
        }
    }
}

impl Clone for Command {
    fn clone(&self) -> (copy: Command)
        ensures
            copy@ == self@,
    {
        match self {
            Command::LoadSettings => Command::LoadSettings,
            Command::SaveSettings(settings) => Command::SaveSettings(settings.clone()),
            Command::SelectExecutable => Command::SelectExecutable,
            Command::KillProcess(pid) => Command::KillProcess(*pid),
            Command::CloseWindow => Command::CloseWindow,
        }
    }
}

/// The views of a sequence of commands, in order.
pub open spec fn command_views(commands: Seq<Command>) -> Seq<Effect> {
    commands.map_values(|command: Command| command@)
}

/// `head`, then `n` in decimal, then `tail`.
fn numbered(head: &str, n: u32, tail: &str) -> (text: String)
    ensures
        text@ == head@ + decimal(n as nat) + tail@,
{
    let mut text = String::from_str(head);
    push_decimal(&mut text, n as u64);
    text.append(tail);
    text
}

/// `head`, then `tail`.
fn joined(head: &str, tail: &str) -> (text: String)
    ensures
        text@ == head@ + tail@,
{
    let mut text = String::from_str(head);
    text.append(tail);
    text
}

/// The line that reports how a request to kill ended.
fn kill_outcome_text(outcome: &Result<(), String>) -> (text: String)
    ensures
        text@ == text_kill_outcome(outcome_view(*outcome)),
{
    match outcome {
        Ok(_) => String::from_str("Команда остановки процесса отправлена."),
        Err(error) => joined("Ошибка отправки команды остановки: ", error.as_str()),
    }
}

/// The line that reports the exit of the child.
fn exited_text(code: i32) -> (text: String)
    ensures
        text@ == text_exited(code),
{
    let mut text = String::from_str("Процесс завершился (код: ");
    push_signed_decimal(&mut text, code);
    text.append(").");
    text
}

/// The supervisor of one child process, with its log and its settings.
pub struct Launcher {
    settings: AppSettings,
    lifecycle: Lifecycle,
    logs: LogBuffer,
    show_settings: bool,
    generation: u64,
    current_pid: Option<u32>,
    shutdown_requested: bool,
}

impl View for Launcher {
    type V = Supervisor;

    closed spec fn view(&self) -> Supervisor {
        Supervisor {
            settings: self.settings@,
            lifecycle: self.lifecycle,
            logs: self.logs@,
            show_settings: self.show_settings,
            generation: self.generation,
            current_pid: self.current_pid,
            shutdown_requested: self.shutdown_requested,
        }
    }
}

impl Launcher {
    /// The launcher at application start, and the command to read the
    /// persisted settings.
    pub fn new() -> (start: (Launcher, Command))
        ensures
            start.0@ == Supervisor::initial(),
            start.0@.inv(),
            start.1@ == Effect::LoadSettings,
    {
        let launcher = Launcher {
            settings: AppSettings::default(),
            lifecycle: Lifecycle::Idle,
            logs: LogBuffer::new(),
            show_settings: false,
            generation: 0,
            current_pid: None,
            shutdown_requested: false,
        };
        (launcher, Command::LoadSettings)
    }

    /// The title of the main window.
    pub fn title(&self) -> (title: String)
        ensures
            title@ == "TradingStar 3 Launcher"@,
    {
        String::from_str("TradingStar 3 Launcher")
    }

    /// Where the supervisor stands with its child.
    pub fn lifecycle(&self) -> (lifecycle: Lifecycle)
        ensures
            lifecycle == self@.lifecycle,
    {
        self.lifecycle
    }

    /// Whether anything but Idle holds: a launch waits or is made, a child
    /// runs or is being stopped.
    pub fn is_running(&self) -> (running: bool)
        ensures
            running == (self@.lifecycle != Lifecycle::Idle),
    {
        match self.lifecycle {
            Lifecycle::Idle => false,
            _ => true,
        }
    }

    /// The process id of the child, once it is known and until the child is
    /// no longer tracked.
    pub fn current_pid(&self) -> (pid: Option<u32>)
        ensures
            pid == self@.current_pid,
    {
        self.current_pid
    }

    /// The tag of the latest run.
    pub fn generation(&self) -> (generation: u64)
        ensures
            generation == self@.generation,
    {
        self.generation
    }

    /// Whether the owner has asked to close.
    pub fn shutdown_requested(&self) -> (requested: bool)
        ensures
            requested == self@.shutdown_requested,
    {
        self.shutdown_requested
    }

    /// Whether the settings page is shown in place of the log.
    pub fn show_settings(&self) -> (shown: bool)
        ensures
            shown == self@.show_settings,
    {
        self.show_settings
    }

    /// The settings as they stand.
    pub fn settings(&self) -> (settings: &AppSettings)
        ensures
            settings@ == self@.settings,
    {
        &self.settings
    }

    /// The log history, for rendering.
    pub fn logs(&self) -> (logs: &LogBuffer)
        ensures
            logs@ == self@.logs,
    {
        &self.logs
    }

    /// The child that should be alive now, if any: while a run is being
    /// started or runs, the program and key of the settings under the tag of
    /// the run; otherwise none.
    pub fn subscription(&self) -> (listener: Option<ProcessListener>)
        ensures
            listener is Some <==> ((self@.lifecycle == Lifecycle::Launching || self@.lifecycle
                == Lifecycle::Running) && self@.settings.launch_ready()),
            listener matches Some(l) ==> l@.id == self@.generation && Some(l@.path)
                == self@.settings.executable_path && l@.api_key == self@.settings.api_key,
    {
        match self.lifecycle {
            Lifecycle::Launching | Lifecycle::Running => match &self.settings.executable_path {
                Some(path) => if !self.settings.api_key.as_str().is_empty() {
                    Some(
                        ProcessListener::new(
                            self.generation,
                            path.clone(),
                            self.settings.api_key.clone(),
                        ),
                    )
                } else {
                    None
                },
                None => None,
            },
            _ => None,
        }
    }

    /// Parses `text` and offers the line to the log.
    pub fn add_log(&mut self, text: String)
        ensures
            final(self)@ == old(self)@.log(text@),
    {
        add_log_impl(&mut self.logs, text);
    }

    /// The request to close that is due when the supervisor has come back to
    /// Idle from `before` under a requested shutdown, after `commands`.
    fn settled(&self, before: Lifecycle, commands: Vec<Command>) -> (settled: Vec<Command>)
        ensures
            command_views(settled@) == if self@.lifecycle == Lifecycle::Idle && before
                != Lifecycle::Idle && self@.shutdown_requested {
                command_views(commands@).push(Effect::CloseWindow)
            } else {
                command_views(commands@)
            },
    {
        let mut commands = commands;
        let idle = match self.lifecycle {
            Lifecycle::Idle => true,
            _ => false,
        };
        let was_idle = match before {
            Lifecycle::Idle => true,
            _ => false,
        };
        if idle && !was_idle && self.shutdown_requested {
            let ghost views = command_views(commands@);
            commands.push(Command::CloseWindow);
            assert(command_views(commands@) =~= views.push(Effect::CloseWindow));
        }
        commands
    }

    /// Begins a run, after logging `note` into the emptied log if there is one.
    fn launch(&mut self, note: Option<String>) -> (commands: Vec<Command>)
        ensures
            final(self)@ == old(self)@.launch(note_views(note)).next,
            command_views(commands@) == old(self)@.launch(note_views(note)).effects,
    {
        let before = self.lifecycle;
        let commands: Vec<Command> = Vec::new();
        assert(command_views(commands@) =~= Seq::<Effect>::empty());
        if self.generation == u64::MAX {
            self.lifecycle = Lifecycle::Idle;
            proof {
                notes_logged_in_order(self@, note);
            }
            match note {
                Some(text) => self.add_log(text),
                None => {},
            }
            self.add_log(String::from_str("Ошибка: счётчик запусков исчерпан."));
            self.settled(before, commands)
        } else {
            self.lifecycle = Lifecycle::Launching;
            self.logs.clear();
            self.generation = self.generation + 1;
            self.current_pid = None;
            proof {
                notes_logged_in_order(self@, note);
            }
            match note {
                Some(text) => self.add_log(text),
                None => {},
            }
            self.add_log(String::from_str("Запуск процесса через подписку..."));
            commands
        }
    }

    /// Tells the running child to end, logging `text`.
    fn halt(&mut self, pid: u32, text: String) -> (commands: Vec<Command>)
        ensures
            final(self)@ == old(self)@.halt(pid, text@).next,
            command_views(commands@) == old(self)@.halt(pid, text@).effects,
    {
        self.lifecycle = Lifecycle::Stopping;
        self.settings.last_pid = None;
        self.add_log(text);
        let mut commands: Vec<Command> = Vec::new();
        commands.push(Command::SaveSettings(self.settings.clone()));
        commands.push(Command::KillProcess(pid));
        assert(command_views(commands@) =~= seq![
            Effect::SaveSettings(self@.settings),
            Effect::KillProcess(pid),
        ]);
        commands
    }

    /// The child is gone; `text` is what the log says of it.
    fn gone(&mut self, generation: u64, text: String) -> (commands: Vec<Command>)
        ensures
            final(self)@ == old(self)@.gone(generation, text@).next,
            command_views(commands@) == old(self)@.gone(generation, text@).effects,
    {
        let before = self.lifecycle;
        let mut commands: Vec<Command> = Vec::new();
        assert(command_views(commands@) =~= Seq::<Effect>::empty());
        if self.accepts(generation) {
            self.lifecycle = Lifecycle::Idle;
            self.current_pid = None;
            self.settings.last_pid = None;
            self.add_log(text);
            commands.push(Command::SaveSettings(self.settings.clone()));
            assert(command_views(commands@) =~= seq![Effect::SaveSettings(self@.settings)]);
            self.settled(before, commands)
        } else {
            commands
        }
    }

    /// Whether an event of the child tagged `generation` belongs to the
    /// child that is being started or runs now.
    pub fn accepts(&self, generation: u64) -> (accepted: bool)
        ensures
            accepted == self@.accepts(generation),
    {
        let alive = match self.lifecycle {
            Lifecycle::Launching | Lifecycle::Running => true,
            _ => false,
        };
        alive && generation == self.generation
    }

    /// The user asks for a launch.
    fn start(&mut self) -> (commands: Vec<Command>)
        ensures
            final(self)@ == old(self)@.start().next,
            command_views(commands@) == old(self)@.start().effects,
    {
        let mut commands: Vec<Command> = Vec::new();
        assert(command_views(commands@) =~= Seq::<Effect>::empty());
        match self.lifecycle {
            Lifecycle::Idle => {
                if !self.settings.launch_ready() {
                    self.add_log(String::from_str("Ошибка: Проверьте путь и ключ API."));
                    commands
                } else {
                    match self.settings.last_pid {
                        Some(stale) => {
                            self.lifecycle = Lifecycle::AwaitingStaleKill;
                            self.add_log(
                                numbered(
                                    "Завершение процесса предыдущего сеанса (PID: ",
                                    stale,
                                    ")...",
                                ),
                            );
                            commands.push(Command::KillProcess(stale));
                            assert(command_views(commands@) =~= seq![Effect::KillProcess(stale)]);
                            commands
                        },
                        None => self.launch(None),
                    }
                }
            },
            _ => commands,
        }
    }

    /// The user asks for a stop.
    fn stop(&mut self) -> (commands: Vec<Command>)
        ensures
            final(self)@ == old(self)@.stop().next,
            command_views(commands@) == old(self)@.stop().effects,
    {
        match (self.lifecycle, self.current_pid) {
            (Lifecycle::Running, Some(pid)) => {
                let text = numbered("Остановка процесса (PID: ", pid, ")...");
                self.halt(pid, text)
            },
            _ => {
                let commands: Vec<Command> = Vec::new();
                assert(command_views(commands@) =~= Seq::<Effect>::empty());
                commands
            },
        }
    }

    /// The child reports its process id.
    fn pid_observed(&mut self, generation: u64, pid: u32) -> (commands: Vec<Command>)
        ensures
            final(self)@ == old(self)@.pid_observed(generation, pid).next,
            command_views(commands@) == old(self)@.pid_observed(generation, pid).effects,
    {
        let mut commands: Vec<Command> = Vec::new();
        assert(command_views(commands@) =~= Seq::<Effect>::empty());
        match self.lifecycle {
            Lifecycle::Launching => {
                if generation == self.generation {
                    self.lifecycle = Lifecycle::Running;
                    self.current_pid = Some(pid);
                    self.settings.last_pid = Some(pid);
                    self.add_log(numbered("Процесс успешно запущен (PID: ", pid, ")."));
                    commands.push(Command::SaveSettings(self.settings.clone()));
                    assert(command_views(commands@) =~= seq![
                        Effect::SaveSettings(self@.settings),
                    ]);
                }
                commands
            },
            _ => commands,
        }
    }

    /// A request to kill has ended.
    fn kill_ended(&mut self, outcome: Result<(), String>) -> (commands: Vec<Command>)
        ensures
            final(self)@ == old(self)@.kill_ended(outcome_view(outcome)).next,
            command_views(commands@) == old(self)@.kill_ended(outcome_view(outcome)).effects,
    {
        let before = self.lifecycle;
        let commands: Vec<Command> = Vec::new();
        assert(command_views(commands@) =~= Seq::<Effect>::empty());
        let text = kill_outcome_text(&outcome);
        match self.lifecycle {
            Lifecycle::Stopping => {
                self.lifecycle = Lifecycle::Idle;
                self.current_pid = None;
                self.add_log(text);
                self.settled(before, commands)
            },
            Lifecycle::AwaitingStaleKill => self.launch(Some(text)),
            _ => commands,
        }
    }

    /// The file dialog has ended.
    fn path_selected(&mut self, choice: Result<Option<String>, String>) -> (commands: Vec<Command>)
        ensures
            final(self)@ == old(self)@.step(
                Message::ExecutablePathSelected(choice)@,
            ).next,
            command_views(commands@) == old(self)@.step(
                Message::ExecutablePathSelected(choice)@,
            ).effects,
    {
        let mut commands: Vec<Command> = Vec::new();
        assert(command_views(commands@) =~= Seq::<Effect>::empty());
        match choice {
            Ok(Some(path)) => match self.lifecycle {
                Lifecycle::Idle => {
                    let mut text = joined("Выбран путь: \"", path.as_str());
                    text.append("\"");
                    self.settings.executable_path = Some(path);
                    self.add_log(text);
                    commands.push(Command::SaveSettings(self.settings.clone()));
                    assert(command_views(commands@) =~= seq![
                        Effect::SaveSettings(self@.settings),
                    ]);
                    commands
                },
                _ => commands,
            },
            Ok(None) => {
                self.add_log(String::from_str("Выбор файла отменен."));
                commands
            },
            Err(error) => {
                self.add_log(joined("Ошибка выбора файла: ", error.as_str()));
                commands
            },
        }
    }

    /// The user edited the key.
    fn key_changed(&mut self, key: String) -> (commands: Vec<Command>)
        ensures
            final(self)@ == old(self)@.key_changed(key@).next,
            command_views(commands@) == old(self)@.key_changed(key@).effects,
    {
        let mut commands: Vec<Command> = Vec::new();
        assert(command_views(commands@) =~= Seq::<Effect>::empty());
        match self.lifecycle {
            Lifecycle::Idle => {
                self.settings.api_key = key;
                commands.push(Command::SaveSettings(self.settings.clone()));
                assert(command_views(commands@) =~= seq![Effect::SaveSettings(self@.settings)]);
                commands
            },
            _ => commands,
        }
    }

    /// The persisted settings were read, or could not be.
    fn settings_loaded(&mut self, loaded: Result<AppSettings, String>)
        ensures
            final(self)@ == old(self)@.step(Message::SettingsLoaded(loaded)@).next,
            old(self)@.step(Message::SettingsLoaded(loaded)@).effects == Seq::<Effect>::empty(),
    {
        match loaded {
            Ok(settings) => match self.lifecycle {
                Lifecycle::Idle => {
                    self.settings = settings;
                },
                _ => {},
            },
            Err(error) => {
                self.add_log(joined("Ошибка загрузки настроек: ", error.as_str()));
                match self.lifecycle {
                    Lifecycle::Idle => {
                        self.settings = AppSettings::default();
                    },
                    _ => {},
                }
            },
        }
    }

    /// The owner asks to close.
    fn close_requested(&mut self) -> (commands: Vec<Command>)
        ensures
            final(self)@ == old(self)@.close_requested().next,
            command_views(commands@) == old(self)@.close_requested().effects,
    {
        let before = self.lifecycle;
        let mut commands: Vec<Command> = Vec::new();
        assert(command_views(commands@) =~= Seq::<Effect>::empty());
        self.shutdown_requested = true;
        self.add_log(String::from_str("Получен запрос на закрытие окна..."));
        match (before, self.current_pid) {
            (Lifecycle::Idle, _) | (Lifecycle::AwaitingStaleKill, _) => {
                self.lifecycle = Lifecycle::Idle;
                self.add_log(String::from_str("Процесс не запущен. Закрытие окна."));
                commands.push(Command::CloseWindow);
                assert(command_views(commands@) =~= seq![Effect::CloseWindow]);
                commands
            },
            (Lifecycle::Stopping, _) => commands,
            (Lifecycle::Running, Some(pid)) => {
                let text = numbered(
                    "Инициирована остановка процесса (PID: ",
                    pid,
                    ") перед закрытием.",
                );
                self.halt(pid, text)
            },
            _ => {
                self.lifecycle = Lifecycle::Idle;
                self.current_pid = None;
                self.add_log(
                    String::from_str("Процесс был запущен, но PID не найден. Закрытие окна."),
                );
                commands.push(Command::CloseWindow);
                assert(command_views(commands@) =~= seq![Effect::CloseWindow]);
                commands
            },
        }
    }

    /// Answers one message: the state moves as the state machine says, and
    /// the commands that it asks for come back in order.
    pub fn update(&mut self, message: Message) -> (commands: Vec<Command>)
        ensures
            final(self)@ == old(self)@.step(message@).next,
            command_views(commands@) == old(self)@.step(message@).effects,
            old(self)@.inv() ==> final(self)@.inv(),
    {
        proof {
            if self@.inv() {
                step_keeps_invariant(self@, message@);
            }
        }
        let mut commands: Vec<Command> = Vec::new();
        assert(command_views(commands@) =~= Seq::<Effect>::empty());
        match message {
            Message::SettingsButtonPressed => {
                self.show_settings = true;
                commands
            },
            Message::CloseSettingsPressed => {
                self.show_settings = false;
                commands
            },
            Message::StartButtonPressed => self.start(),
            Message::StopButtonPressed => self.stop(),
            Message::SelectExecutablePath => {
                commands.push(Command::SelectExecutable);
                assert(command_views(commands@) =~= seq![Effect::SelectExecutable]);
                commands
            },
            Message::ApiKeyChanged(key) => self.key_changed(key),
            Message::ExecutablePathSelected(choice) => self.path_selected(choice),
            Message::SettingsLoaded(loaded) => {
                self.settings_loaded(loaded);
                commands
            },
            Message::SettingsSaved(saved) => {
                match saved {
                    Ok(_) => {},
                    Err(error) => {
                        self.add_log(joined("Ошибка сохранения настроек: ", error.as_str()));
                    },
                }
                commands
            },
            Message::ProcessActualPid(generation, pid) => self.pid_observed(generation, pid),
            Message::ProcessOutput(generation, line) => {
                if self.accepts(generation) {
                    self.add_log(line);
                }
                commands
            },
            Message::ProcessTerminated(generation, code) => self.gone(generation, exited_text(code)),
            Message::ProcessError(generation, error) => self.gone(generation, error),
            Message::ProcessKillResult(outcome) => self.kill_ended(outcome),
            Message::CloseRequested => self.close_requested(),
        }
    }
}

/// Logging the notes of a launch is logging the one note, if there is one.
proof fn notes_logged_in_order(state: Supervisor, note: Option<String>)
    ensures
        state.log_all(note_views(note)) == match note {
            Some(text) => state.log(text@),
            None => state,
        },
{
    let notes = note_views(note);
    if notes.len() > 0 {
        assert(notes.drop_last() =~= Seq::<Seq<char>>::empty());
        assert(state.log_all(notes.drop_last()) == state);
    }
}

/// The lines that a launch logs before its own: the one given, or none.
pub open spec fn note_views(note: Option<String>) -> Seq<Seq<char>> {
    match note {
        Some(text) => seq![text@],
        None => Seq::empty(),
    }
}

} // verus!
