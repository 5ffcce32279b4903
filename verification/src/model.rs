//! The supervisor as a state machine over mathematical values.
//!
//! A `Supervisor` is the whole state; an `Event` is anything that can happen
//! to it; `Supervisor::step` gives the state after the event together with
//! the effects that the caller has to perform. Everything that the
//! executable supervisor does is stated against this machine, and its
//! invariants are proved here once and for all.

use crate::ansi::{ansi_parse_blocks, segments_of, SegmentView};
use crate::log::log_append;
use crate::settings::SettingsView;
use crate::text::{decimal, signed_decimal};
use vstd::prelude::*;

verus! {

/// Where the supervisor stands with its one child process.
#[derive(Clone, Copy, Debug, PartialEq, Eq, Structural)]
pub enum Lifecycle {
    /// No child, nothing pending.
    Idle,
    /// A launch waits until the attempt to kill a child left over from an
    /// earlier session has ended.
    AwaitingStaleKill,
    /// The child is being started; its process id is not known yet.
    Launching,
    /// The child runs under a known process id.
    Running,
    /// The child was told to end; the outcome of that request is awaited.
    Stopping,
}

/// The state of the supervisor.
pub struct Supervisor {
    pub settings: SettingsView,
    pub lifecycle: Lifecycle,
    pub logs: Seq<Seq<SegmentView>>,
    pub show_settings: bool,
    /// The number of launches begun so far, which is also the tag of the latest.
    pub generation: u64,
    pub current_pid: Option<u32>,
    pub shutdown_requested: bool,
}

/// What can happen to the supervisor.
pub enum Event {
    SettingsButtonPressed,
    StartButtonPressed,
    StopButtonPressed,
    SelectExecutablePath,
    ApiKeyChanged(Seq<char>),
    CloseSettingsPressed,
    ExecutablePathSelected(Result<Option<Seq<char>>, Seq<char>>),
    SettingsLoaded(Result<SettingsView, Seq<char>>),
    SettingsSaved(Result<(), Seq<char>>),
    ProcessActualPid(u64, u32),
    ProcessOutput(u64, Seq<char>),
    ProcessTerminated(u64, i32),
    ProcessError(u64, Seq<char>),
    ProcessKillResult(Result<(), Seq<char>>),
    CloseRequested,
}

/// What the supervisor asks its caller to do.
pub enum Effect {
    LoadSettings,
    SaveSettings(SettingsView),
    SelectExecutable,
    KillProcess(u32),
    CloseWindow,
}

/// The outcome of one event: the next state and the effects, in order.
pub struct Step {
    pub next: Supervisor,
    pub effects: Seq<Effect>,
}

// The lines that the supervisor writes into its own log, one function for
// each occasion.

pub open spec fn text_settings_failed(error: Seq<char>) -> Seq<char> {
    "Ошибка загрузки настроек: "@ + error
}

pub open spec fn text_starting() -> Seq<char> {
    "Запуск процесса через подписку..."@
}

pub open spec fn text_not_ready() -> Seq<char> {
    "Ошибка: Проверьте путь и ключ API."@
}

pub open spec fn text_exhausted() -> Seq<char> {
    "Ошибка: счётчик запусков исчерпан."@
}

pub open spec fn text_stale(pid: u32) -> Seq<char> {
    "Завершение процесса предыдущего сеанса (PID: "@ + decimal(pid as nat) + ")..."@
}

pub open spec fn text_stopping(pid: u32) -> Seq<char> {
    "Остановка процесса (PID: "@ + decimal(pid as nat) + ")..."@
}

pub open spec fn text_started(pid: u32) -> Seq<char> {
    "Процесс успешно запущен (PID: "@ + decimal(pid as nat) + ")."@
}

pub open spec fn text_exited(code: i32) -> Seq<char> {
    "Процесс завершился (код: "@ + signed_decimal(code as int) + ")."@
}

pub open spec fn text_kill_outcome(outcome: Result<(), Seq<char>>) -> Seq<char> {
    match outcome {
        Ok(_) => "Команда остановки процесса отправлена."@,
        Err(error) => "Ошибка отправки команды остановки: "@ + error,
    }
}

pub open spec fn text_path_chosen(path: Seq<char>) -> Seq<char> {
    "Выбран путь: \""@ + path + "\""@
}

pub open spec fn text_choice_cancelled() -> Seq<char> {
    "Выбор файла отменен."@
}

pub open spec fn text_choice_failed(error: Seq<char>) -> Seq<char> {
    "Ошибка выбора файла: "@ + error
}

pub open spec fn text_save_failed(error: Seq<char>) -> Seq<char> {
    "Ошибка сохранения настроек: "@ + error
}

pub open spec fn text_close_requested() -> Seq<char> {
    "Получен запрос на закрытие окна..."@
}

pub open spec fn text_close_stopping(pid: u32) -> Seq<char> {
    "Инициирована остановка процесса (PID: "@ + decimal(pid as nat) + ") перед закрытием."@
}

pub open spec fn text_close_unknown_pid() -> Seq<char> {
    "Процесс был запущен, но PID не найден. Закрытие окна."@
}

pub open spec fn text_close_idle() -> Seq<char> {
    "Процесс не запущен. Закрытие окна."@
}

impl Supervisor {
    /// The state at application start.
    pub open spec fn initial() -> Supervisor {
        Supervisor {
            settings: SettingsView::unset(),
            lifecycle: Lifecycle::Idle,
            logs: Seq::empty(),
            show_settings: false,
            generation: 0,
            current_pid: None,
            shutdown_requested: false,
        }
    }

    /// The same state with `text` parsed and offered to the log.
    pub open spec fn log(self, text: Seq<char>) -> Supervisor {
        Supervisor { logs: log_append(self.logs, segments_of(ansi_parse_blocks(text))), ..self }
    }

    /// Whether an event of the child tagged `generation` belongs to the
    /// child that is being started or runs now.
    pub open spec fn accepts(self, generation: u64) -> bool {
        (self.lifecycle == Lifecycle::Launching || self.lifecycle == Lifecycle::Running)
            && generation == self.generation
    }

    /// The step that changes nothing and asks for nothing.
    pub open spec fn stay(self) -> Step {
        Step { next: self, effects: Seq::empty() }
    }

    /// A step into `next` without effects, but for the request to close the
    /// window that is due when `next` has come back to Idle under a
    /// requested shutdown.
    pub open spec fn settle(self, next: Supervisor) -> Step {
        self.settle_with(next, Seq::empty())
    }

    /// As `settle`, with `effects` before the request to close.
    pub open spec fn settle_with(self, next: Supervisor, effects: Seq<Effect>) -> Step {
        if next.lifecycle == Lifecycle::Idle && self.lifecycle != Lifecycle::Idle
            && next.shutdown_requested {
            Step { next, effects: effects.push(Effect::CloseWindow) }
        } else {
            Step { next, effects }
        }
    }

    /// The child is no longer tracked: Idle, no process id, none persisted.
    pub open spec fn released(self) -> Supervisor {
        Supervisor {
            lifecycle: Lifecycle::Idle,
            current_pid: None,
            settings: self.settings.with_pid(None),
            ..self
        }
    }

    /// A new run begins: the log is emptied and the next generation is
    /// allocated. Where no generation is left, the launch is given up.
    pub open spec fn launch(self, notes: Seq<Seq<char>>) -> Step {
        if self.generation == u64::MAX {
            self.settle(
                Supervisor { lifecycle: Lifecycle::Idle, ..self }.log_all(notes).log(
                    text_exhausted(),
                ),
            )
        } else {
            Step {
                next: Supervisor {
                    lifecycle: Lifecycle::Launching,
                    logs: Seq::empty(),
                    generation: (self.generation + 1) as u64,
                    current_pid: None,
                    ..self
                }.log_all(notes).log(text_starting()),
                effects: Seq::empty(),
            }
        }
    }

    /// The same state with each of `texts` logged, first to last.
    pub open spec fn log_all(self, texts: Seq<Seq<char>>) -> Supervisor
        decreases texts.len(),
    {
        if texts.len() == 0 {
            self
        } else {
            self.log_all(texts.drop_last()).log(texts.last())
        }
    }

    /// The user asks for a launch. Only an idle supervisor answers: it
    /// refuses when path or key are missing, first has a child left over
    /// from an earlier session killed when the settings name one, and
    /// launches otherwise.
    pub open spec fn start(self) -> Step {
        if self.lifecycle != Lifecycle::Idle {
            self.stay()
        } else if !self.settings.launch_ready() {
            self.log(text_not_ready()).stay()
        } else {
            match self.settings.last_pid {
                Some(stale) => Step {
                    next: Supervisor { lifecycle: Lifecycle::AwaitingStaleKill, ..self }.log(
                        text_stale(stale),
                    ),
                    effects: seq![Effect::KillProcess(stale)],
                },
                None => self.launch(Seq::empty()),
            }
        }
    }

    /// The running child is told to end: the persisted process id is
    /// cleared first, then the kill is requested.
    pub open spec fn halt(self, pid: u32, text: Seq<char>) -> Step {
        let next = Supervisor {
            lifecycle: Lifecycle::Stopping,
            settings: self.settings.with_pid(None),
            ..self
        }.log(text);
        Step { next, effects: seq![Effect::SaveSettings(next.settings), Effect::KillProcess(pid)] }
    }

    /// The user asks for a stop: nothing happens unless a child runs.
    pub open spec fn stop(self) -> Step {
        match self.current_pid {
            Some(pid) if self.lifecycle == Lifecycle::Running => self.halt(pid, text_stopping(pid)),
            _ => self.stay(),
        }
    }

    /// The child reports its process id.
    pub open spec fn pid_observed(self, generation: u64, pid: u32) -> Step {
        if self.lifecycle == Lifecycle::Launching && generation == self.generation {
            let next = Supervisor {
                lifecycle: Lifecycle::Running,
                current_pid: Some(pid),
                settings: self.settings.with_pid(Some(pid)),
                ..self
            }.log(text_started(pid));
            Step { next, effects: seq![Effect::SaveSettings(next.settings)] }
        } else {
            self.stay()
        }
    }

    /// The child wrote a line.
    pub open spec fn output(self, generation: u64, line: Seq<char>) -> Step {
        if self.accepts(generation) {
            self.log(line).stay()
        } else {
            self.stay()
        }
    }

    /// The child is gone, by its own exit or by an error of spawning or
    /// waiting; `text` is what the log says of it.
    pub open spec fn gone(self, generation: u64, text: Seq<char>) -> Step {
        if self.accepts(generation) {
            let next = self.released().log(text);
            self.settle_with(next, seq![Effect::SaveSettings(next.settings)])
        } else {
            self.stay()
        }
    }

    /// A request to kill has ended, well or not. While stopping, the child
    /// is no longer tracked whatever the outcome; while a left-over child
    /// was being killed, the launch goes on whatever the outcome.
    pub open spec fn kill_ended(self, outcome: Result<(), Seq<char>>) -> Step {
        if self.lifecycle == Lifecycle::Stopping {
            self.settle(
                Supervisor { lifecycle: Lifecycle::Idle, current_pid: None, ..self }.log(
                    text_kill_outcome(outcome),
                ),
            )
        } else if self.lifecycle == Lifecycle::AwaitingStaleKill {
            self.launch(seq![text_kill_outcome(outcome)])
        } else {
            self.stay()
        }
    }

    /// The file dialog has ended. A chosen path is taken only while idle.
    pub open spec fn path_selected(self, choice: Result<Option<Seq<char>>, Seq<char>>) -> Step {
        match choice {
            Ok(Some(path)) => if self.lifecycle == Lifecycle::Idle {
                let next = Supervisor {
                    settings: SettingsView { executable_path: Some(path), ..self.settings },
                    ..self
                }.log(text_path_chosen(path));
                Step { next, effects: seq![Effect::SaveSettings(next.settings)] }
            } else {
                self.stay()
            },
            Ok(None) => self.log(text_choice_cancelled()).stay(),
            Err(error) => self.log(text_choice_failed(error)).stay(),
        }
    }

    /// The user edited the key. It is taken only while idle.
    pub open spec fn key_changed(self, key: Seq<char>) -> Step {
        if self.lifecycle == Lifecycle::Idle {
            let next = Supervisor {
                settings: SettingsView { api_key: key, ..self.settings },
                ..self
            };
            Step { next, effects: seq![Effect::SaveSettings(next.settings)] }
        } else {
            self.stay()
        }
    }

    /// The persisted settings were read, or could not be. They are taken
    /// only while idle; a failure is logged and leaves empty settings.
    pub open spec fn settings_loaded(self, loaded: Result<SettingsView, Seq<char>>) -> Step {
        let logged = match loaded {
            Ok(_) => self,
            Err(error) => self.log(text_settings_failed(error)),
        };
        let settings = match loaded {
            Ok(settings) => settings,
            Err(_) => SettingsView::unset(),
        };
        if self.lifecycle == Lifecycle::Idle {
            Supervisor { settings, ..logged }.stay()
        } else {
            logged.stay()
        }
    }

    /// The owner asks to close. The latch is set; an idle supervisor lets
    /// the window close at once, a running child is told to end first, and
    /// a launch that has no process id yet is given up.
    pub open spec fn close_requested(self) -> Step {
        let latched = Supervisor { shutdown_requested: true, ..self }.log(text_close_requested());
        match self.lifecycle {
            Lifecycle::Idle | Lifecycle::AwaitingStaleKill => Step {
                next: Supervisor { lifecycle: Lifecycle::Idle, ..latched }.log(text_close_idle()),
                effects: seq![Effect::CloseWindow],
            },
            Lifecycle::Stopping => latched.stay(),
            Lifecycle::Running => match self.current_pid {
                Some(pid) => latched.halt(pid, text_close_stopping(pid)),
                None => latched.abandon(),
            },
            Lifecycle::Launching => latched.abandon(),
        }
    }

    /// A launch without a known process id is given up and the window closes.
    pub open spec fn abandon(self) -> Step {
        Step {
            next: Supervisor { lifecycle: Lifecycle::Idle, current_pid: None, ..self }.log(
                text_close_unknown_pid(),
            ),
            effects: seq![Effect::CloseWindow],
        }
    }

    /// The state and the effects after `event`.
    pub open spec fn step(self, event: Event) -> Step {
        match event {
            Event::SettingsButtonPressed => Supervisor { show_settings: true, ..self }.stay(),
            Event::CloseSettingsPressed => Supervisor { show_settings: false, ..self }.stay(),
            Event::StartButtonPressed => self.start(),
            Event::StopButtonPressed => self.stop(),
            Event::SelectExecutablePath => Step {
                next: self,
                effects: seq![Effect::SelectExecutable],
            },
            Event::ApiKeyChanged(key) => self.key_changed(key),
            Event::ExecutablePathSelected(choice) => self.path_selected(choice),
            Event::SettingsLoaded(loaded) => self.settings_loaded(loaded),
            Event::SettingsSaved(saved) => match saved {
                Ok(_) => self.stay(),
                Err(error) => self.log(text_save_failed(error)).stay(),
            },
            Event::ProcessActualPid(generation, pid) => self.pid_observed(generation, pid),
            Event::ProcessOutput(generation, line) => self.output(generation, line),
            Event::ProcessTerminated(generation, code) => self.gone(generation, text_exited(code)),
            Event::ProcessError(generation, error) => self.gone(generation, error),
            Event::ProcessKillResult(outcome) => self.kill_ended(outcome),
            Event::CloseRequested => self.close_requested(),
        }
    }
}

} // verus!
