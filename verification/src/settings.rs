//! What the launcher remembers between sessions.

use vstd::prelude::*;

verus! {

/// The record that is kept on disk: which program to start, the secret key
/// handed to it, and the process id of the child that was last known to run.
#[derive(Debug)]
pub struct AppSettings {
    pub executable_path: Option<String>,
    pub api_key: String,
    pub last_pid: Option<u32>,
}

/// What the settings are to the contracts.
pub struct SettingsView {
    pub executable_path: Option<Seq<char>>,
    pub api_key: Seq<char>,
    pub last_pid: Option<u32>,
}

impl SettingsView {
    /// Settings in which nothing is set.
    pub open spec fn unset() -> SettingsView {
        SettingsView { executable_path: None, api_key: Seq::empty(), last_pid: None }
    }

    /// Whether a launch can be made: a program is chosen and the key is not empty.
    pub open spec fn launch_ready(self) -> bool {
        self.executable_path is Some && self.api_key.len() > 0
    }

    /// The same settings with another last known process id.
    pub open spec fn with_pid(self, pid: Option<u32>) -> SettingsView {
        SettingsView { last_pid: pid, ..self }
    }
}

impl View for AppSettings {
    type V = SettingsView;

    open spec fn view(&self) -> SettingsView {
        SettingsView {
            executable_path: match self.executable_path {
                Some(path) => Some(path@),
                None => None,
            },
            api_key: self.api_key@,
            last_pid: self.last_pid,
        }
    }
}

impl Default for AppSettings {
    fn default() -> (settings: AppSettings)
        ensures
            settings@ == SettingsView::unset(),
    {
        AppSettings { executable_path: None, api_key: String::new(), last_pid: None }
    }
}

impl Clone for AppSettings {
    fn clone(&self) -> (copy: AppSettings)
        ensures
            copy@ == self@,
    {
        let executable_path = match &self.executable_path {
            Some(path) => Some(path.clone()),
            None => None,
        };
        AppSettings { executable_path, api_key: self.api_key.clone(), last_pid: self.last_pid }
    }
}

impl AppSettings {
    /// Whether a launch can be made: a program is chosen and the key is not empty.
    pub fn launch_ready(&self) -> (ready: bool)
        ensures
            ready == self@.launch_ready(),
    {
        self.executable_path.is_some() && !self.api_key.as_str().is_empty()
    }
}

} // verus!
