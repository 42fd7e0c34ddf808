use dll_injector::error::ErrorKind;
use dll_injector::protocol::Action;
use dll_injector::protocol::Command;
use dll_injector::protocol::Event;
use dll_injector::protocol::LoadedModule;
use dll_injector::reference::get_file_name;
use dll_injector::selector::ProcessSelector;
use dll_injector::workflow::State;
use dll_injector::workflow::Workflow;

/// A made-up machine: its processes, the modules loaded into them, and the
/// files on its disk.
struct Machine {
    processes: Vec<(u32, String)>,
    modules: Vec<(u32, usize, String)>,
    files: Vec<String>,
    directory: String,
    opened: Option<u32>,
    performed: Vec<Action>,
}

fn machine() -> Machine {
    Machine {
        processes: vec![
            (100, String::from("explorer.exe")),
            (200, String::from("notepad.exe")),
            (300, String::from("notepad.exe")),
        ],
        modules: vec![(200, 0x1000, in_directory("windows", "kernel32.dll"))],
        files: vec![in_directory("work", "payload.dll"), in_directory("work", "other.dll")],
        directory: String::from("work"),
        opened: None,
        performed: Vec::new(),
    }
}

fn in_directory(directory: &str, name: &str) -> String {
    format!("{}{}{}", directory, std::path::MAIN_SEPARATOR, name)
}

impl Machine {
    fn loaded_in(&self, pid: u32) -> Vec<String> {
        let mut paths = Vec::new();
        for (owner, _, path) in &self.modules {
            if *owner == pid {
                paths.push(path.clone());
            }
        }
        paths
    }

    fn perform(&mut self, action: Action) -> Event {
        match action {
            Action::OpenProcess { pid } => {
                if self.processes.iter().any(|(id, _)| *id == pid) {
                    self.opened = Some(pid);
                    Event::ProcessOpened
                } else {
                    Event::ProcessUnavailable {
                        cause: vec![String::from("The parameter is incorrect. (os error 87)")],
                    }
                }
            }
            Action::FindProcess { name } => {
                match self.processes.iter().find(|(_, base)| base.contains(&name)) {
                    Some((pid, _)) => {
                        self.opened = Some(*pid);
                        Event::ProcessOpened
                    }
                    None => Event::ProcessUnavailable { cause: vec![] },
                }
            }
            Action::ReadProcessName => {
                let pid = self.opened.unwrap();
                let (_, base_name) = self.processes.iter().find(|(id, _)| *id == pid).unwrap();
                Event::ProcessName { base_name: base_name.clone() }
            }
            Action::ReadProcessId => Event::ProcessId { pid: self.opened.unwrap() },
            Action::Announce { .. } => Event::Announced,
            Action::QueryWorkingDirectory => {
                Event::WorkingDirectory { directory: self.directory.clone() }
            }
            Action::ProbePath { path } => Event::Probed { exists: self.files.contains(&path) },
            Action::LoadModule { path } => {
                let pid = self.opened.unwrap();
                let full = in_directory(&self.directory, &get_file_name(&path).unwrap());
                if self.files.contains(&full) {
                    let address = 0x4000 + 0x1000 * self.modules.len();
                    self.modules.push((pid, address, full));
                    Event::Loaded { module: LoadedModule { base_address: address } }
                } else {
                    Event::LoadFailed {
                        cause: vec![String::from(
                            "The specified module could not be found. (os error 126)",
                        )],
                    }
                }
            }
            Action::LocateModuleByPath { path } => {
                let pid = self.opened.unwrap();
                let full = in_directory(&self.directory, &get_file_name(&path).unwrap());
                let found = self.modules.iter().find(|(owner, _, at)| *owner == pid && *at == full);
                Event::Located {
                    found: found.map(|(_, address, _)| LoadedModule { base_address: *address }),
                }
            }
            Action::LocateModuleByName { name } => {
                let pid = self.opened.unwrap();
                let found = self.modules.iter().find(|(owner, _, at)| {
                    *owner == pid && get_file_name(at) == Ok(name.clone())
                });
                Event::Located {
                    found: found.map(|(_, address, _)| LoadedModule { base_address: *address }),
                }
            }
            Action::UnloadModule { module } => {
                let pid = self.opened.unwrap();
                let before = self.modules.len();
                self.modules
                    .retain(|(owner, address, _)| !(*owner == pid && *address == module.base_address));
                if self.modules.len() < before {
                    Event::Unloaded
                } else {
                    Event::UnloadFailed {
                        cause: vec![String::from("failed to eject module from process")],
                    }
                }
            }
            Action::ExtractFileName { .. }
            | Action::CheckAbsolute { .. }
            | Action::JoinPaths { .. }
            | Action::ExtractParent { .. }
            | Action::Finish
            | Action::Abort => panic!("not an action for the machine"),
        }
    }

    /// Runs one invocation to its end, as a driver does.
    fn invoke(
        &mut self,
        command: Command,
        dll: &str,
        process: Option<&str>,
        pid: Option<u32>,
    ) -> Workflow {
        self.opened = None;
        self.performed.clear();
        let mut workflow =
            Workflow::new(command, String::from(dll), process.map(String::from), pid);
        let mut action = workflow.pending();
        while action != Action::Finish && action != Action::Abort {
            if !matches!(action, Action::Announce { .. }) {
                self.performed.push(action.clone());
            }
            let event = self.perform(action);
            let (next, asked) = workflow.advance(event);
            workflow = next;
            action = asked;
        }
        workflow
    }
}

#[test]
fn injected_module_is_ejected_by_its_bare_name() {
    let mut machine = machine();
    let injected = machine.invoke(Command::Inject, "payload.dll", None, Some(200));
    assert_eq!(injected.state(), &State::Done);
    assert_eq!(injected.exit_status(), Some(0));
    assert!(machine.loaded_in(200).contains(&in_directory("work", "payload.dll")));
    assert_eq!(
        machine.performed,
        vec![
            Action::OpenProcess { pid: 200 },
            Action::ReadProcessName,
            Action::ReadProcessId,
            Action::LoadModule { path: String::from("payload.dll") },
        ]
    );

    machine.files.clear();
    let ejected = machine.invoke(Command::Eject, "payload.dll", None, Some(200));
    assert_eq!(ejected.state(), &State::Done);
    assert_eq!(ejected.exit_status(), Some(0));
    assert!(!machine.loaded_in(200).contains(&in_directory("work", "payload.dll")));
    assert_eq!(machine.loaded_in(200), vec![in_directory("windows", "kernel32.dll")]);
    assert_eq!(
        machine.performed,
        vec![
            Action::OpenProcess { pid: 200 },
            Action::ReadProcessName,
            Action::ReadProcessId,
            Action::QueryWorkingDirectory,
            Action::ProbePath { path: in_directory("work", "payload.dll") },
            Action::LocateModuleByName { name: String::from("payload.dll") },
            Action::UnloadModule { module: LoadedModule { base_address: 0x5000 } },
        ]
    );
}

#[test]
fn path_and_name_find_the_same_module() {
    let mut by_path = machine();
    by_path.invoke(Command::Inject, "payload.dll", None, Some(200));
    let ejected = by_path.invoke(Command::Eject, "payload.dll", None, Some(200));
    assert_eq!(ejected.state(), &State::Done);
    assert!(by_path.performed.contains(&Action::LocateModuleByPath {
        path: String::from("payload.dll"),
    }));
    let unloaded_by_path = by_path.performed.last().unwrap().clone();

    let mut by_name = machine();
    by_name.invoke(Command::Inject, "payload.dll", None, Some(200));
    by_name.files.clear();
    let ejected = by_name.invoke(Command::Eject, "payload.dll", None, Some(200));
    assert_eq!(ejected.state(), &State::Done);
    assert!(by_name.performed.contains(&Action::LocateModuleByName {
        name: String::from("payload.dll"),
    }));
    let unloaded_by_name = by_name.performed.last().unwrap().clone();

    assert_eq!(
        unloaded_by_path,
        Action::UnloadModule { module: LoadedModule { base_address: 0x5000 } }
    );
    assert_eq!(unloaded_by_path, unloaded_by_name);
}

#[test]
fn ejecting_twice_fails_the_second_time_and_unloads_nothing() {
    let mut machine = machine();
    machine.invoke(Command::Inject, "payload.dll", None, Some(200));
    let first = machine.invoke(Command::Eject, "payload.dll", None, Some(200));
    assert_eq!(first.state(), &State::Done);
    let loaded = machine.loaded_in(200);

    let second = machine.invoke(Command::Eject, "payload.dll", None, Some(200));
    assert_eq!(second.exit_status(), Some(1));
    assert_eq!(
        second.failure().unwrap().kind,
        ErrorKind::ModuleNotFound { dll_name: String::from("payload.dll") }
    );
    assert!(second.failure().unwrap().cause.is_empty());
    assert!(!machine.performed.iter().any(|action| matches!(action, Action::UnloadModule { .. })));
    assert_eq!(machine.loaded_in(200), loaded);
}

#[test]
fn eject_of_a_module_that_was_never_loaded_is_module_not_found() {
    let mut machine = machine();
    let workflow = machine.invoke(Command::Eject, "missing.dll", None, Some(200));
    assert_eq!(
        workflow.failure().unwrap().kind,
        ErrorKind::ModuleNotFound { dll_name: String::from("missing.dll") }
    );
    assert_eq!(
        workflow.failure().unwrap().report_lines(),
        vec![String::from("❌ DLL 'missing.dll' not found in target process")]
    );
    assert_eq!(machine.loaded_in(200), vec![in_directory("windows", "kernel32.dll")]);
}

#[test]
fn process_name_selects_the_first_match_alone() {
    let mut machine = machine();
    let workflow = machine.invoke(Command::Inject, "payload.dll", Some("notepad"), None);
    assert_eq!(workflow.state(), &State::Done);
    assert_eq!(machine.opened, Some(200));
    assert!(machine.loaded_in(200).contains(&in_directory("work", "payload.dll")));
    assert!(machine.loaded_in(300).is_empty());
    assert_eq!(machine.performed[0], Action::FindProcess { name: String::from("notepad") });
}

#[test]
fn unmatched_process_name_touches_no_module() {
    let mut machine = machine();
    let workflow = machine.invoke(Command::Inject, "./payload.dll", Some("nonexistent_proc"), None);
    assert_eq!(
        workflow.failure().unwrap().kind,
        ErrorKind::ProcessNotFound {
            selector: ProcessSelector::NameSubstring(String::from("nonexistent_proc")),
        }
    );
    assert_eq!(
        machine.performed,
        vec![Action::FindProcess { name: String::from("nonexistent_proc") }]
    );
    assert_eq!(machine.modules.len(), 1);
}

#[test]
fn unknown_process_identifier_touches_no_module() {
    let mut machine = machine();
    let workflow = machine.invoke(Command::Eject, "kernel32.dll", None, Some(999));
    assert_eq!(
        workflow.failure().unwrap().kind,
        ErrorKind::ProcessNotFound { selector: ProcessSelector::NumericId(999) }
    );
    assert_eq!(machine.performed, vec![Action::OpenProcess { pid: 999 }]);
    assert_eq!(machine.modules.len(), 1);
}

#[test]
fn invalid_selector_asks_nothing_of_the_machine() {
    let mut machine = machine();
    let workflow = machine.invoke(Command::Inject, "./payload.dll", Some("foo"), Some(1));
    assert_eq!(workflow.failure().unwrap().kind, ErrorKind::InvalidSelector);
    assert!(machine.performed.is_empty());
    assert_eq!(machine.opened, None);
    let workflow = machine.invoke(Command::Eject, "payload.dll", None, None);
    assert_eq!(workflow.failure().unwrap().kind, ErrorKind::InvalidSelector);
    assert!(machine.performed.is_empty());
}

#[test]
fn module_that_cannot_be_loaded_fails_the_injection() {
    let mut machine = machine();
    let workflow = machine.invoke(Command::Inject, "absent.dll", None, Some(100));
    assert_eq!(
        workflow.failure().unwrap().kind,
        ErrorKind::InjectionFailed { dll_name: String::from("absent.dll") }
    );
    assert_eq!(
        workflow.failure().unwrap().cause,
        vec![String::from("The specified module could not be found. (os error 126)")]
    );
    assert!(machine.loaded_in(100).is_empty());
}
