//! The workflow of one invocation: resolve the target process, then load a
//! module into it, or find a loaded module and unload it.
//!
//! The workflow does nothing to a process itself. It asks for one action at a
//! time and takes the event that tells how the action turned out. The first
//! step that fails ends the workflow: nothing is tried again and nothing
//! further is asked for.

use vstd::prelude::*;

use crate::error::ErrorKind;
use crate::error::ErrorKindView;
use crate::error::ErrorView;
use crate::error::OperationError;
use crate::error::ProcessAttribute;
use crate::laws::driver_gets_driver_actions;
use crate::protocol::compute;
use crate::protocol::computed;
use crate::protocol::for_driver;
use crate::protocol::Action;
use crate::protocol::ActionView;
use crate::protocol::Command;
use crate::protocol::Event;
use crate::protocol::EventView;
use crate::protocol::LoadedModule;
use crate::protocol::Notice;
use crate::protocol::NoticeView;
use crate::protocol::ProcessView;
use crate::protocol::ResolvedProcess;
use crate::reference::kind_of_reference;
use crate::reference::reference_kind;
use crate::reference::ReferenceKind;
use crate::selector::select;
use crate::selector::ProcessSelector;
use crate::selector::SelectorView;
use crate::text::optional_text;
use crate::text::texts;

verus! {

/// How far an invocation has come.
///
/// Every state from `TargetResolved` to `ModuleUnloaded` holds the process
/// that the driver has open: a module is only ever asked for, found or
/// unloaded while its process is held. `Done` and `Failed` hold nothing; the
/// action that goes with them releases the process.
#[derive(Debug, PartialEq, Eq)]
pub enum State {
    /// The selector is valid and the process is to be opened.
    Start { selector: ProcessSelector },
    /// The process is open and its name is to be read.
    Opened,
    /// The name is known and the identifier is to be read.
    Named { base_name: String },
    /// The process is resolved and the operator is to be told.
    TargetResolved { process: ResolvedProcess },
    /// The file name of the module reference is to be taken.
    Naming { process: ResolvedProcess },
    /// The module is to be loaded.
    Loading { process: ResolvedProcess, dll_name: String },
    /// The module is loaded and the operator is to be told.
    ModuleLoaded { process: ResolvedProcess, module: LoadedModule },
    /// The module reference is to be tested for being absolute.
    Classifying { process: ResolvedProcess, dll_name: String },
    /// The module reference is relative and the working directory is to be
    /// read.
    Anchoring { process: ResolvedProcess, dll_name: String },
    /// The module reference is to be joined to the working directory.
    Joining { process: ResolvedProcess, dll_name: String, directory: String },
    /// The candidate path is to be looked for on the local disk.
    Probing { process: ResolvedProcess, dll_name: String, candidate: String },
    /// The module reference is a path and its parent is to be taken.
    PathRecognised { process: ResolvedProcess, dll_name: String },
    /// The parent is taken and the operator is to be told.
    PathDescribed { process: ResolvedProcess, dll_name: String, parent: Option<String> },
    /// The module is to be looked for among those of the process.
    Locating { process: ResolvedProcess, dll_name: String, kind: ReferenceKind },
    /// The module is found and the operator is to be told.
    ModuleLocated { process: ResolvedProcess, dll_name: String, module: LoadedModule },
    /// The module is to be unloaded.
    Unloading { process: ResolvedProcess, module: LoadedModule },
    /// The module is unloaded and the operator is to be told.
    ModuleUnloaded { process: ResolvedProcess },
    /// The invocation has succeeded.
    Done,
    /// The invocation has failed.
    Failed { error: OperationError },
}

/// A state as a mathematical value.
pub enum StateView {
    Start { selector: SelectorView },
    Opened,
    Named { base_name: Seq<char> },
    TargetResolved { process: ProcessView },
    Naming { process: ProcessView },
    Loading { process: ProcessView, dll_name: Seq<char> },
    ModuleLoaded { process: ProcessView, module: LoadedModule },
    Classifying { process: ProcessView, dll_name: Seq<char> },
    Anchoring { process: ProcessView, dll_name: Seq<char> },
    Joining { process: ProcessView, dll_name: Seq<char>, directory: Seq<char> },
    Probing { process: ProcessView, dll_name: Seq<char>, candidate: Seq<char> },
    PathRecognised { process: ProcessView, dll_name: Seq<char> },
    PathDescribed { process: ProcessView, dll_name: Seq<char>, parent: Option<Seq<char>> },
    Locating { process: ProcessView, dll_name: Seq<char>, kind: ReferenceKind },
    ModuleLocated { process: ProcessView, dll_name: Seq<char>, module: LoadedModule },
    Unloading { process: ProcessView, module: LoadedModule },
    ModuleUnloaded { process: ProcessView },
    Done,
    Failed { error: ErrorView },
}

impl View for State {
    type V = StateView;

    open spec fn view(&self) -> StateView {
        match self {
            State::Start { selector } => StateView::Start { selector: selector@ },
            State::Opened => StateView::Opened,
            State::Named { base_name } => StateView::Named { base_name: base_name@ },
            State::TargetResolved { process } => StateView::TargetResolved { process: process@ },
            State::Naming { process } => StateView::Naming { process: process@ },
            State::Loading { process, dll_name } => StateView::Loading {
                process: process@,
                dll_name: dll_name@,
            },
            State::ModuleLoaded { process, module } => StateView::ModuleLoaded {
                process: process@,
                module: *module,
            },
            State::Classifying { process, dll_name } => StateView::Classifying {
                process: process@,
                dll_name: dll_name@,
            },
            State::Anchoring { process, dll_name } => StateView::Anchoring {
                process: process@,
                dll_name: dll_name@,
            },
            State::Joining { process, dll_name, directory } => StateView::Joining {
                process: process@,
                dll_name: dll_name@,
                directory: directory@,
            },
            State::Probing { process, dll_name, candidate } => StateView::Probing {
                process: process@,
                dll_name: dll_name@,
                candidate: candidate@,
            },
            State::PathRecognised { process, dll_name } => StateView::PathRecognised {
                process: process@,
                dll_name: dll_name@,
            },
            State::PathDescribed { process, dll_name, parent } => StateView::PathDescribed {
                process: process@,
                dll_name: dll_name@,
                parent: optional_text(*parent),
            },
            State::Locating { process, dll_name, kind } => StateView::Locating {
                process: process@,
                dll_name: dll_name@,
                kind: *kind,
            },
            State::ModuleLocated { process, dll_name, module } => StateView::ModuleLocated {
                process: process@,
                dll_name: dll_name@,
                module: *module,
            },
            State::Unloading { process, module } => StateView::Unloading {
                process: process@,
                module: *module,
            },
            State::ModuleUnloaded { process } => StateView::ModuleUnloaded { process: process@ },
            State::Done => StateView::Done,
            State::Failed { error } => StateView::Failed { error: error@ },
        }
    }
}

/// One invocation: what it is to do, to which module, and how far it has
/// come.
#[derive(Debug, PartialEq, Eq)]
pub struct Workflow {
    command: Command,
    dll: String,
    state: State,
}

/// A workflow as a mathematical value.
pub struct WorkflowView {
    pub command: Command,
    pub dll: Seq<char>,
    pub state: StateView,
}

impl View for Workflow {
    type V = WorkflowView;

    closed spec fn view(&self) -> WorkflowView {
        WorkflowView { command: self.command, dll: self.dll@, state: self.state@ }
    }
}

/// The workflow of an invocation before anything has been done: ready to open
/// the process where the selector is valid, and failed where it is not.
pub open spec fn initial(
    command: Command,
    dll: Seq<char>,
    process: Option<Seq<char>>,
    pid: Option<u32>,
) -> WorkflowView {
    WorkflowView {
        command,
        dll,
        state: match select(process, pid) {
            Ok(selector) => StateView::Start { selector },
            Err(error) => StateView::Failed { error },
        },
    }
}

/// The action that a workflow waits for.
pub open spec fn pending(workflow: WorkflowView) -> ActionView {
    match workflow.state {
        StateView::Start { selector: SelectorView::NumericId(pid) } => ActionView::OpenProcess {
            pid,
        },
        StateView::Start { selector: SelectorView::NameSubstring(name) } => {
            ActionView::FindProcess { name }
        },
        StateView::Opened => ActionView::ReadProcessName,
        StateView::Named { .. } => ActionView::ReadProcessId,
        StateView::TargetResolved { process } => ActionView::Announce {
            notice: NoticeView::TargetResolved { process },
        },
        StateView::Naming { .. } => ActionView::ExtractFileName { path: workflow.dll },
        StateView::Loading { .. } => ActionView::LoadModule { path: workflow.dll },
        StateView::ModuleLoaded { module, .. } => ActionView::Announce {
            notice: NoticeView::ModuleLoaded { module },
        },
        StateView::Classifying { .. } => ActionView::CheckAbsolute { path: workflow.dll },
        StateView::Anchoring { .. } => ActionView::QueryWorkingDirectory,
        StateView::Joining { directory, .. } => ActionView::JoinPaths {
            base: directory,
            path: workflow.dll,
        },
        StateView::Probing { candidate, .. } => ActionView::ProbePath { path: candidate },
        StateView::PathRecognised { .. } => ActionView::ExtractParent { path: workflow.dll },
        StateView::PathDescribed { parent, .. } => ActionView::Announce {
            notice: NoticeView::SearchingByPath { directory: parent },
        },
        StateView::Locating { kind: ReferenceKind::Path, .. } => ActionView::LocateModuleByPath {
            path: workflow.dll,
        },
        StateView::Locating { kind: ReferenceKind::Name, .. } => ActionView::LocateModuleByName {
            name: workflow.dll,
        },
        StateView::ModuleLocated { dll_name, module, .. } => ActionView::Announce {
            notice: NoticeView::ModuleLocated { dll_name, module },
        },
        StateView::Unloading { module, .. } => ActionView::UnloadModule { module },
        StateView::ModuleUnloaded { .. } => ActionView::Announce {
            notice: NoticeView::ModuleUnloaded,
        },
        StateView::Done => ActionView::Finish,
        StateView::Failed { .. } => ActionView::Abort,
    }
}

/// The state that follows a state when an event arrives.
///
/// An event that answers the pending action moves the workflow on, to the
/// next step or to failure. Any other event leaves the state as it is.
pub open spec fn next_state(workflow: WorkflowView, event: EventView) -> StateView {
    match (workflow.state, event) {
        (StateView::Start { .. }, EventView::ProcessOpened) => StateView::Opened,
        (StateView::Start { selector }, EventView::ProcessUnavailable { cause }) => {
            StateView::Failed {
                error: ErrorView { kind: ErrorKindView::ProcessNotFound { selector }, cause },
            }
        },
        (StateView::Opened, EventView::ProcessName { base_name }) => StateView::Named {
            base_name,
        },
        (StateView::Opened, EventView::AttributeUnavailable { cause }) => StateView::Failed {
            error: ErrorView {
                kind: ErrorKindView::ProcessAttributeUnavailable {
                    attribute: ProcessAttribute::Name,
                },
                cause,
            },
        },
        (StateView::Named { base_name }, EventView::ProcessId { pid }) => {
            StateView::TargetResolved { process: ProcessView { pid, base_name } }
        },
        (StateView::Named { .. }, EventView::AttributeUnavailable { cause }) => {
            StateView::Failed {
                error: ErrorView {
                    kind: ErrorKindView::ProcessAttributeUnavailable {
                        attribute: ProcessAttribute::Id,
                    },
                    cause,
                },
            }
        },
        (StateView::TargetResolved { process }, EventView::Announced) => StateView::Naming {
            process,
        },
        (StateView::Naming { process }, EventView::FileName { outcome: Ok(dll_name) }) => {
            match workflow.command {
                Command::Inject => StateView::Loading { process, dll_name },
                Command::Eject => StateView::Classifying { process, dll_name },
            }
        },
        (StateView::Naming { .. }, EventView::FileName { outcome: Err(error) }) => {
            StateView::Failed { error }
        },
        (StateView::Loading { process, .. }, EventView::Loaded { module }) => {
            StateView::ModuleLoaded { process, module }
        },
        (StateView::Loading { dll_name, .. }, EventView::LoadFailed { cause }) => {
            StateView::Failed {
                error: ErrorView { kind: ErrorKindView::InjectionFailed { dll_name }, cause },
            }
        },
        (StateView::ModuleLoaded { .. }, EventView::Announced) => StateView::Done,
        (StateView::Classifying { process, dll_name }, EventView::Absolute { absolute }) => {
            if absolute {
                StateView::Probing { process, dll_name, candidate: workflow.dll }
            } else {
                StateView::Anchoring { process, dll_name }
            }
        },
        (StateView::Anchoring { process, dll_name }, EventView::WorkingDirectory { directory }) => {
            StateView::Joining { process, dll_name, directory }
        },
        (StateView::Anchoring { .. }, EventView::WorkingDirectoryUnavailable { cause }) => {
            StateView::Failed {
                error: ErrorView { kind: ErrorKindView::WorkingDirectoryUnavailable, cause },
            }
        },
        (StateView::Joining { process, dll_name, .. }, EventView::Joined { path }) => {
            StateView::Probing { process, dll_name, candidate: path }
        },
        (StateView::Probing { process, dll_name, .. }, EventView::Probed { exists }) => {
            match kind_of_reference(exists) {
                ReferenceKind::Path => StateView::PathRecognised { process, dll_name },
                ReferenceKind::Name => StateView::Locating {
                    process,
                    dll_name,
                    kind: ReferenceKind::Name,
                },
            }
        },
        (StateView::PathRecognised { process, dll_name }, EventView::Parent { parent }) => {
            StateView::PathDescribed { process, dll_name, parent }
        },
        (StateView::PathDescribed { process, dll_name, .. }, EventView::Announced) => {
            StateView::Locating { process, dll_name, kind: ReferenceKind::Path }
        },
        (
            StateView::Locating { process, dll_name, .. },
            EventView::Located { found: Some(module) },
        ) => StateView::ModuleLocated { process, dll_name, module },
        (StateView::Locating { dll_name, .. }, EventView::Located { found: None }) => {
            StateView::Failed {
                error: ErrorView {
                    kind: ErrorKindView::ModuleNotFound { dll_name },
                    cause: Seq::empty(),
                },
            }
        },
        (StateView::Locating { .. }, EventView::EnumerationFailed { cause }) => {
            StateView::Failed {
                error: ErrorView { kind: ErrorKindView::ModuleEnumerationFailed, cause },
            }
        },
        (StateView::ModuleLocated { process, module, .. }, EventView::Announced) => {
            StateView::Unloading { process, module }
        },
        (StateView::Unloading { process, .. }, EventView::Unloaded) => StateView::ModuleUnloaded {
            process,
        },
        (StateView::Unloading { .. }, EventView::UnloadFailed { cause }) => StateView::Failed {
            error: ErrorView { kind: ErrorKindView::EjectionFailed, cause },
        },
        (StateView::ModuleUnloaded { .. }, EventView::Announced) => StateView::Done,
        (state, _) => state,
    }
}

/// One step of a workflow: the workflow after the event, and the action that
/// it then waits for.
pub open spec fn transition(workflow: WorkflowView, event: EventView) -> (
    WorkflowView,
    ActionView,
) {
    let next = WorkflowView { state: next_state(workflow, event), ..workflow };
    (next, pending(next))
}

/// Carries out the action where it only computes on paths, and takes the
/// step that its result leads to. Leaves everything as it is where the
/// action is for the driver.
pub open spec fn settle(step: (WorkflowView, ActionView)) -> (WorkflowView, ActionView) {
    match computed(step.1) {
        Some(event) => transition(step.0, event),
        None => step,
    }
}

/// One step of a workflow as its driver sees it: the step that the event
/// leads to, and after it the steps that only compute on paths. No more than
/// two of these follow one another.
pub open spec fn advanced(workflow: WorkflowView, event: EventView) -> (WorkflowView, ActionView) {
    settle(settle(transition(workflow, event)))
}

/// The exit status of a process that runs a workflow: zero once it is done,
/// one once it has failed, and none while it is under way.
pub open spec fn exit_status_of(workflow: WorkflowView) -> Option<u8> {
    match workflow.state {
        StateView::Done => Some(0u8),
        StateView::Failed { .. } => Some(1u8),
        _ => None,
    }
}

/// The view of an error that may be absent.
pub open spec fn optional_error(error: Option<&OperationError>) -> Option<ErrorView> {
    match error {
        Some(error) => Some(error@),
        None => None,
    }
}

/// The failure that a workflow has ended in, if it has.
pub open spec fn failure_of(workflow: WorkflowView) -> Option<ErrorView> {
    match workflow.state {
        StateView::Failed { error } => Some(error),
        _ => None,
    }
}

impl Workflow {
    /// Begins an invocation. The process is named by `process` or by `pid`;
    /// where both or neither are given the workflow has failed before
    /// anything is asked of the driver.
    pub fn new(command: Command, dll: String, process: Option<String>, pid: Option<u32>) -> (workflow:
        Workflow)
        ensures
            workflow@ == initial(command, dll@, optional_text(process), pid),
    {
        let state = match ProcessSelector::from_fields(process, pid) {
            Ok(selector) => State::Start { selector },
            Err(error) => State::Failed { error },
        };
        Workflow { command, dll, state }
    }

    /// What the invocation does to the module.
    pub fn command(&self) -> (command: Command)
        ensures
            command == self@.command,
    {
        self.command
    }

    /// The module reference that the operator gave.
    pub fn dll(&self) -> (dll: &str)
        ensures
            dll@ == self@.dll,
    {
        self.dll.as_str()
    }

    /// How far the invocation has come.
    pub fn state(&self) -> (state: &State)
        ensures
            state@ == self@.state,
    {
        &self.state
    }

    /// The failure that the invocation has ended in, if it has.
    pub fn failure(&self) -> (error: Option<&OperationError>)
        ensures
            optional_error(error) == failure_of(self@),
    {
        match &self.state {
            State::Failed { error } => Some(error),
            _ => None,
        }
    }

    /// The exit status to end with: zero after success, one after failure,
    /// none while the invocation is under way.
    pub fn exit_status(&self) -> (status: Option<u8>)
        ensures
            status == exit_status_of(self@),
    {
        match &self.state {
            State::Done => Some(0u8),
            State::Failed { .. } => Some(1u8),
            _ => None,
        }
    }

    /// The action that the workflow waits for.
    pub fn pending(&self) -> (action: Action)
        ensures
            action@ == pending(self@),
    {
        match &self.state {
            State::Start { selector: ProcessSelector::NumericId(pid) } => Action::OpenProcess {
                pid: *pid,
            },
            State::Start { selector: ProcessSelector::NameSubstring(name) } => {
                Action::FindProcess { name: name.clone() }
            },
            State::Opened => Action::ReadProcessName,
            State::Named { .. } => Action::ReadProcessId,
            State::TargetResolved { process } => Action::Announce {
                notice: Notice::TargetResolved { process: process.clone() },
            },
            State::Naming { .. } => Action::ExtractFileName { path: self.dll.clone() },
            State::Loading { .. } => Action::LoadModule { path: self.dll.clone() },
            State::ModuleLoaded { module, .. } => Action::Announce {
                notice: Notice::ModuleLoaded { module: *module },
            },
            State::Classifying { .. } => Action::CheckAbsolute { path: self.dll.clone() },
            State::Anchoring { .. } => Action::QueryWorkingDirectory,
            State::Joining { directory, .. } => Action::JoinPaths {
                base: directory.clone(),
                path: self.dll.clone(),
            },
            State::Probing { candidate, .. } => Action::ProbePath { path: candidate.clone() },
            State::PathRecognised { .. } => Action::ExtractParent { path: self.dll.clone() },
            State::PathDescribed { parent, .. } => Action::Announce {
                notice: Notice::SearchingByPath {
                    directory: match parent {
                        Some(parent) => Some(parent.clone()),
                        None => None,
                    },
                },
            },
            State::Locating { kind: ReferenceKind::Path, .. } => Action::LocateModuleByPath {
                path: self.dll.clone(),
            },
            State::Locating { kind: ReferenceKind::Name, .. } => Action::LocateModuleByName {
                name: self.dll.clone(),
            },
            State::ModuleLocated { dll_name, module, .. } => Action::Announce {
                notice: Notice::ModuleLocated { dll_name: dll_name.clone(), module: *module },
            },
            State::Unloading { module, .. } => Action::UnloadModule { module: *module },
            State::ModuleUnloaded { .. } => Action::Announce { notice: Notice::ModuleUnloaded },
            State::Done => Action::Finish,
            State::Failed { .. } => Action::Abort,
        }
    }

    /// Takes one event and gives the workflow after it, with the action that
    /// it then waits for. An event that does not answer the pending action
    /// changes nothing, and the pending action is asked for again.
    pub fn react(self, event: Event) -> (step: (Workflow, Action))
        ensures
            (step.0@, step.1@) == transition(self@, event@),
    {
        let command = self.command;
        let dll = self.dll;
        let state = match (self.state, event) {
            (State::Start { .. }, Event::ProcessOpened) => State::Opened,
            (State::Start { selector }, Event::ProcessUnavailable { cause }) => State::Failed {
                error: OperationError { kind: ErrorKind::ProcessNotFound { selector }, cause },
            },
            (State::Opened, Event::ProcessName { base_name }) => State::Named { base_name },
            (State::Opened, Event::AttributeUnavailable { cause }) => State::Failed {
                error: OperationError {
                    kind: ErrorKind::ProcessAttributeUnavailable {
                        attribute: ProcessAttribute::Name,
                    },
                    cause,
                },
            },
            (State::Named { base_name }, Event::ProcessId { pid }) => State::TargetResolved {
                process: ResolvedProcess { pid, base_name },
            },
            (State::Named { .. }, Event::AttributeUnavailable { cause }) => State::Failed {
                error: OperationError {
                    kind: ErrorKind::ProcessAttributeUnavailable {
                        attribute: ProcessAttribute::Id,
                    },
                    cause,
                },
            },
            (State::TargetResolved { process }, Event::Announced) => State::Naming { process },
            (State::Naming { process }, Event::FileName { outcome: Ok(dll_name) }) => {
                match command {
                    Command::Inject => State::Loading { process, dll_name },
                    Command::Eject => State::Classifying { process, dll_name },
                }
            },
            (State::Naming { .. }, Event::FileName { outcome: Err(error) }) => State::Failed {
                error,
            },
            (State::Loading { process, .. }, Event::Loaded { module }) => State::ModuleLoaded {
                process,
                module,
            },
            (State::Loading { dll_name, .. }, Event::LoadFailed { cause }) => State::Failed {
                error: OperationError { kind: ErrorKind::InjectionFailed { dll_name }, cause },
            },
            (State::ModuleLoaded { .. }, Event::Announced) => State::Done,
            (State::Classifying { process, dll_name }, Event::Absolute { absolute }) => {
                if absolute {
                    State::Probing { process, dll_name, candidate: dll.clone() }
                } else {
                    State::Anchoring { process, dll_name }
                }
            },
            (State::Anchoring { process, dll_name }, Event::WorkingDirectory { directory }) => {
                State::Joining { process, dll_name, directory }
            },
            (State::Anchoring { .. }, Event::WorkingDirectoryUnavailable { cause }) => {
                State::Failed {
                    error: OperationError { kind: ErrorKind::WorkingDirectoryUnavailable, cause },
                }
            },
            (State::Joining { process, dll_name, .. }, Event::Joined { path }) => State::Probing {
                process,
                dll_name,
                candidate: path,
            },
            (State::Probing { process, dll_name, .. }, Event::Probed { exists }) => {
                match reference_kind(exists) {
                    ReferenceKind::Path => State::PathRecognised { process, dll_name },
                    ReferenceKind::Name => State::Locating {
                        process,
                        dll_name,
                        kind: ReferenceKind::Name,
                    },
                }
            },
            (State::PathRecognised { process, dll_name }, Event::Parent { parent }) => {
                State::PathDescribed { process, dll_name, parent }
            },
            (State::PathDescribed { process, dll_name, .. }, Event::Announced) => State::Locating {
                process,
                dll_name,
                kind: ReferenceKind::Path,
            },
            (
                State::Locating { process, dll_name, .. },
                Event::Located { found: Some(module) },
            ) => State::ModuleLocated { process, dll_name, module },
            (State::Locating { dll_name, .. }, Event::Located { found: None }) => {
                let cause: Vec<String> = Vec::new();
                assert(texts(cause) =~= Seq::empty());
                State::Failed {
                    error: OperationError { kind: ErrorKind::ModuleNotFound { dll_name }, cause },
                }
            },
            (State::Locating { .. }, Event::EnumerationFailed { cause }) => State::Failed {
                error: OperationError { kind: ErrorKind::ModuleEnumerationFailed, cause },
            },
            (State::ModuleLocated { process, module, .. }, Event::Announced) => State::Unloading {
                process,
                module,
            },
            (State::Unloading { process, .. }, Event::Unloaded) => State::ModuleUnloaded {
                process,
            },
            (State::Unloading { .. }, Event::UnloadFailed { cause }) => State::Failed {
                error: OperationError { kind: ErrorKind::EjectionFailed, cause },
            },
            (State::ModuleUnloaded { .. }, Event::Announced) => State::Done,
            (state, _) => state,
        };
        let next = Workflow { command, dll, state };
        let action = next.pending();
        (next, action)
    }

    /// Carries out the action where it only computes on paths, and takes the
    /// step that its result leads to.
    fn settle(self, action: Action) -> (step: (Workflow, Action))
        ensures
            (step.0@, step.1@) == settle((self@, action@)),
    {
        match compute(&action) {
            Some(event) => self.react(event),
            None => (self, action),
        }
    }

    /// Takes one event from the driver and gives the workflow after it, with
    /// the next action for the driver. What only computes on paths is done
    /// on the way.
    pub fn advance(self, event: Event) -> (step: (Workflow, Action))
        ensures
            (step.0@, step.1@) == advanced(self@, event@),
            for_driver(step.1@),
    {
        proof {
            driver_gets_driver_actions(self@, event@);
        }
        let (next, action) = self.react(event);
        let (next, action) = next.settle(action);
        next.settle(action)
    }
}

} // verus!
