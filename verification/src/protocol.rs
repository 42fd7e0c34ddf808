//! What passes between the workflow and its driver: the actions that the
//! workflow asks for, and the events with which the driver answers.

use vstd::prelude::*;

use crate::error::ErrorView;
use crate::error::OperationError;
use crate::reference::get_file_name;
use crate::reference::is_absolute_path;
use crate::reference::join_paths;
use crate::reference::named_or_error;
use crate::reference::naming_view;
use crate::reference::parent_of;
use crate::reference::path_file_name;
use crate::reference::path_is_absolute;
use crate::reference::path_join;
use crate::reference::path_parent;
use crate::text::optional_text;
use crate::text::texts;

verus! {

/// What an invocation does to the module.
#[derive(Debug, Clone, Copy, PartialEq, Eq, Structural)]
pub enum Command {
    /// Load the module into the process.
    Inject,
    /// Unload the module from the process.
    Eject,
}

/// The process that an invocation works on, once it has been opened and
/// described. The driver owns the handle; this is what is known of it.
#[derive(Debug, PartialEq, Eq)]
pub struct ResolvedProcess {
    /// The identifier of the process.
    pub pid: u32,
    /// The file name of its executable.
    pub base_name: String,
}

/// A resolved process as a mathematical value.
pub struct ProcessView {
    pub pid: u32,
    pub base_name: Seq<char>,
}

impl View for ResolvedProcess {
    type V = ProcessView;

    open spec fn view(&self) -> ProcessView {
        ProcessView { pid: self.pid, base_name: self.base_name@ }
    }
}

impl Clone for ResolvedProcess {
    fn clone(&self) -> (copy: Self)
        ensures
            copy@ == self@,
    {
        ResolvedProcess { pid: self.pid, base_name: self.base_name.clone() }
    }
}

/// A module that resides in the target process.
#[derive(Debug, Clone, Copy, PartialEq, Eq, Structural)]
pub struct LoadedModule {
    /// The address at which the module is loaded.
    pub base_address: usize,
}

/// What the operator is told while an invocation goes well.
#[derive(Debug, PartialEq, Eq)]
pub enum Notice {
    /// The target process was found.
    TargetResolved { process: ResolvedProcess },
    /// The module reference leads to something on the local disk, so the
    /// module is looked for by its path. The directory is that of the
    /// reference, if it has one.
    SearchingByPath { directory: Option<String> },
    /// The module to unload was found in the process.
    ModuleLocated { dll_name: String, module: LoadedModule },
    /// The module was loaded into the process.
    ModuleLoaded { module: LoadedModule },
    /// The module was unloaded from the process.
    ModuleUnloaded,
}

/// A notice as a mathematical value.
pub enum NoticeView {
    TargetResolved { process: ProcessView },
    SearchingByPath { directory: Option<Seq<char>> },
    ModuleLocated { dll_name: Seq<char>, module: LoadedModule },
    ModuleLoaded { module: LoadedModule },
    ModuleUnloaded,
}

impl View for Notice {
    type V = NoticeView;

    open spec fn view(&self) -> NoticeView {
        match self {
            Notice::TargetResolved { process } => NoticeView::TargetResolved { process: process@ },
            Notice::SearchingByPath { directory } => NoticeView::SearchingByPath {
                directory: optional_text(*directory),
            },
            Notice::ModuleLocated { dll_name, module } => NoticeView::ModuleLocated {
                dll_name: dll_name@,
                module: *module,
            },
            Notice::ModuleLoaded { module } => NoticeView::ModuleLoaded { module: *module },
            Notice::ModuleUnloaded => NoticeView::ModuleUnloaded,
        }
    }
}

impl Clone for Notice {
    fn clone(&self) -> (copy: Self)
        ensures
            copy@ == self@,
    {
        match self {
            Notice::TargetResolved { process } => Notice::TargetResolved {
                process: process.clone(),
            },
            Notice::SearchingByPath { directory } => Notice::SearchingByPath {
                directory: match directory {
                    Some(directory) => Some(directory.clone()),
                    None => None,
                },
            },
            Notice::ModuleLocated { dll_name, module } => Notice::ModuleLocated {
                dll_name: dll_name.clone(),
                module: *module,
            },
            Notice::ModuleLoaded { module } => Notice::ModuleLoaded { module: *module },
            Notice::ModuleUnloaded => Notice::ModuleUnloaded,
        }
    }
}

/// What the workflow asks for next.
///
/// The driver performs every action but the four that only compute on
/// paths, which the workflow performs itself.
#[derive(Debug, PartialEq, Eq)]
pub enum Action {
    /// Open the process with this identifier.
    OpenProcess { pid: u32 },
    /// Open the first process whose executable name contains this text.
    FindProcess { name: String },
    /// Read the file name of the executable of the opened process.
    ReadProcessName,
    /// Read the identifier of the opened process.
    ReadProcessId,
    /// Tell the operator.
    Announce { notice: Notice },
    /// Take the final component of this path. Computed by the workflow.
    ExtractFileName { path: String },
    /// Find out whether this path is absolute. Computed by the workflow.
    CheckAbsolute { path: String },
    /// Read the working directory.
    QueryWorkingDirectory,
    /// Join this path to this base. Computed by the workflow.
    JoinPaths { base: String, path: String },
    /// Find out whether this path leads to something on the local disk.
    ProbePath { path: String },
    /// Take this path without its final component. Computed by the workflow.
    ExtractParent { path: String },
    /// Load the module at this path into the process.
    LoadModule { path: String },
    /// Look among the modules of the process for the one loaded from this
    /// path.
    LocateModuleByPath { path: String },
    /// Look among the modules of the process for the one with this name.
    LocateModuleByName { name: String },
    /// Unload this module from the process.
    UnloadModule { module: LoadedModule },
    /// Release the process and end with success.
    Finish,
    /// Release the process, report the failure and end without success.
    Abort,
}

/// An action as a mathematical value.
pub enum ActionView {
    OpenProcess { pid: u32 },
    FindProcess { name: Seq<char> },
    ReadProcessName,
    ReadProcessId,
    Announce { notice: NoticeView },
    ExtractFileName { path: Seq<char> },
    CheckAbsolute { path: Seq<char> },
    QueryWorkingDirectory,
    JoinPaths { base: Seq<char>, path: Seq<char> },
    ProbePath { path: Seq<char> },
    ExtractParent { path: Seq<char> },
    LoadModule { path: Seq<char> },
    LocateModuleByPath { path: Seq<char> },
    LocateModuleByName { name: Seq<char> },
    UnloadModule { module: LoadedModule },
    Finish,
    Abort,
}

impl View for Action {
    type V = ActionView;

    open spec fn view(&self) -> ActionView {
        match self {
            Action::OpenProcess { pid } => ActionView::OpenProcess { pid: *pid },
            Action::FindProcess { name } => ActionView::FindProcess { name: name@ },
            Action::ReadProcessName => ActionView::ReadProcessName,
            Action::ReadProcessId => ActionView::ReadProcessId,
            Action::Announce { notice } => ActionView::Announce { notice: notice@ },
            Action::ExtractFileName { path } => ActionView::ExtractFileName { path: path@ },
            Action::CheckAbsolute { path } => ActionView::CheckAbsolute { path: path@ },
            Action::QueryWorkingDirectory => ActionView::QueryWorkingDirectory,
            Action::JoinPaths { base, path } => ActionView::JoinPaths { base: base@, path: path@ },
            Action::ProbePath { path } => ActionView::ProbePath { path: path@ },
            Action::ExtractParent { path } => ActionView::ExtractParent { path: path@ },
            Action::LoadModule { path } => ActionView::LoadModule { path: path@ },
            Action::LocateModuleByPath { path } => ActionView::LocateModuleByPath { path: path@ },
            Action::LocateModuleByName { name } => ActionView::LocateModuleByName { name: name@ },
            Action::UnloadModule { module } => ActionView::UnloadModule { module: *module },
            Action::Finish => ActionView::Finish,
            Action::Abort => ActionView::Abort,
        }
    }
}

impl Clone for Action {
    fn clone(&self) -> (copy: Self)
        ensures
            copy@ == self@,
    {
        match self {
            Action::OpenProcess { pid } => Action::OpenProcess { pid: *pid },
            Action::FindProcess { name } => Action::FindProcess { name: name.clone() },
            Action::ReadProcessName => Action::ReadProcessName,
            Action::ReadProcessId => Action::ReadProcessId,
            Action::Announce { notice } => Action::Announce { notice: notice.clone() },
            Action::ExtractFileName { path } => Action::ExtractFileName { path: path.clone() },
            Action::CheckAbsolute { path } => Action::CheckAbsolute { path: path.clone() },
            Action::QueryWorkingDirectory => Action::QueryWorkingDirectory,
            Action::JoinPaths { base, path } => Action::JoinPaths {
                base: base.clone(),
                path: path.clone(),
            },
            Action::ProbePath { path } => Action::ProbePath { path: path.clone() },
            Action::ExtractParent { path } => Action::ExtractParent { path: path.clone() },
            Action::LoadModule { path } => Action::LoadModule { path: path.clone() },
            Action::LocateModuleByPath { path } => Action::LocateModuleByPath {
                path: path.clone(),
            },
            Action::LocateModuleByName { name } => Action::LocateModuleByName {
                name: name.clone(),
            },
            Action::UnloadModule { module } => Action::UnloadModule { module: *module },
            Action::Finish => Action::Finish,
            Action::Abort => Action::Abort,
        }
    }
}

/// How an action turned out.
///
/// Where a step failed, the cause is the chain of messages of the error that
/// was met, the outermost first; it is empty where there was no error.
#[derive(Debug, PartialEq, Eq)]
pub enum Event {
    /// The process was opened.
    ProcessOpened,
    /// No process could be opened: none has the identifier, none that can be
    /// opened has the name, or access was denied.
    ProcessUnavailable { cause: Vec<String> },
    /// The file name of the executable was read.
    ProcessName { base_name: String },
    /// The identifier of the process was read.
    ProcessId { pid: u32 },
    /// The attribute asked for could not be read.
    AttributeUnavailable { cause: Vec<String> },
    /// The operator was told.
    Announced,
    /// The final component of the path was taken, or there is none.
    FileName { outcome: Result<String, OperationError> },
    /// The path is absolute, or it is not.
    Absolute { absolute: bool },
    /// The working directory was read.
    WorkingDirectory { directory: String },
    /// The working directory could not be read.
    WorkingDirectoryUnavailable { cause: Vec<String> },
    /// The two paths were joined.
    Joined { path: String },
    /// The path leads to something on the local disk, or it does not.
    Probed { exists: bool },
    /// The path without its final component was taken, or there is none.
    Parent { parent: Option<String> },
    /// The module was loaded.
    Loaded { module: LoadedModule },
    /// The module could not be loaded.
    LoadFailed { cause: Vec<String> },
    /// The modules of the process were inspected; one matched, or none did.
    Located { found: Option<LoadedModule> },
    /// The modules of the process could not be inspected.
    EnumerationFailed { cause: Vec<String> },
    /// The module was unloaded.
    Unloaded,
    /// The module could not be unloaded.
    UnloadFailed { cause: Vec<String> },
}

/// An event as a mathematical value.
pub enum EventView {
    ProcessOpened,
    ProcessUnavailable { cause: Seq<Seq<char>> },
    ProcessName { base_name: Seq<char> },
    ProcessId { pid: u32 },
    AttributeUnavailable { cause: Seq<Seq<char>> },
    Announced,
    FileName { outcome: Result<Seq<char>, ErrorView> },
    Absolute { absolute: bool },
    WorkingDirectory { directory: Seq<char> },
    WorkingDirectoryUnavailable { cause: Seq<Seq<char>> },
    Joined { path: Seq<char> },
    Probed { exists: bool },
    Parent { parent: Option<Seq<char>> },
    Loaded { module: LoadedModule },
    LoadFailed { cause: Seq<Seq<char>> },
    Located { found: Option<LoadedModule> },
    EnumerationFailed { cause: Seq<Seq<char>> },
    Unloaded,
    UnloadFailed { cause: Seq<Seq<char>> },
}

impl View for Event {
    type V = EventView;

    open spec fn view(&self) -> EventView {
        match self {
            Event::ProcessOpened => EventView::ProcessOpened,
            Event::ProcessUnavailable { cause } => EventView::ProcessUnavailable {
                cause: texts(*cause),
            },
            Event::ProcessName { base_name } => EventView::ProcessName { base_name: base_name@ },
            Event::ProcessId { pid } => EventView::ProcessId { pid: *pid },
            Event::AttributeUnavailable { cause } => EventView::AttributeUnavailable {
                cause: texts(*cause),
            },
            Event::Announced => EventView::Announced,
            Event::FileName { outcome } => EventView::FileName { outcome: naming_view(*outcome) },
            Event::Absolute { absolute } => EventView::Absolute { absolute: *absolute },
            Event::WorkingDirectory { directory } => EventView::WorkingDirectory {
                directory: directory@,
            },
            Event::WorkingDirectoryUnavailable {
                cause,
            } => EventView::WorkingDirectoryUnavailable { cause: texts(*cause) },
            Event::Joined { path } => EventView::Joined { path: path@ },
            Event::Probed { exists } => EventView::Probed { exists: *exists },
            Event::Parent { parent } => EventView::Parent { parent: optional_text(*parent) },
            Event::Loaded { module } => EventView::Loaded { module: *module },
            Event::LoadFailed { cause } => EventView::LoadFailed { cause: texts(*cause) },
            Event::Located { found } => EventView::Located { found: *found },
            Event::EnumerationFailed { cause } => EventView::EnumerationFailed {
                cause: texts(*cause),
            },
            Event::Unloaded => EventView::Unloaded,
            Event::UnloadFailed { cause } => EventView::UnloadFailed { cause: texts(*cause) },
        }
    }
}

/// Whether an event answers an action: whether it tells one of the ways in
/// which the action can turn out. Nothing answers the two actions that end
/// an invocation.
pub open spec fn answers(action: ActionView, event: EventView) -> bool {
    match action {
        ActionView::OpenProcess { .. } | ActionView::FindProcess { .. } => event is ProcessOpened
            || event is ProcessUnavailable,
        ActionView::ReadProcessName => event is ProcessName || event is AttributeUnavailable,
        ActionView::ReadProcessId => event is ProcessId || event is AttributeUnavailable,
        ActionView::Announce { .. } => event is Announced,
        ActionView::ExtractFileName { .. } => event is FileName,
        ActionView::CheckAbsolute { .. } => event is Absolute,
        ActionView::QueryWorkingDirectory => event is WorkingDirectory || event
            is WorkingDirectoryUnavailable,
        ActionView::JoinPaths { .. } => event is Joined,
        ActionView::ProbePath { .. } => event is Probed,
        ActionView::ExtractParent { .. } => event is Parent,
        ActionView::LoadModule { .. } => event is Loaded || event is LoadFailed,
        ActionView::LocateModuleByPath { .. } | ActionView::LocateModuleByName { .. } => event
            is Located || event is EnumerationFailed,
        ActionView::UnloadModule { .. } => event is Unloaded || event is UnloadFailed,
        ActionView::Finish | ActionView::Abort => false,
    }
}

/// Whether an event tells that an action did not do what it was meant to
/// do: that it met an error, or that it found no module.
pub open spec fn tells_failure(event: EventView) -> bool {
    match event {
        EventView::ProcessUnavailable { .. } => true,
        EventView::AttributeUnavailable { .. } => true,
        EventView::FileName { outcome: Err(_) } => true,
        EventView::WorkingDirectoryUnavailable { .. } => true,
        EventView::LoadFailed { .. } => true,
        EventView::Located { found: None } => true,
        EventView::EnumerationFailed { .. } => true,
        EventView::UnloadFailed { .. } => true,
        _ => false,
    }
}

/// The event that answers an action which only computes on paths, and
/// nothing for an action that the driver must perform.
pub open spec fn computed(action: ActionView) -> Option<EventView> {
    match action {
        ActionView::ExtractFileName { path } => Some(
            EventView::FileName { outcome: named_or_error(path_file_name(path)) },
        ),
        ActionView::CheckAbsolute { path } => Some(
            EventView::Absolute { absolute: path_is_absolute(path) },
        ),
        ActionView::JoinPaths { base, path } => Some(
            EventView::Joined { path: path_join(base, path) },
        ),
        ActionView::ExtractParent { path } => Some(
            EventView::Parent { parent: path_parent(path) },
        ),
        _ => None,
    }
}

/// Whether an action is one that the driver performs.
pub open spec fn for_driver(action: ActionView) -> bool {
    computed(action) is None
}

/// The view of an event that may be absent.
pub open spec fn optional_event(event: Option<Event>) -> Option<EventView> {
    match event {
        Some(event) => Some(event@),
        None => None,
    }
}

/// Performs an action that only computes on paths, and gives the event that
/// answers it. Gives nothing for an action that the driver must perform.
pub fn compute(action: &Action) -> (event: Option<Event>)
    ensures
        optional_event(event) == computed(action@),
{
    match action {
        Action::ExtractFileName { path } => Some(
            Event::FileName { outcome: get_file_name(path.as_str()) },
        ),
        Action::CheckAbsolute { path } => Some(
            Event::Absolute { absolute: is_absolute_path(path.as_str()) },
        ),
        Action::JoinPaths { base, path } => Some(
            Event::Joined { path: join_paths(base.as_str(), path.as_str()) },
        ),
        Action::ExtractParent { path } => Some(
            Event::Parent { parent: parent_of(path.as_str()) },
        ),
        _ => None,
    }
}

} // verus!
