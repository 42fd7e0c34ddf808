//! What holds of every workflow, whatever the driver reports.

use vstd::prelude::*;

use crate::error::chain_of;
use crate::error::describe;
use crate::error::invalid_selector;
use crate::error::module_name_unavailable;
use crate::error::report_line;
use crate::error::report_of;
use crate::error::ErrorKindView;
use crate::error::ErrorView;
use crate::protocol::answers;
use crate::protocol::computed;
use crate::protocol::for_driver;
use crate::protocol::tells_failure;
use crate::protocol::ActionView;
use crate::protocol::Command;
use crate::protocol::EventView;
use crate::protocol::LoadedModule;
use crate::protocol::NoticeView;
use crate::protocol::ProcessView;
use crate::reference::path_file_name;
use crate::reference::path_is_absolute;
use crate::reference::path_join;
use crate::reference::path_parent;
use crate::selector::SelectorView;
use crate::workflow::advanced;
use crate::workflow::initial;
use crate::workflow::pending;
use crate::workflow::settle;
use crate::workflow::transition;
use crate::workflow::StateView;
use crate::workflow::WorkflowView;

verus! {

/// The workflow after one event.
pub open spec fn after(workflow: WorkflowView, event: EventView) -> WorkflowView {
    transition(workflow, event).0
}

/// The workflow after a sequence of events, taken in order.
pub open spec fn run(workflow: WorkflowView, events: Seq<EventView>) -> WorkflowView
    decreases events.len(),
{
    if events.len() == 0 {
        workflow
    } else {
        after(run(workflow, events.drop_last()), events.last())
    }
}

/// Whether a workflow has come to its end, in success or in failure.
pub open spec fn ended(workflow: WorkflowView) -> bool {
    workflow.state is Done || workflow.state is Failed
}

/// Whether an action opens a process.
pub open spec fn opens_process(action: ActionView) -> bool {
    action is OpenProcess || action is FindProcess
}

/// Whether an action loads, looks for or unloads a module.
pub open spec fn touches_module(action: ActionView) -> bool {
    action is LoadModule || action is LocateModuleByPath || action is LocateModuleByName
        || action is UnloadModule
}

/// The process that a state holds.
pub open spec fn held_process(state: StateView) -> Option<ProcessView> {
    match state {
        StateView::TargetResolved { process } => Some(process),
        StateView::Naming { process } => Some(process),
        StateView::Loading { process, .. } => Some(process),
        StateView::ModuleLoaded { process, .. } => Some(process),
        StateView::Classifying { process, .. } => Some(process),
        StateView::Anchoring { process, .. } => Some(process),
        StateView::Joining { process, .. } => Some(process),
        StateView::Probing { process, .. } => Some(process),
        StateView::PathRecognised { process, .. } => Some(process),
        StateView::PathDescribed { process, .. } => Some(process),
        StateView::Locating { process, .. } => Some(process),
        StateView::ModuleLocated { process, .. } => Some(process),
        StateView::Unloading { process, .. } => Some(process),
        StateView::ModuleUnloaded { process } => Some(process),
        _ => None,
    }
}

/// The cause that an event reports, where it reports a failed action.
pub open spec fn reported_cause(event: EventView) -> Option<Seq<Seq<char>>> {
    match event {
        EventView::ProcessUnavailable { cause } => Some(cause),
        EventView::AttributeUnavailable { cause } => Some(cause),
        EventView::FileName { outcome: Err(error) } => Some(error.cause),
        EventView::WorkingDirectoryUnavailable { cause } => Some(cause),
        EventView::LoadFailed { cause } => Some(cause),
        EventView::EnumerationFailed { cause } => Some(cause),
        EventView::UnloadFailed { cause } => Some(cause),
        _ => None,
    }
}

/// Whether the state of a workflow belongs to its command: the states of
/// loading to an injection, the states of locating and unloading to an
/// ejection.
pub open spec fn fits_command(workflow: WorkflowView) -> bool {
    match workflow.state {
        StateView::Loading { .. } | StateView::ModuleLoaded { .. } => workflow.command
            == Command::Inject,
        StateView::Classifying { .. }
        | StateView::Anchoring { .. }
        | StateView::Joining { .. }
        | StateView::Probing { .. }
        | StateView::PathRecognised { .. }
        | StateView::PathDescribed { .. }
        | StateView::Locating { .. }
        | StateView::ModuleLocated { .. }
        | StateView::Unloading { .. }
        | StateView::ModuleUnloaded { .. } => workflow.command == Command::Eject,
        _ => true,
    }
}

/// A workflow that has ended stays as it is: no event moves it, and all it
/// ever asks for is to finish or to abort. Nothing is tried again.
pub proof fn end_is_final(workflow: WorkflowView, events: Seq<EventView>)
    requires
        ended(workflow),
    ensures
        run(workflow, events) == workflow,
        pending(workflow) is Finish || pending(workflow) is Abort,
    decreases events.len(),
{
    if events.len() > 0 {
        end_is_final(workflow, events.drop_last());
    }
}

/// An event that does not answer the pending action changes nothing, and
/// one that answers it always moves the workflow on.
pub proof fn only_answers_move_the_workflow(workflow: WorkflowView, event: EventView)
    ensures
        answers(pending(workflow), event) <==> after(workflow, event) != workflow,
{
}

/// No failure is passed over: when an action fails, the workflow has failed
/// and asks for nothing but to abort. And no success is taken for a
/// failure: when an action succeeds, the workflow has not failed.
pub proof fn failure_ends_the_workflow(workflow: WorkflowView, event: EventView)
    requires
        answers(pending(workflow), event),
    ensures
        tells_failure(event) <==> after(workflow, event).state is Failed,
        tells_failure(event) ==> pending(after(workflow, event)) is Abort,
{
}

/// The result of what only computes on paths answers the action that asked
/// for it.
pub proof fn computation_answers_its_action(action: ActionView)
    ensures
        computed(action) matches Some(event) ==> answers(action, event),
{
}

/// A selector with both a process name and a process identifier, or with
/// neither, makes the workflow fail as an invalid selector at once. Whatever
/// the driver reports afterwards, the workflow asks for nothing but to
/// abort, so no process is ever looked for.
pub proof fn invalid_selector_fails_before_any_lookup(
    command: Command,
    dll: Seq<char>,
    process: Option<Seq<char>>,
    pid: Option<u32>,
    events: Seq<EventView>,
)
    requires
        process is Some <==> pid is Some,
    ensures
        initial(command, dll, process, pid).state == (StateView::Failed {
            error: invalid_selector(),
        }),
        run(initial(command, dll, process, pid), events) == initial(command, dll, process, pid),
        pending(run(initial(command, dll, process, pid), events)) is Abort,
{
    end_is_final(initial(command, dll, process, pid), events);
}

/// A selector with exactly one of the two fields makes the workflow begin by
/// opening the process that the field names.
pub proof fn valid_selector_opens_the_process(
    command: Command,
    dll: Seq<char>,
    process: Option<Seq<char>>,
    pid: Option<u32>,
)
    requires
        !(process is Some <==> pid is Some),
    ensures
        pid matches Some(id) ==> pending(initial(command, dll, process, pid)) == (
        ActionView::OpenProcess { pid: id }),
        process matches Some(name) ==> pending(initial(command, dll, process, pid)) == (
        ActionView::FindProcess { name }),
{
}

/// Where no process can be opened for the selector, be it an identifier that
/// no running process has or a name that no running process contains, the
/// workflow fails with the selector as the process that was not found, and
/// keeps the cause that the driver gave. Whatever the driver reports
/// afterwards, the workflow asks for nothing but to abort, so no module is
/// ever touched.
pub proof fn unavailable_process_is_not_found(
    workflow: WorkflowView,
    cause: Seq<Seq<char>>,
    events: Seq<EventView>,
)
    requires
        workflow.state is Start,
    ensures
        after(workflow, EventView::ProcessUnavailable { cause }).state == (StateView::Failed {
            error: ErrorView {
                kind: ErrorKindView::ProcessNotFound { selector: workflow.state->selector },
                cause,
            },
        }),
        pending(run(after(workflow, EventView::ProcessUnavailable { cause }), events)) is Abort,
{
    end_is_final(after(workflow, EventView::ProcessUnavailable { cause }), events);
}

/// Where a process can be opened for the selector, the workflow resolves
/// exactly that process: the one whose name and identifier the driver reads
/// back. The same reports always resolve the same process.
pub proof fn opened_process_is_the_one_resolved(
    workflow: WorkflowView,
    base_name: Seq<char>,
    pid: u32,
)
    requires
        workflow.state is Start,
    ensures
        after(
            after(after(workflow, EventView::ProcessOpened), EventView::ProcessName { base_name }),
            EventView::ProcessId { pid },
        ).state == (StateView::TargetResolved { process: ProcessView { pid, base_name } }),
        pending(
            after(
                after(
                    after(workflow, EventView::ProcessOpened),
                    EventView::ProcessName { base_name },
                ),
                EventView::ProcessId { pid },
            ),
        ) == (ActionView::Announce {
            notice: NoticeView::TargetResolved {
                process: ProcessView { pid, base_name },
            },
        }),
{
}

/// A workflow that holds a process keeps that very process until it ends: an
/// invocation never works on a second process.
pub proof fn held_process_is_kept(workflow: WorkflowView, event: EventView)
    requires
        held_process(workflow.state) is Some,
    ensures
        ended(after(workflow, event)) || held_process(after(workflow, event).state)
            == held_process(workflow.state),
{
}

/// A module is loaded, looked for, unloaded or announced only by a workflow
/// that holds a process. A workflow that has ended holds none and asks for
/// no module.
pub proof fn module_needs_held_process(workflow: WorkflowView)
    ensures
        touches_module(pending(workflow)) ==> held_process(workflow.state) is Some,
        ended(workflow) ==> held_process(workflow.state) is None && !touches_module(
            pending(workflow),
        ),
{
}

/// No module is touched before the process is resolved and the operator
/// has been told of it, and a process is opened at the start of an
/// invocation only.
pub proof fn module_waits_for_resolution(workflow: WorkflowView)
    ensures
        touches_module(pending(workflow)) ==> !(workflow.state is Start || workflow.state is Opened
            || workflow.state is Named || workflow.state is TargetResolved),
        opens_process(pending(workflow)) <==> workflow.state is Start,
{
}

/// When a step fails, the failure keeps the cause that the driver reported:
/// no cause is dropped or replaced.
pub proof fn cause_is_preserved(workflow: WorkflowView, event: EventView)
    requires
        !ended(workflow),
        after(workflow, event).state is Failed,
    ensures
        reported_cause(event) matches Some(cause) ==> after(workflow, event).state->error.cause
            == cause,
{
}

/// The report of an error has one line for the failed step and one for each
/// message of its cause. The failed step comes first and the deepest cause
/// last.
pub proof fn report_ends_with_deepest_cause(error: ErrorView)
    ensures
        report_of(error).len() == 1 + error.cause.len(),
        report_of(error).first() == report_line(0, describe(error.kind)),
        error.cause.len() > 0 ==> report_of(error).last() == report_line(
            error.cause.len() as int,
            error.cause.last(),
        ),
        error.cause.len() > 0 ==> chain_of(error).last() == error.cause.last(),
{
}

/// The steps of loading belong to injections and the steps of locating and
/// unloading to ejections, from the beginning of an invocation and after
/// every event.
pub proof fn state_fits_command(
    command: Command,
    dll: Seq<char>,
    process: Option<Seq<char>>,
    pid: Option<u32>,
    events: Seq<EventView>,
)
    ensures
        fits_command(run(initial(command, dll, process, pid), events)),
        run(initial(command, dll, process, pid), events).command == command,
        run(initial(command, dll, process, pid), events).dll == dll,
    decreases events.len(),
{
    if events.len() > 0 {
        state_fits_command(command, dll, process, pid, events.drop_last());
    }
}

/// An injection never looks for a module and never unloads one; an ejection
/// never loads one.
pub proof fn command_limits_module_actions(
    command: Command,
    dll: Seq<char>,
    process: Option<Seq<char>>,
    pid: Option<u32>,
    events: Seq<EventView>,
)
    ensures
        pending(run(initial(command, dll, process, pid), events)) is LoadModule ==> command
            == Command::Inject,
        pending(run(initial(command, dll, process, pid), events)) is LocateModuleByPath
            || pending(run(initial(command, dll, process, pid), events)) is LocateModuleByName
            || pending(run(initial(command, dll, process, pid), events)) is UnloadModule ==> command
            == Command::Eject,
{
    state_fits_command(command, dll, process, pid, events);
}

/// Where the modules of the process are inspected and none matches, the
/// workflow fails with the module as not found, never as a failed
/// inspection. Whatever the driver reports afterwards, the workflow asks for
/// nothing but to abort: a module that is not loaded is never unloaded, not
/// even in part.
pub proof fn absent_module_is_never_unloaded(workflow: WorkflowView, events: Seq<EventView>)
    requires
        workflow.state is Locating,
    ensures
        after(workflow, EventView::Located { found: None }).state == (StateView::Failed {
            error: ErrorView {
                kind: ErrorKindView::ModuleNotFound { dll_name: workflow.state->Locating_dll_name },
                cause: Seq::empty(),
            },
        }),
        pending(run(after(workflow, EventView::Located { found: None }), events)) is Abort,
{
    end_is_final(after(workflow, EventView::Located { found: None }), events);
}

/// Where the modules of the process cannot be inspected, the workflow fails
/// with the failed inspection and its cause, never with the module as not
/// found.
pub proof fn failed_inspection_is_told_apart(workflow: WorkflowView, cause: Seq<Seq<char>>)
    requires
        workflow.state is Locating,
    ensures
        after(workflow, EventView::EnumerationFailed { cause }).state == (StateView::Failed {
            error: ErrorView { kind: ErrorKindView::ModuleEnumerationFailed, cause },
        }),
{
}

/// A module reference that leads to something on the local disk is looked
/// for by its path, once the operator has been told of its directory; any
/// other is looked for by its name. Either way the reference is handed on as
/// the operator gave it.
pub proof fn lookup_follows_reference_kind(workflow: WorkflowView)
    requires
        workflow.state is Probing,
    ensures
        advanced(workflow, EventView::Probed { exists: true }).1 == (ActionView::Announce {
            notice: NoticeView::SearchingByPath { directory: path_parent(workflow.dll) },
        }),
        pending(
            after(advanced(workflow, EventView::Probed { exists: true }).0, EventView::Announced),
        ) == (ActionView::LocateModuleByPath { path: workflow.dll }),
        pending(after(workflow, EventView::Probed { exists: false })) == (
        ActionView::LocateModuleByName { name: workflow.dll }),
{
}

/// Whichever way a module was looked for, the module that was found is the
/// one that is unloaded, once the operator has been told of it.
pub proof fn located_module_is_the_one_unloaded(workflow: WorkflowView, module: LoadedModule)
    requires
        workflow.state is Locating,
    ensures
        pending(
            after(
                after(workflow, EventView::Located { found: Some(module) }),
                EventView::Announced,
            ),
        ) == (ActionView::UnloadModule { module }),
{
}

/// An injection whose every step succeeds loads the module at the reference
/// that the operator gave, and is done once the operator has been told where
/// it was loaded.
pub proof fn injection_completes(
    workflow: WorkflowView,
    dll_name: Seq<char>,
    module: LoadedModule,
)
    requires
        workflow.state is Naming,
        workflow.command == Command::Inject,
    ensures
        pending(after(workflow, EventView::FileName { outcome: Ok(dll_name) })) == (
        ActionView::LoadModule { path: workflow.dll }),
        after(
            after(
                after(workflow, EventView::FileName { outcome: Ok(dll_name) }),
                EventView::Loaded { module },
            ),
            EventView::Announced,
        ).state == StateView::Done,
{
}

/// An ejection whose module was found and is unloaded without error is done
/// once the operator has been told.
pub proof fn ejection_completes(workflow: WorkflowView)
    requires
        workflow.state is Unloading,
    ensures
        after(after(workflow, EventView::Unloaded), EventView::Announced).state == StateView::Done,
{
}

/// The action that a step asks for is the one that the workflow then waits
/// for, be it a single step or a step as the driver sees it.
pub proof fn asked_action_is_pending(workflow: WorkflowView, event: EventView)
    ensures
        transition(workflow, event).1 == pending(transition(workflow, event).0),
        advanced(workflow, event).1 == pending(advanced(workflow, event).0),
{
}

/// What the driver is asked for is always something for the driver to do:
/// the steps that only compute on paths never reach it.
pub proof fn driver_gets_driver_actions(workflow: WorkflowView, event: EventView)
    ensures
        for_driver(advanced(workflow, event).1),
{
    let first = transition(workflow, event);
    let second = settle(first);
    if !for_driver(first.1) {
        assert(first.0.state is Naming || first.0.state is Classifying || first.0.state is Joining
            || first.0.state is PathRecognised);
        if !for_driver(second.1) {
            assert(second.0.state is Classifying);
        }
    }
}

/// The events of a step as the driver sees it: the event that the driver
/// reports, and after it the results of what only computes on paths.
pub open spec fn steps_of(workflow: WorkflowView, event: EventView) -> Seq<EventView> {
    let first = transition(workflow, event);
    match computed(first.1) {
        None => seq![event],
        Some(second_event) => match computed(transition(first.0, second_event).1) {
            None => seq![event, second_event],
            Some(third_event) => seq![event, second_event, third_event],
        },
    }
}

/// A step as the driver sees it is a run of one to three single steps, of
/// which the first takes the event that the driver reports. So what holds
/// after every run of single steps holds after every step of the driver.
pub proof fn driver_step_is_a_run(workflow: WorkflowView, event: EventView)
    ensures
        1 <= steps_of(workflow, event).len() <= 3,
        steps_of(workflow, event)[0] == event,
        advanced(workflow, event).0 == run(workflow, steps_of(workflow, event)),
{
    let events = steps_of(workflow, event);
    let first = transition(workflow, event);
    assert(run(workflow, Seq::<EventView>::empty()) == workflow);
    assert(seq![event].drop_last() =~= Seq::<EventView>::empty());
    assert(run(workflow, seq![event]) == first.0);
    match computed(first.1) {
        None => {},
        Some(second_event) => {
            let second = transition(first.0, second_event);
            assert(seq![event, second_event].drop_last() =~= seq![event]);
            assert(run(workflow, seq![event, second_event]) == second.0);
            match computed(second.1) {
                None => {},
                Some(third_event) => {
                    assert(seq![event, second_event, third_event].drop_last() =~= seq![
                        event,
                        second_event,
                    ]);
                },
            }
        },
    }
}

/// Once the operator has been told of the target process, the module
/// reference decides how the driver goes on. A reference without a file name
/// fails the invocation. An injection loads the module at the reference. An
/// ejection looks on the local disk for the reference itself where it is
/// absolute, and asks for the working directory where it is not.
pub proof fn announced_target_leads_to_module(workflow: WorkflowView)
    requires
        workflow.state is TargetResolved,
    ensures
        ({
            let process = workflow.state->TargetResolved_process;
            let next = advanced(workflow, EventView::Announced);
            match path_file_name(workflow.dll) {
                None => next.0.state == (StateView::Failed { error: module_name_unavailable() })
                    && next.1 is Abort,
                Some(dll_name) => match workflow.command {
                    Command::Inject => next.0.state == (StateView::Loading { process, dll_name })
                        && next.1 == (ActionView::LoadModule { path: workflow.dll }),
                    Command::Eject => if path_is_absolute(workflow.dll) {
                        next.0.state == (StateView::Probing {
                            process,
                            dll_name,
                            candidate: workflow.dll,
                        }) && next.1 == (ActionView::ProbePath { path: workflow.dll })
                    } else {
                        next.0.state == (StateView::Anchoring { process, dll_name }) && next.1
                            is QueryWorkingDirectory
                    },
                },
            }
        }),
{
}

/// A relative module reference is looked for on the local disk beneath the
/// working directory that the driver reports.
pub proof fn working_directory_anchors_reference(workflow: WorkflowView, directory: Seq<char>)
    requires
        workflow.state is Anchoring,
    ensures
        advanced(workflow, EventView::WorkingDirectory { directory }).1 == (ActionView::ProbePath {
            path: path_join(directory, workflow.dll),
        }),
        advanced(workflow, EventView::WorkingDirectory { directory }).0.state == (
        StateView::Probing {
            process: workflow.state->Anchoring_process,
            dll_name: workflow.state->Anchoring_dll_name,
            candidate: path_join(directory, workflow.dll),
        }),
{
}

/// The workflow after a sequence of events from the driver, taken in order.
pub open spec fn driven(workflow: WorkflowView, events: Seq<EventView>) -> WorkflowView
    decreases events.len(),
{
    if events.len() == 0 {
        workflow
    } else {
        advanced(driven(workflow, events.drop_last()), events.last()).0
    }
}

/// The module name that a state holds.
pub open spec fn held_name(state: StateView) -> Option<Seq<char>> {
    match state {
        StateView::Loading { dll_name, .. } => Some(dll_name),
        StateView::Classifying { dll_name, .. } => Some(dll_name),
        StateView::Anchoring { dll_name, .. } => Some(dll_name),
        StateView::Joining { dll_name, .. } => Some(dll_name),
        StateView::Probing { dll_name, .. } => Some(dll_name),
        StateView::PathRecognised { dll_name, .. } => Some(dll_name),
        StateView::PathDescribed { dll_name, .. } => Some(dll_name),
        StateView::Locating { dll_name, .. } => Some(dll_name),
        StateView::ModuleLocated { dll_name, .. } => Some(dll_name),
        StateView::Failed {
            error: ErrorView { kind: ErrorKindView::InjectionFailed { dll_name }, .. },
        } => Some(dll_name),
        StateView::Failed {
            error: ErrorView { kind: ErrorKindView::ModuleNotFound { dll_name }, .. },
        } => Some(dll_name),
        _ => None,
    }
}

/// Whether a workflow waits for the driver, and the module name that it
/// holds, if any, is the file name of its module reference.
pub open spec fn names_reference(workflow: WorkflowView) -> bool {
    &&& for_driver(pending(workflow))
    &&& held_name(workflow.state) matches Some(dll_name) ==> path_file_name(workflow.dll) == Some(
        dll_name,
    )
}

/// Where the driver takes every step through the workflow, the module name
/// in every state, and in every failure that names the module, is the file
/// name of the module reference that the operator gave.
pub proof fn module_name_is_file_name_of_reference(
    command: Command,
    dll: Seq<char>,
    process: Option<Seq<char>>,
    pid: Option<u32>,
    events: Seq<EventView>,
)
    ensures
        names_reference(driven(initial(command, dll, process, pid), events)),
        driven(initial(command, dll, process, pid), events).dll == dll,
    decreases events.len(),
{
    if events.len() > 0 {
        module_name_is_file_name_of_reference(command, dll, process, pid, events.drop_last());
        let before = driven(initial(command, dll, process, pid), events.drop_last());
        driver_gets_driver_actions(before, events.last());
    }
}

/// A workflow begins with something for the driver to do.
pub proof fn driver_begins(
    command: Command,
    dll: Seq<char>,
    process: Option<Seq<char>>,
    pid: Option<u32>,
)
    ensures
        for_driver(pending(initial(command, dll, process, pid))),
{
}

} // verus!
