use dll_injector::error::ErrorKind;
use dll_injector::error::OperationError;
use dll_injector::protocol::compute;
use dll_injector::protocol::Action;
use dll_injector::protocol::Event;
use dll_injector::protocol::LoadedModule;
use dll_injector::protocol::Notice;
use dll_injector::reference::file_name_or_error;
use dll_injector::reference::get_file_name;
use dll_injector::reference::reference_kind;
use dll_injector::reference::ReferenceKind;

fn absolute_example() -> String {
    if std::path::MAIN_SEPARATOR == '/' {
        String::from("/opt/mods/payload.dll")
    } else {
        String::from("C:\\mods\\payload.dll")
    }
}

fn no_file_name() -> OperationError {
    OperationError { kind: ErrorKind::ModuleNameUnavailable, cause: vec![] }
}

#[test]
fn existing_reference_is_a_path() {
    assert_eq!(reference_kind(true), ReferenceKind::Path);
}

#[test]
fn other_reference_is_a_name() {
    assert_eq!(reference_kind(false), ReferenceKind::Name);
}

#[test]
fn final_component_becomes_the_name() {
    assert_eq!(file_name_or_error(Some(String::from("payload.dll"))), Ok(String::from("payload.dll")));
}

#[test]
fn missing_component_is_an_error() {
    assert_eq!(file_name_or_error(None), Err(no_file_name()));
}

#[test]
fn file_name_of_a_bare_name_is_the_name() {
    assert_eq!(get_file_name("payload.dll"), Ok(String::from("payload.dll")));
}

#[test]
fn file_name_leaves_the_directory_out() {
    assert_eq!(get_file_name("./payload.dll"), Ok(String::from("payload.dll")));
    assert_eq!(get_file_name("some/where/payload.dll"), Ok(String::from("payload.dll")));
}

#[test]
fn file_name_of_a_directory_is_its_last_component() {
    assert_eq!(get_file_name("some/where/"), Ok(String::from("where")));
}

#[test]
fn path_without_final_component_has_no_file_name() {
    assert_eq!(get_file_name(""), Err(no_file_name()));
    assert_eq!(get_file_name("/"), Err(no_file_name()));
    assert_eq!(get_file_name(".."), Err(no_file_name()));
    assert_eq!(get_file_name("some/where/.."), Err(no_file_name()));
}

#[test]
fn file_name_keeps_characters_outside_ascii() {
    assert_eq!(get_file_name("mods/spät.dll"), Ok(String::from("spät.dll")));
}

#[test]
fn extracting_a_file_name_is_computed() {
    let action = Action::ExtractFileName { path: String::from("dir/inner.dll") };
    assert_eq!(
        compute(&action),
        Some(Event::FileName { outcome: Ok(String::from("inner.dll")) })
    );
    let action = Action::ExtractFileName { path: String::from("..") };
    assert_eq!(compute(&action), Some(Event::FileName { outcome: Err(no_file_name()) }));
}

#[test]
fn relative_path_is_not_absolute() {
    let action = Action::CheckAbsolute { path: String::from("payload.dll") };
    assert_eq!(compute(&action), Some(Event::Absolute { absolute: false }));
    let action = Action::CheckAbsolute { path: String::from("./dir/payload.dll") };
    assert_eq!(compute(&action), Some(Event::Absolute { absolute: false }));
}

#[test]
fn rooted_path_is_absolute() {
    let action = Action::CheckAbsolute { path: absolute_example() };
    assert_eq!(compute(&action), Some(Event::Absolute { absolute: true }));
}

#[test]
fn joining_puts_the_path_beneath_the_base() {
    let action =
        Action::JoinPaths { base: String::from("work"), path: String::from("payload.dll") };
    let expected = format!("work{}payload.dll", std::path::MAIN_SEPARATOR);
    assert_eq!(compute(&action), Some(Event::Joined { path: expected }));
}

#[test]
fn joining_an_absolute_path_gives_that_path() {
    let absolute = absolute_example();
    let action = Action::JoinPaths { base: String::from("work"), path: absolute.clone() };
    assert_eq!(compute(&action), Some(Event::Joined { path: absolute }));
}

#[test]
fn parent_leaves_the_file_name_out() {
    let path = format!("mods{}payload.dll", std::path::MAIN_SEPARATOR);
    let action = Action::ExtractParent { path };
    assert_eq!(compute(&action), Some(Event::Parent { parent: Some(String::from("mods")) }));
}

#[test]
fn parent_of_a_bare_name_is_empty() {
    let action = Action::ExtractParent { path: String::from("payload.dll") };
    assert_eq!(compute(&action), Some(Event::Parent { parent: Some(String::new()) }));
}

#[test]
fn empty_path_has_no_parent() {
    let action = Action::ExtractParent { path: String::new() };
    assert_eq!(compute(&action), Some(Event::Parent { parent: None }));
}

#[test]
fn actions_for_the_driver_are_not_computed() {
    assert_eq!(compute(&Action::OpenProcess { pid: 1 }), None);
    assert_eq!(compute(&Action::FindProcess { name: String::from("x") }), None);
    assert_eq!(compute(&Action::ReadProcessName), None);
    assert_eq!(compute(&Action::ReadProcessId), None);
    assert_eq!(compute(&Action::QueryWorkingDirectory), None);
    assert_eq!(compute(&Action::ProbePath { path: String::from("x") }), None);
    assert_eq!(compute(&Action::LoadModule { path: String::from("x") }), None);
    assert_eq!(compute(&Action::LocateModuleByPath { path: String::from("x") }), None);
    assert_eq!(compute(&Action::LocateModuleByName { name: String::from("x") }), None);
    assert_eq!(compute(&Action::UnloadModule { module: LoadedModule { base_address: 4 } }), None);
    assert_eq!(
        compute(&Action::Announce { notice: Notice::ModuleUnloaded }),
        None
    );
    assert_eq!(compute(&Action::Finish), None);
    assert_eq!(compute(&Action::Abort), None);
}
