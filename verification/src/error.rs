//! The failures of an invocation: what failed, on what, and why.

use vstd::prelude::*;
use vstd::string::StringExecFns;

use crate::selector::ProcessSelector;
use crate::selector::SelectorView;
use crate::text::copy_texts;
use crate::text::decimal;
use crate::text::decimal_text;
use crate::text::texts;

verus! {

/// What is read back from an opened process.
#[derive(Debug, Clone, Copy, PartialEq, Eq, Structural)]
pub enum ProcessAttribute {
    /// The file name of its executable.
    Name,
    /// Its identifier.
    Id,
}

/// The step that failed, with what it was working on.
#[derive(Debug, PartialEq, Eq)]
pub enum ErrorKind {
    /// Both a process name and a process identifier were given, or neither.
    InvalidSelector,
    /// No process could be opened for the selector.
    ProcessNotFound { selector: ProcessSelector },
    /// The process was opened, but an attribute could not be read back.
    ProcessAttributeUnavailable { attribute: ProcessAttribute },
    /// The module reference has no final component to take as its file name.
    ModuleNameUnavailable,
    /// The working directory, against which a relative module reference is
    /// resolved, could not be determined.
    WorkingDirectoryUnavailable,
    /// The module could not be loaded into the process.
    InjectionFailed { dll_name: String },
    /// The modules of the process could not be inspected.
    ModuleEnumerationFailed,
    /// The modules of the process were inspected and none matched.
    ModuleNotFound { dll_name: String },
    /// The module could not be unloaded from the process.
    EjectionFailed,
}

/// An error kind as a mathematical value.
pub enum ErrorKindView {
    InvalidSelector,
    ProcessNotFound { selector: SelectorView },
    ProcessAttributeUnavailable { attribute: ProcessAttribute },
    ModuleNameUnavailable,
    WorkingDirectoryUnavailable,
    InjectionFailed { dll_name: Seq<char> },
    ModuleEnumerationFailed,
    ModuleNotFound { dll_name: Seq<char> },
    EjectionFailed,
}

impl View for ErrorKind {
    type V = ErrorKindView;

    open spec fn view(&self) -> ErrorKindView {
        match self {
            ErrorKind::InvalidSelector => ErrorKindView::InvalidSelector,
            ErrorKind::ProcessNotFound { selector } => ErrorKindView::ProcessNotFound {
                selector: selector@,
            },
            ErrorKind::ProcessAttributeUnavailable {
                attribute,
            } => ErrorKindView::ProcessAttributeUnavailable { attribute: *attribute },
            ErrorKind::ModuleNameUnavailable => ErrorKindView::ModuleNameUnavailable,
            ErrorKind::WorkingDirectoryUnavailable => ErrorKindView::WorkingDirectoryUnavailable,
            ErrorKind::InjectionFailed { dll_name } => ErrorKindView::InjectionFailed {
                dll_name: dll_name@,
            },
            ErrorKind::ModuleEnumerationFailed => ErrorKindView::ModuleEnumerationFailed,
            ErrorKind::ModuleNotFound { dll_name } => ErrorKindView::ModuleNotFound {
                dll_name: dll_name@,
            },
            ErrorKind::EjectionFailed => ErrorKindView::EjectionFailed,
        }
    }
}

impl Clone for ErrorKind {
    fn clone(&self) -> (copy: Self)
        ensures
            copy@ == self@,
    {
        match self {
            ErrorKind::InvalidSelector => ErrorKind::InvalidSelector,
            ErrorKind::ProcessNotFound { selector } => ErrorKind::ProcessNotFound {
                selector: selector.clone(),
            },
            ErrorKind::ProcessAttributeUnavailable {
                attribute,
            } => ErrorKind::ProcessAttributeUnavailable { attribute: *attribute },
            ErrorKind::ModuleNameUnavailable => ErrorKind::ModuleNameUnavailable,
            ErrorKind::WorkingDirectoryUnavailable => ErrorKind::WorkingDirectoryUnavailable,
            ErrorKind::InjectionFailed { dll_name } => ErrorKind::InjectionFailed {
                dll_name: dll_name.clone(),
            },
            ErrorKind::ModuleEnumerationFailed => ErrorKind::ModuleEnumerationFailed,
            ErrorKind::ModuleNotFound { dll_name } => ErrorKind::ModuleNotFound {
                dll_name: dll_name.clone(),
            },
            ErrorKind::EjectionFailed => ErrorKind::EjectionFailed,
        }
    }
}

/// A failed step and its underlying cause.
///
/// The cause is the chain of messages of the error that the driver met, the
/// outermost first and the deepest last. It is empty where the step failed
/// without an error beneath it.
#[derive(Debug, PartialEq, Eq)]
pub struct OperationError {
    pub kind: ErrorKind,
    pub cause: Vec<String>,
}

/// An error as a mathematical value.
pub struct ErrorView {
    pub kind: ErrorKindView,
    pub cause: Seq<Seq<char>>,
}

impl View for OperationError {
    type V = ErrorView;

    open spec fn view(&self) -> ErrorView {
        ErrorView { kind: self.kind@, cause: texts(self.cause) }
    }
}

impl Clone for OperationError {
    fn clone(&self) -> (copy: Self)
        ensures
            copy@ == self@,
    {
        OperationError { kind: self.kind.clone(), cause: copy_texts(&self.cause) }
    }
}

/// The error of a selector that names the process twice or not at all.
pub open spec fn invalid_selector() -> ErrorView {
    ErrorView { kind: ErrorKindView::InvalidSelector, cause: Seq::empty() }
}

/// The error of a module reference without a file name.
pub open spec fn module_name_unavailable() -> ErrorView {
    ErrorView { kind: ErrorKindView::ModuleNameUnavailable, cause: Seq::empty() }
}

/// The description of a failed step, as the operator reads it.
pub open spec fn describe(kind: ErrorKindView) -> Seq<char> {
    match kind {
        ErrorKindView::InvalidSelector => "You must specify either a process name or a PID."@,
        ErrorKindView::ProcessNotFound { selector: SelectorView::NumericId(pid) } => {
            "Could not find process with PID "@ + decimal(pid as nat)
        },
        ErrorKindView::ProcessNotFound { selector: SelectorView::NameSubstring(name) } => {
            "Could not find process containing '"@ + name + "'"@
        },
        ErrorKindView::ProcessAttributeUnavailable { attribute: ProcessAttribute::Name } => {
            "Failed to determine process name"@
        },
        ErrorKindView::ProcessAttributeUnavailable { attribute: ProcessAttribute::Id } => {
            "Failed to determine pid"@
        },
        ErrorKindView::ModuleNameUnavailable => "Failed to get file name from path"@,
        ErrorKindView::WorkingDirectoryUnavailable => "Failed to determine current path"@,
        ErrorKindView::InjectionFailed { dll_name } => {
            "Failed to inject DLL '"@ + dll_name + "'"@
        },
        ErrorKindView::ModuleEnumerationFailed => "Failed to check modules in target process"@,
        ErrorKindView::ModuleNotFound { dll_name } => {
            "DLL '"@ + dll_name + "' not found in target process"@
        },
        ErrorKindView::EjectionFailed => "Failed to eject DLL"@,
    }
}

/// The context of an error: the descriptions of the steps that failed, the
/// outermost first. Every error of this crate comes from one step.
pub open spec fn context_of(error: ErrorView) -> Seq<Seq<char>> {
    seq![describe(error.kind)]
}

/// The full chain of an error: its context, then its cause, deepest last.
pub open spec fn chain_of(error: ErrorView) -> Seq<Seq<char>> {
    context_of(error) + error.cause
}

/// The line that reports the message at a place of the chain: the first
/// message is marked as the error, each later one as a cause of it.
pub open spec fn report_line(position: int, message: Seq<char>) -> Seq<char> {
    if position == 0 {
        "❌ "@ + message
    } else {
        "    caused by: "@ + message
    }
}

/// The lines that report an error: one line for each message of its chain.
pub open spec fn report_of(error: ErrorView) -> Seq<Seq<char>> {
    Seq::new(chain_of(error).len(), |i: int| report_line(i, chain_of(error)[i]))
}

impl OperationError {
    /// The error of a selector that names the process twice or not at all.
    pub fn invalid_selector() -> (error: OperationError)
        ensures
            error@ == invalid_selector(),
    {
        let error = OperationError { kind: ErrorKind::InvalidSelector, cause: Vec::new() };
        assert(error@.cause =~= Seq::empty());
        error
    }

    /// The error of a module reference without a file name.
    pub fn module_name_unavailable() -> (error: OperationError)
        ensures
            error@ == module_name_unavailable(),
    {
        let error = OperationError { kind: ErrorKind::ModuleNameUnavailable, cause: Vec::new() };
        assert(error@.cause =~= Seq::empty());
        error
    }

    /// Describes the step that failed.
    pub fn description(&self) -> (message: String)
        ensures
            message@ == describe(self@.kind),
    {
        match &self.kind {
            ErrorKind::InvalidSelector => String::from_str(
                "You must specify either a process name or a PID.",
            ),
            ErrorKind::ProcessNotFound { selector: ProcessSelector::NumericId(pid) } => {
                let mut message = String::from_str("Could not find process with PID ");
                let number = decimal_text(*pid);
                message.append(number.as_str());
                message
            },
            ErrorKind::ProcessNotFound { selector: ProcessSelector::NameSubstring(name) } => {
                let mut message = String::from_str("Could not find process containing '");
                message.append(name.as_str());
                message.append("'");
                message
            },
            ErrorKind::ProcessAttributeUnavailable { attribute: ProcessAttribute::Name } => {
                String::from_str("Failed to determine process name")
            },
            ErrorKind::ProcessAttributeUnavailable { attribute: ProcessAttribute::Id } => {
                String::from_str("Failed to determine pid")
            },
            ErrorKind::ModuleNameUnavailable => String::from_str(
                "Failed to get file name from path",
            ),
            ErrorKind::WorkingDirectoryUnavailable => String::from_str(
                "Failed to determine current path",
            ),
            ErrorKind::InjectionFailed { dll_name } => {
                let mut message = String::from_str("Failed to inject DLL '");
                message.append(dll_name.as_str());
                message.append("'");
                message
            },
            ErrorKind::ModuleEnumerationFailed => String::from_str(
                "Failed to check modules in target process",
            ),
            ErrorKind::ModuleNotFound { dll_name } => {
                let mut message = String::from_str("DLL '");
                message.append(dll_name.as_str());
                message.append("' not found in target process");
                message
            },
            ErrorKind::EjectionFailed => String::from_str("Failed to eject DLL"),
        }
    }

    /// The descriptions of the steps that failed, the outermost first.
    pub fn context(&self) -> (context: Vec<String>)
        ensures
            texts(context) == context_of(self@),
    {
        let mut context: Vec<String> = Vec::new();
        context.push(self.description());
        assert(texts(context) =~= context_of(self@));
        context
    }

    /// The messages of the error from the failed step down to the deepest
    /// cause.
    pub fn chain(&self) -> (chain: Vec<String>)
        ensures
            texts(chain) == chain_of(self@),
    {
        let mut chain = self.context();
        assert(chain@.len() == 1 && chain@[0]@ == describe(self@.kind)) by {
            assert(texts(chain).len() == 1);
            assert(texts(chain)[0] == chain@[0]@);
        }
        let mut index: usize = 0;
        while index < self.cause.len()
            invariant
                index <= self.cause.len(),
                chain@.len() == index + 1,
                chain@[0]@ == describe(self@.kind),
                forall|i: int| 0 <= i < index ==> chain@[i + 1]@ == self.cause@[i]@,
            decreases self.cause.len() - index,
        {
            chain.push(self.cause[index].clone());
            index = index + 1;
        }
        assert(texts(chain) =~= chain_of(self@));
        chain
    }

    /// The lines to print for the error: the failed step first, then each
    /// cause beneath it, indented, the deepest last.
    pub fn report_lines(&self) -> (lines: Vec<String>)
        ensures
            texts(lines) == report_of(self@),
    {
        let chain = self.chain();
        let mut lines: Vec<String> = Vec::new();
        let mut index: usize = 0;
        while index < chain.len()
            invariant
                index <= chain.len(),
                lines@.len() == index,
                texts(chain) == chain_of(self@),
                forall|i: int| 0 <= i < index ==> lines@[i]@ == report_line(i, chain@[i]@),
            decreases chain.len() - index,
        {
            let mut line = if index == 0 {
                String::from_str("❌ ")
            } else {
                String::from_str("    caused by: ")
            };
            line.append(chain[index].as_str());
            lines.push(line);
            index = index + 1;
        }
        assert(texts(lines) =~= report_of(self@)) by {
            assert forall|i: int| 0 <= i < chain@.len() implies chain@[i]@ == chain_of(self@)[i] by {
                assert(texts(chain)[i] == chain@[i]@);
            }
        }
        lines
    }
}

} // verus!
