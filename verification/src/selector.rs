//! How the operator names the target process.

use vstd::prelude::*;

use crate::error::invalid_selector;
use crate::error::ErrorView;
use crate::error::OperationError;
use crate::text::optional_text;

verus! {

/// The target process, named in exactly one of two ways.
#[derive(Debug, PartialEq, Eq)]
pub enum ProcessSelector {
    /// The process with this identifier.
    NumericId(u32),
    /// The first process whose executable name contains this text.
    NameSubstring(String),
}

/// A selector as a mathematical value.
pub enum SelectorView {
    NumericId(u32),
    NameSubstring(Seq<char>),
}

impl View for ProcessSelector {
    type V = SelectorView;

    open spec fn view(&self) -> SelectorView {
        match self {
            ProcessSelector::NumericId(pid) => SelectorView::NumericId(*pid),
            ProcessSelector::NameSubstring(name) => SelectorView::NameSubstring(name@),
        }
    }
}

impl Clone for ProcessSelector {
    fn clone(&self) -> (copy: Self)
        ensures
            copy@ == self@,
    {
        match self {
            ProcessSelector::NumericId(pid) => ProcessSelector::NumericId(*pid),
            ProcessSelector::NameSubstring(name) => ProcessSelector::NameSubstring(name.clone()),
        }
    }
}

/// The selector that the two optional fields of a command line stand for: the
/// one that is set when exactly one is, and no selector otherwise.
pub open spec fn select(process: Option<Seq<char>>, pid: Option<u32>) -> Result<
    SelectorView,
    ErrorView,
> {
    match (process, pid) {
        (None, Some(pid)) => Ok(SelectorView::NumericId(pid)),
        (Some(name), None) => Ok(SelectorView::NameSubstring(name)),
        _ => Err(invalid_selector()),
    }
}

/// A selection as a mathematical value.
pub open spec fn selection_view(selection: Result<ProcessSelector, OperationError>) -> Result<
    SelectorView,
    ErrorView,
> {
    match selection {
        Ok(selector) => Ok(selector@),
        Err(error) => Err(error@),
    }
}

impl ProcessSelector {
    /// Makes a selector from a process name and a process identifier of which
    /// exactly one is given. With both or neither the selector is invalid.
    pub fn from_fields(process: Option<String>, pid: Option<u32>) -> (selection: Result<
        ProcessSelector,
        OperationError,
    >)
        ensures
            selection_view(selection) == select(optional_text(process), pid),
    {
        match (process, pid) {
            (None, Some(pid)) => Ok(ProcessSelector::NumericId(pid)),
            (Some(name), None) => Ok(ProcessSelector::NameSubstring(name)),
            _ => Err(OperationError::invalid_selector()),
        }
    }
}

} // verus!
