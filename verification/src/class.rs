//! The runnable contract class: a program and its entry points, shared.

use std::sync::Arc;

use vstd::prelude::*;

use crate::entry_point::{EntryPointMap, EntryPointType, EntryPointView};
use crate::program::{Program, ProgramView};

verus! {

/// A program together with its entry points by category.
#[derive(Debug, Clone, PartialEq, Eq)]
pub struct ContractClassInner {
    pub program: Program,
    pub entry_points_by_type: EntryPointMap,
}

/// The model of a contract class.
pub struct ContractClassView {
    pub program: ProgramView,
    pub entry_points_by_type: Map<EntryPointType, Seq<EntryPointView>>,
}

impl DeepView for ContractClassInner {
    type V = ContractClassView;

    open spec fn deep_view(&self) -> ContractClassView {
        ContractClassView {
            program: self.program.deep_view(),
            entry_points_by_type: self.entry_points_by_type.deep_view(),
        }
    }
}

/// A runnable contract class. Cloning it shares the program instead of
/// copying it; nothing changes a class once it is made.
#[derive(Debug, Clone, PartialEq, Eq)]
pub struct ContractClass(pub Arc<ContractClassInner>);

impl DeepView for ContractClass {
    type V = ContractClassView;

    open spec fn deep_view(&self) -> ContractClassView {
        self.0.deep_view()
    }
}

impl ContractClassView {
    /// The class of the empty program, with no entry point of any category.
    pub open spec fn empty() -> ContractClassView {
        ContractClassView { program: ProgramView::empty(), entry_points_by_type: Map::empty() }
    }
}

impl Default for ContractClassInner {
    /// The class of the empty program, with no entry point.
    fn default() -> (class: ContractClassInner)
        ensures
            class.deep_view() == ContractClassView::empty(),
    {
        ContractClassInner {
            program: Program::default(),
            entry_points_by_type: EntryPointMap::default(),
        }
    }
}

impl Default for ContractClass {
    /// The class of the empty program, with no entry point.
    fn default() -> (class: ContractClass)
        ensures
            class.deep_view() == ContractClassView::empty(),
    {
        ContractClass(Arc::new(ContractClassInner::default()))
    }
}

impl ContractClass {
    /// Wraps a program and its entry points for sharing.
    pub fn new(program: Program, entry_points_by_type: EntryPointMap) -> (class: ContractClass)
        ensures
            class.deep_view() == (ContractClassView {
                program: program.deep_view(),
                entry_points_by_type: entry_points_by_type.deep_view(),
            }),
    {
        ContractClass(Arc::new(ContractClassInner { program, entry_points_by_type }))
    }
}

} // verus!
