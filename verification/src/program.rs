//! The normalised program: what both builders produce and the virtual
//! machine loads.

use std::collections::HashMap;

use vstd::prelude::*;

use crate::felt::FieldElement;

verus! {

/// A reference into a memory segment.
#[derive(Debug, Clone, Copy, PartialEq, Eq, Hash)]
pub struct Relocatable {
    pub segment_index: isize,
    pub offset: usize,
}

/// One cell of program memory: a field element, or a reference.
#[derive(Debug, Clone, Copy, PartialEq, Eq, Hash)]
pub enum MemoryCell {
    Int(FieldElement),
    RelocatableValue(Relocatable),
}

/// The model of a [`MemoryCell`]: the number, or the reference.
pub enum CellView {
    Int(nat),
    RelocatableValue(Relocatable),
}

impl DeepView for MemoryCell {
    type V = CellView;

    open spec fn deep_view(&self) -> CellView {
        match self {
            MemoryCell::Int(element) => CellView::Int(element@),
            MemoryCell::RelocatableValue(target) => CellView::RelocatableValue(*target),
        }
    }
}

/// Where the allocation pointer stands relative to a tracking group.
#[derive(Debug, Clone, Copy, PartialEq, Eq, Hash)]
pub struct ApTracking {
    pub group: usize,
    pub offset: usize,
}

impl DeepView for ApTracking {
    type V = ApTracking;

    open spec fn deep_view(&self) -> ApTracking {
        *self
    }
}

/// Flow-tracking data of a hint: the allocation pointer's position and the
/// references the hint may name.
#[derive(Debug, Clone, PartialEq, Eq)]
pub struct FlowTrackingData {
    pub ap_tracking: ApTracking,
    pub reference_ids: Vec<(String, usize)>,
}

pub struct FlowTrackingView {
    pub ap_tracking: ApTracking,
    pub reference_ids: Seq<(Seq<char>, usize)>,
}

impl DeepView for FlowTrackingData {
    type V = FlowTrackingView;

    open spec fn deep_view(&self) -> FlowTrackingView {
        FlowTrackingView {
            ap_tracking: self.ap_tracking,
            reference_ids: self.reference_ids.deep_view(),
        }
    }
}

/// A hint: source text that the virtual machine runs before the
/// instruction at the offset the hint is filed under.
#[derive(Debug, Clone, PartialEq, Eq)]
pub struct HintRecord {
    pub code: String,
    pub accessible_scopes: Vec<String>,
    pub flow_tracking_data: FlowTrackingData,
}

pub struct HintRecordView {
    pub code: Seq<char>,
    pub accessible_scopes: Seq<Seq<char>>,
    pub flow_tracking_data: FlowTrackingView,
}

impl DeepView for HintRecord {
    type V = HintRecordView;

    open spec fn deep_view(&self) -> HintRecordView {
        HintRecordView {
            code: self.code@,
            accessible_scopes: self.accessible_scopes.deep_view(),
            flow_tracking_data: self.flow_tracking_data.deep_view(),
        }
    }
}

/// A member of a structure that an identifier names.
#[derive(Debug, Clone, PartialEq, Eq)]
pub struct Member {
    pub cairo_type: String,
    pub offset: usize,
}

pub struct MemberView {
    pub cairo_type: Seq<char>,
    pub offset: usize,
}

impl DeepView for Member {
    type V = MemberView;

    open spec fn deep_view(&self) -> MemberView {
        MemberView { cairo_type: self.cairo_type@, offset: self.offset }
    }
}

/// An entry of the identifiers table. `value` is kept as written.
#[derive(Debug, Clone, PartialEq, Eq)]
pub struct Identifier {
    pub pc: Option<usize>,
    pub kind: Option<String>,
    pub value: Option<String>,
    pub full_name: Option<String>,
    pub members: Option<Vec<(String, Member)>>,
    pub cairo_type: Option<String>,
    pub size: Option<usize>,
    pub destination: Option<String>,
}

pub struct IdentifierView {
    pub pc: Option<usize>,
    pub kind: Option<Seq<char>>,
    pub value: Option<Seq<char>>,
    pub full_name: Option<Seq<char>>,
    pub members: Option<Seq<(Seq<char>, MemberView)>>,
    pub cairo_type: Option<Seq<char>>,
    pub size: Option<usize>,
    pub destination: Option<Seq<char>>,
}

impl DeepView for Identifier {
    type V = IdentifierView;

    open spec fn deep_view(&self) -> IdentifierView {
        IdentifierView {
            pc: self.pc,
            kind: self.kind.deep_view(),
            value: self.value.deep_view(),
            full_name: self.full_name.deep_view(),
            members: self.members.deep_view(),
            cairo_type: self.cairo_type.deep_view(),
            size: self.size,
            destination: self.destination.deep_view(),
        }
    }
}

/// An entry of the reference manager. `value` is the address expression,
/// kept as written.
#[derive(Debug, Clone, PartialEq, Eq)]
pub struct Reference {
    pub ap_tracking_data: ApTracking,
    pub pc: Option<usize>,
    pub value: String,
}

pub struct ReferenceView {
    pub ap_tracking_data: ApTracking,
    pub pc: Option<usize>,
    pub value: Seq<char>,
}

impl DeepView for Reference {
    type V = ReferenceView;

    open spec fn deep_view(&self) -> ReferenceView {
        ReferenceView { ap_tracking_data: self.ap_tracking_data, pc: self.pc, value: self.value@ }
    }
}

/// The model of a hint table: for each offset that has hints, their
/// records in firing order.
pub open spec fn hints_view(table: Map<usize, Vec<HintRecord>>) -> Map<usize, Seq<HintRecordView>> {
    Map::new(|offset: usize| table.contains_key(offset), |offset: usize| table[offset].deep_view())
}

/// The table that filing each pair of `pairs` in turn leaves: each offset
/// maps to the records of the last pair that names it.
pub open spec fn hint_table(pairs: Seq<(usize, Seq<HintRecordView>)>) -> Map<
    usize,
    Seq<HintRecordView>,
>
    decreases pairs.len(),
{
    if pairs.len() == 0 {
        Map::empty()
    } else {
        hint_table(pairs.drop_last()).insert(pairs.last().0, pairs.last().1)
    }
}

/// Offsets that no pair names have no hints.
pub proof fn lemma_hint_table_domain(pairs: Seq<(usize, Seq<HintRecordView>)>, offset: usize)
    ensures
        hint_table(pairs).contains_key(offset) <==> exists|i: int|
            0 <= i < pairs.len() && (#[trigger] pairs[i]).0 == offset,
    decreases pairs.len(),
{
    if pairs.len() > 0 {
        let front = pairs.drop_last();
        lemma_hint_table_domain(front, offset);
        if hint_table(pairs).contains_key(offset) && pairs.last().0 != offset {
            let i = choose|i: int| 0 <= i < front.len() && (#[trigger] front[i]).0 == offset;
            assert(pairs[i].0 == offset);
        }
        if exists|i: int| 0 <= i < pairs.len() && (#[trigger] pairs[i]).0 == offset {
            let i = choose|i: int| 0 <= i < pairs.len() && (#[trigger] pairs[i]).0 == offset;
            if i < front.len() {
                assert(front[i].0 == offset);
            }
        }
    }
}

/// The hints of an offset are the records of the last pair that names it,
/// in that pair's order.
pub proof fn lemma_hint_table_lookup(pairs: Seq<(usize, Seq<HintRecordView>)>, i: int)
    requires
        0 <= i < pairs.len(),
        forall|j: int| i < j < pairs.len() ==> (#[trigger] pairs[j]).0 != pairs[i].0,
    ensures
        hint_table(pairs).contains_key(pairs[i].0),
        hint_table(pairs)[pairs[i].0] == pairs[i].1,
    decreases pairs.len(),
{
    if i < pairs.len() - 1 {
        let front = pairs.drop_last();
        lemma_hint_table_lookup(front, i);
    }
}

/// A program as the virtual machine loads it.
#[derive(Debug, Clone, PartialEq, Eq)]
pub struct Program {
    /// The memory cells, in address order.
    pub data: Vec<MemoryCell>,
    /// The hints of each offset, in firing order.
    pub hints: HashMap<usize, Vec<HintRecord>>,
    /// The identifiers table, in document order.
    pub identifiers: Vec<(String, Identifier)>,
    pub builtins: Vec<String>,
    pub reference_manager: Option<Vec<Reference>>,
    /// Offset of the main entry, where the program has one.
    pub main: Option<usize>,
}

pub struct ProgramView {
    pub data: Seq<CellView>,
    pub hints: Map<usize, Seq<HintRecordView>>,
    pub identifiers: Seq<(Seq<char>, IdentifierView)>,
    pub builtins: Seq<Seq<char>>,
    pub reference_manager: Option<Seq<ReferenceView>>,
    pub main: Option<usize>,
}

impl DeepView for Program {
    type V = ProgramView;

    open spec fn deep_view(&self) -> ProgramView {
        ProgramView {
            data: self.data.deep_view(),
            hints: hints_view(self.hints@),
            identifiers: self.identifiers.deep_view(),
            builtins: self.builtins.deep_view(),
            reference_manager: self.reference_manager.deep_view(),
            main: self.main,
        }
    }
}

impl ProgramView {
    /// The program with no cell, no hint and no other content.
    pub open spec fn empty() -> ProgramView {
        ProgramView {
            data: Seq::empty(),
            hints: Map::empty(),
            identifiers: Seq::empty(),
            builtins: Seq::empty(),
            reference_manager: None,
            main: None,
        }
    }
}

impl Default for Program {
    /// The empty program.
    fn default() -> (program: Program)
        ensures
            program.deep_view() == ProgramView::empty(),
    {
        let program = Program {
            data: Vec::new(),
            hints: HashMap::new(),
            identifiers: Vec::new(),
            builtins: Vec::new(),
            reference_manager: None,
            main: None,
        };
        assert(program.deep_view().data =~= Seq::empty());
        assert(program.deep_view().hints =~= Map::empty());
        assert(program.deep_view().identifiers =~= Seq::empty());
        assert(program.deep_view().builtins =~= Seq::empty());
        program
    }
}

/// A section of the legacy program document that must be present.
#[derive(Debug, Clone, Copy, PartialEq, Eq, Structural)]
pub enum Section {
    Data,
    Builtins,
    Hints,
    Identifiers,
}

/// Why a document is not a program.
#[derive(Debug, Clone, Copy, PartialEq, Eq, Structural)]
pub enum ProgramError {
    /// A required section of the document is absent.
    MissingSection(Section),
    /// The data token at this index is no numeric literal.
    MalformedLiteral(usize),
    /// The word at this index is not below the field's prime.
    OutOfRange(usize),
}

impl ProgramError {
    /// The text of [`ProgramError::message`].
    pub open spec fn message_text(&self) -> Seq<char> {
        match self {
            ProgramError::MissingSection(Section::Data) => "program document lacks its data"@,
            ProgramError::MissingSection(Section::Builtins) =>
                "program document lacks its builtins"@,
            ProgramError::MissingSection(Section::Hints) => "program document lacks its hints"@,
            ProgramError::MissingSection(Section::Identifiers) =>
                "program document lacks its identifiers"@,
            ProgramError::MalformedLiteral(_) =>
                "program data holds a token that is no numeric literal"@,
            ProgramError::OutOfRange(_) => "program data holds a number outside the field"@,
        }
    }

    /// What went wrong, in words.
    pub fn message(&self) -> (text: String)
        ensures
            text@ == self.message_text(),
    {
        match self {
            ProgramError::MissingSection(Section::Data) =>
                "program document lacks its data".to_owned(),
            ProgramError::MissingSection(Section::Builtins) =>
                "program document lacks its builtins".to_owned(),
            ProgramError::MissingSection(Section::Hints) =>
                "program document lacks its hints".to_owned(),
            ProgramError::MissingSection(Section::Identifiers) =>
                "program document lacks its identifiers".to_owned(),
            ProgramError::MalformedLiteral(_) =>
                "program data holds a token that is no numeric literal".to_owned(),
            ProgramError::OutOfRange(_) =>
                "program data holds a number outside the field".to_owned(),
        }
    }
}

/// Files each pair of `pairs` under its offset, in order. Where an offset
/// occurs twice, the later pair replaces the earlier.
pub fn collect_hints(pairs: Vec<(usize, Vec<HintRecord>)>) -> (table: HashMap<
    usize,
    Vec<HintRecord>,
>)
    ensures
        hints_view(table@) == hint_table(pairs.deep_view()),
{
    broadcast use vstd::std_specs::hash::group_hash_axioms;

    let ghost model = pairs.deep_view();
    let mut table: HashMap<usize, Vec<HintRecord>> = HashMap::new();
    for pair in it: pairs.into_iter()
        invariant
            model == pairs.deep_view(),
            it.seq() == pairs@,
            hints_view(table@) == hint_table(model.take(it.index() as int)),
    {
        let ghost before = table@;
        let ghost k = it.index() as int;
        let (offset, records) = pair;
        table.insert(offset, records);
        proof {
            assert(model.take(k + 1).drop_last() =~= model.take(k));
            assert(hints_view(table@) =~= hints_view(before).insert(
                offset,
                records.deep_view(),
            ));
        }
    }
    assert(model.take(model.len() as int) =~= model);
    table
}

} // verus!
