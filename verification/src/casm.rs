//! From a compiled class to a runnable contract class.

use vstd::prelude::*;

use crate::class::{ContractClass, ContractClassView};
use crate::entry_point::{
    all_convertible, classified_view, classify_entry_points, selectors_in_range, EntryPointType,
    EntryPointView, RawEntryPoint,
};
use crate::felt::{field_prime, FieldElement};
use crate::natural::BigNat;
use crate::program::{
    collect_hints, hint_table, lemma_hint_table_domain, lemma_hint_table_lookup, ApTracking,
    CellView, FlowTrackingData, FlowTrackingView, HintRecord, HintRecordView, MemoryCell, Program,
    ProgramError, ProgramView,
};

verus! {

/// The three raw entry-point lists of a compiled class.
#[derive(Debug, Clone, PartialEq, Eq)]
pub struct CompiledEntryPoints {
    pub external: Vec<RawEntryPoint>,
    pub l1_handler: Vec<RawEntryPoint>,
    pub constructor: Vec<RawEntryPoint>,
}

/// A compiled class: flat bytecode, entry points by category, and the
/// source text of the hints of each offset.
#[derive(Debug, Clone, PartialEq, Eq)]
pub struct CompiledClass {
    pub bytecode: Vec<BigNat>,
    pub entry_points_by_type: CompiledEntryPoints,
    /// For each offset that has hints, their source texts in firing order.
    pub pythonic_hints: Option<Vec<(usize, Vec<String>)>>,
}

/// The model of a compiled class.
pub struct CompiledClassView {
    pub bytecode: Seq<nat>,
    pub external: Seq<EntryPointView>,
    pub l1_handler: Seq<EntryPointView>,
    pub constructor: Seq<EntryPointView>,
    pub pythonic_hints: Option<Seq<(usize, Seq<Seq<char>>)>>,
}

impl DeepView for CompiledClass {
    type V = CompiledClassView;

    open spec fn deep_view(&self) -> CompiledClassView {
        CompiledClassView {
            bytecode: self.bytecode.deep_view(),
            external: self.entry_points_by_type.external.deep_view(),
            l1_handler: self.entry_points_by_type.l1_handler.deep_view(),
            constructor: self.entry_points_by_type.constructor.deep_view(),
            pythonic_hints: self.pythonic_hints.deep_view(),
        }
    }
}

/// What a well-formed compiler output always satisfies: the hints are
/// there, and every entry point has a selector in range.
pub open spec fn meets_compiler_invariants(casm: CompiledClassView) -> bool {
    &&& casm.pythonic_hints is Some
    &&& all_convertible(casm.external)
    &&& all_convertible(casm.l1_handler)
    &&& all_convertible(casm.constructor)
}

/// Whether every word is below the field's prime.
pub open spec fn all_in_field(words: Seq<nat>) -> bool {
    forall|i: int| 0 <= i < words.len() ==> #[trigger] words[i] < field_prime()
}

/// Whether `index` is the first place of `words` that is not below the
/// field's prime.
pub open spec fn is_first_out_of_field(words: Seq<nat>, index: usize) -> bool {
    &&& index < words.len()
    &&& words[index as int] >= field_prime()
    &&& all_in_field(words.take(index as int))
}

/// The cells that hold the words, one for one.
pub open spec fn cells_of(words: Seq<nat>) -> Seq<CellView> {
    Seq::new(words.len(), |i: int| CellView::Int(words[i]))
}

/// The hint record made for a source text: no accessible scope, tracking
/// group and offset zero, and no reference.
pub open spec fn synthesized_hint(code: Seq<char>) -> HintRecordView {
    HintRecordView {
        code,
        accessible_scopes: Seq::empty(),
        flow_tracking_data: FlowTrackingView {
            ap_tracking: ApTracking { group: 0, offset: 0 },
            reference_ids: Seq::empty(),
        },
    }
}

/// The records made for the source texts of one offset, in their order.
pub open spec fn synthesized_hints(codes: Seq<Seq<char>>) -> Seq<HintRecordView> {
    Seq::new(codes.len(), |i: int| synthesized_hint(codes[i]))
}

/// Each offset with the records made for its source texts.
pub open spec fn synthesized_pairs(pairs: Seq<(usize, Seq<Seq<char>>)>) -> Seq<
    (usize, Seq<HintRecordView>),
> {
    Seq::new(pairs.len(), |i: int| (pairs[i].0, synthesized_hints(pairs[i].1)))
}

/// The program of a compiled class: its words as cells, its hints
/// synthesized and filed by offset, and nothing else.
pub open spec fn compiled_program(casm: CompiledClassView) -> ProgramView {
    ProgramView {
        data: cells_of(casm.bytecode),
        hints: hint_table(synthesized_pairs(casm.pythonic_hints->0)),
        identifiers: Seq::empty(),
        builtins: Seq::empty(),
        reference_manager: Some(Seq::empty()),
        main: None,
    }
}

/// The contract class of a compiled class.
pub open spec fn compiled_contract_class(casm: CompiledClassView) -> ContractClassView {
    ContractClassView {
        program: compiled_program(casm),
        entry_points_by_type: classified_view(casm.external, casm.l1_handler, casm.constructor),
    }
}

/// Each word has its cell at the same index, and there are no other cells.
pub proof fn lemma_cells_keep_order(words: Seq<nat>)
    ensures
        cells_of(words).len() == words.len(),
        forall|i: int|
            0 <= i < words.len() ==> #[trigger] cells_of(words)[i] == CellView::Int(words[i]),
{
}

/// The entry-point map of a compiled class has all three categories, and
/// each holds the entry points of its list, one for one and in order.
pub proof fn lemma_entry_points_keep_order(casm: CompiledClassView)
    ensures
        forall|category: EntryPointType| #[trigger]
            compiled_contract_class(casm).entry_points_by_type.contains_key(category),
        compiled_contract_class(casm).entry_points_by_type[EntryPointType::External]
            == casm.external,
        compiled_contract_class(casm).entry_points_by_type[EntryPointType::L1Handler]
            == casm.l1_handler,
        compiled_contract_class(casm).entry_points_by_type[EntryPointType::Constructor]
            == casm.constructor,
{
}

/// Where an offset has `n` source texts (in the last pair that names it), the
/// program has exactly `n` hint records at that offset, one for each text
/// and in the same order, each with no scope and zero tracking data.
pub proof fn lemma_hints_keep_order(casm: CompiledClassView, i: int)
    requires
        casm.pythonic_hints is Some,
        0 <= i < casm.pythonic_hints->0.len(),
        forall|j: int|
            i < j < casm.pythonic_hints->0.len() ==> (#[trigger] casm.pythonic_hints->0[j]).0
                != casm.pythonic_hints->0[i].0,
    ensures
        ({
            let (offset, codes) = casm.pythonic_hints->0[i];
            let hints = compiled_program(casm).hints;
            &&& hints.contains_key(offset)
            &&& hints[offset].len() == codes.len()
            &&& forall|k: int|
                0 <= k < codes.len() ==> {
                    &&& (#[trigger] hints[offset][k]).code == codes[k]
                    &&& hints[offset][k].accessible_scopes.len() == 0
                    &&& hints[offset][k].flow_tracking_data.ap_tracking == (ApTracking {
                        group: 0,
                        offset: 0,
                    })
                    &&& hints[offset][k].flow_tracking_data.reference_ids.len() == 0
                }
        }),
{
    let pairs = synthesized_pairs(casm.pythonic_hints->0);
    assert forall|j: int| i < j < pairs.len() implies (#[trigger] pairs[j]).0 != pairs[i].0 by {
        assert(casm.pythonic_hints->0[j].0 != casm.pythonic_hints->0[i].0);
    }
    lemma_hint_table_lookup(pairs, i);
}

/// An offset that the compiled class gives no source texts has no hints.
pub proof fn lemma_no_other_hints(casm: CompiledClassView, offset: usize)
    requires
        casm.pythonic_hints is Some,
        forall|i: int|
            0 <= i < casm.pythonic_hints->0.len() ==> (#[trigger] casm.pythonic_hints->0[i]).0
                != offset,
    ensures
        !compiled_program(casm).hints.contains_key(offset),
{
    let pairs = synthesized_pairs(casm.pythonic_hints->0);
    lemma_hint_table_domain(pairs, offset);
    if hint_table(pairs).contains_key(offset) {
        let i = choose|i: int| 0 <= i < pairs.len() && (#[trigger] pairs[i]).0 == offset;
        assert(casm.pythonic_hints->0[i].0 == offset);
    }
}

/// Only one index is the first word out of the field.
pub proof fn lemma_first_out_of_field_is_unique(words: Seq<nat>, first: usize, second: usize)
    requires
        is_first_out_of_field(words, first),
        is_first_out_of_field(words, second),
    ensures
        first == second,
{
    if first < second {
        assert(words.take(second as int)[first as int] == words[first as int]);
    } else if second < first {
        assert(words.take(first as int)[second as int] == words[second as int]);
    }
}

/// Whether `outcome` is what [`casm_contract_into_contract_class`] may
/// return for a compiled class with the model `casm`.
pub open spec fn is_conversion_outcome(
    casm: CompiledClassView,
    outcome: Result<ContractClass, ProgramError>,
) -> bool {
    &&& outcome is Ok <==> all_in_field(casm.bytecode)
    &&& outcome matches Ok(class) ==> class.deep_view() == compiled_contract_class(casm)
    &&& outcome matches Err(error) ==> error matches ProgramError::OutOfRange(index)
        && is_first_out_of_field(casm.bytecode, index)
}

/// Converting one compiled class twice gives the same outcome: two
/// classes that are equal by value, or the same error.
pub proof fn lemma_conversion_is_repeatable(
    casm: CompiledClassView,
    first: Result<ContractClass, ProgramError>,
    second: Result<ContractClass, ProgramError>,
)
    requires
        is_conversion_outcome(casm, first),
        is_conversion_outcome(casm, second),
    ensures
        first matches Ok(one) ==> second matches Ok(other) && one.deep_view() == other.deep_view(),
        first matches Err(error) ==> second == Err::<ContractClass, ProgramError>(error),
{
    if let Err(ProgramError::OutOfRange(index)) = first {
        if let Err(ProgramError::OutOfRange(other)) = second {
            lemma_first_out_of_field_is_unique(casm.bytecode, index, other);
        }
    }
}

/// Makes the hint records of one offset from their source texts.
fn synthesize_hints(codes: &Vec<String>) -> (records: Vec<HintRecord>)
    ensures
        records.deep_view() == synthesized_hints(codes.deep_view()),
{
    let mut records: Vec<HintRecord> = Vec::new();
    let mut i: usize = 0;
    while i < codes.len()
        invariant
            i <= codes.len(),
            records.len() == i,
            forall|j: int|
                0 <= j < i ==> (#[trigger] records[j]).deep_view() == synthesized_hint(
                    codes[j]@,
                ),
        decreases codes.len() - i,
    {
        let record = HintRecord {
            code: codes[i].clone(),
            accessible_scopes: Vec::new(),
            flow_tracking_data: FlowTrackingData {
                ap_tracking: ApTracking { group: 0, offset: 0 },
                reference_ids: Vec::new(),
            },
        };
        assert(record.accessible_scopes.deep_view() =~= Seq::<Seq<char>>::empty());
        assert(record.flow_tracking_data.reference_ids.deep_view() =~= Seq::<
            (Seq<char>, usize),
        >::empty());
        records.push(record);
        i = i + 1;
    }
    records
}

/// Makes the hint records of every offset.
fn synthesize_pairs(pairs: &Vec<(usize, Vec<String>)>) -> (made: Vec<(usize, Vec<HintRecord>)>)
    ensures
        made.deep_view() == synthesized_pairs(pairs.deep_view()),
{
    let mut made: Vec<(usize, Vec<HintRecord>)> = Vec::new();
    let mut i: usize = 0;
    while i < pairs.len()
        invariant
            i <= pairs.len(),
            made.len() == i,
            forall|j: int|
                0 <= j < i ==> (#[trigger] made[j]).deep_view() == (
                    pairs[j].0,
                    synthesized_hints(pairs[j].1.deep_view()),
                ),
        decreases pairs.len() - i,
    {
        let records = synthesize_hints(&pairs[i].1);
        made.push((pairs[i].0, records));
        i = i + 1;
    }
    made
}

/// Turns each word into a cell. Fails with the index of the first word
/// that is not below the field's prime.
pub fn convert_bytecode(words: &Vec<BigNat>) -> (converted: Result<Vec<MemoryCell>, ProgramError>)
    ensures
        converted is Ok <==> all_in_field(words.deep_view()),
        converted matches Ok(cells) ==> cells.deep_view() == cells_of(words.deep_view()),
        converted matches Err(error) ==> error matches ProgramError::OutOfRange(index)
            && is_first_out_of_field(words.deep_view(), index),
{
    let ghost model = words.deep_view();
    let mut cells: Vec<MemoryCell> = Vec::new();
    let mut i: usize = 0;
    while i < words.len()
        invariant
            i <= words.len(),
            model == words.deep_view(),
            cells.len() == i,
            forall|j: int|
                0 <= j < i ==> (#[trigger] cells[j]).deep_view() == CellView::Int(model[j]),
            forall|j: int| 0 <= j < i ==> #[trigger] model[j] < field_prime(),
        decreases words.len() - i,
    {
        assert(model[i as int] == words[i as int]@);
        match FieldElement::from_be_bytes(words[i].bytes.as_slice()) {
            Some(element) => {
                cells.push(MemoryCell::Int(element));
            },
            None => {
                return Err(ProgramError::OutOfRange(i));
            },
        }
        i = i + 1;
    }
    Ok(cells)
}

impl CompiledClass {
    /// Whether the class meets the compiler's invariants, which
    /// [`casm_contract_into_contract_class`] requires.
    pub fn meets_compiler_invariants(&self) -> (met: bool)
        ensures
            met == meets_compiler_invariants(self.deep_view()),
    {
        self.pythonic_hints.is_some() && selectors_in_range(&self.entry_points_by_type.external)
            && selectors_in_range(&self.entry_points_by_type.l1_handler) && selectors_in_range(
            &self.entry_points_by_type.constructor,
        )
    }
}

/// Builds the runnable contract class of a compiled class.
///
/// The words become cells, one for one. The three entry-point lists are
/// converted and filed under their categories, empty or not. Each hint
/// source text becomes a record with no scope and zero tracking data, filed
/// under its offset in the order given. The program has no identifiers, no
/// builtins, an empty reference manager and no main entry.
///
/// Fails only where a word is not below the field's prime, with the index
/// of the first such word.
pub fn casm_contract_into_contract_class(casm: CompiledClass) -> (converted: Result<
    ContractClass,
    ProgramError,
>)
    requires
        meets_compiler_invariants(casm.deep_view()),
    ensures
        converted is Ok <==> all_in_field(casm.deep_view().bytecode),
        converted matches Ok(class) ==> class.deep_view() == compiled_contract_class(
            casm.deep_view(),
        ),
        converted matches Err(error) ==> error matches ProgramError::OutOfRange(index)
            && is_first_out_of_field(casm.deep_view().bytecode, index),
        is_conversion_outcome(casm.deep_view(), converted),
{
    let CompiledClass { bytecode, entry_points_by_type, pythonic_hints } = casm;
    let CompiledEntryPoints { external, l1_handler, constructor } = entry_points_by_type;
    let entry_points = classify_entry_points(external, l1_handler, constructor).unwrap();
    let hints = collect_hints(synthesize_pairs(&pythonic_hints.unwrap()));
    let data = convert_bytecode(&bytecode)?;
    let program = Program {
        data,
        hints,
        identifiers: Vec::new(),
        builtins: Vec::new(),
        reference_manager: Some(Vec::new()),
        main: None,
    };
    assert(program.deep_view().identifiers =~= Seq::empty());
    assert(program.deep_view().builtins =~= Seq::empty());
    assert(program.deep_view().reference_manager->0 =~= Seq::empty());
    Ok(ContractClass::new(program, entry_points))
}

} // verus!
