//! From a legacy program document to a program.

use vstd::prelude::*;

use crate::class::{ContractClass, ContractClassView};
use crate::entry_point::{EntryPointMap, EntryPointType, EntryPointView};
use crate::felt::{field_prime, FieldElement};
use crate::literal::{is_literal, literal_value, parse_literal};
use crate::program::{
    collect_hints, hint_table, lemma_hint_table_lookup, CellView, HintRecord, HintRecordView,
    Identifier, IdentifierView, MemoryCell, Program, ProgramError, ProgramView, Reference,
    ReferenceView, Section,
};

verus! {

/// A legacy program document, split into its sections. A section that the
/// document lacks is `None`.
#[derive(Debug, Clone, PartialEq, Eq)]
pub struct LegacyProgram {
    /// The instructions, as numeric literals.
    pub data: Option<Vec<String>>,
    pub builtins: Option<Vec<String>>,
    /// The hints of each offset, in document order.
    pub hints: Option<Vec<(usize, Vec<HintRecord>)>>,
    pub identifiers: Option<Vec<(String, Identifier)>>,
    pub reference_manager: Option<Vec<Reference>>,
    pub main: Option<usize>,
}

/// The model of a legacy program document.
pub struct LegacyProgramView {
    pub data: Option<Seq<Seq<char>>>,
    pub builtins: Option<Seq<Seq<char>>>,
    pub hints: Option<Seq<(usize, Seq<HintRecordView>)>>,
    pub identifiers: Option<Seq<(Seq<char>, IdentifierView)>>,
    pub reference_manager: Option<Seq<ReferenceView>>,
    pub main: Option<usize>,
}

impl DeepView for LegacyProgram {
    type V = LegacyProgramView;

    open spec fn deep_view(&self) -> LegacyProgramView {
        LegacyProgramView {
            data: self.data.deep_view(),
            builtins: self.builtins.deep_view(),
            hints: self.hints.deep_view(),
            identifiers: self.identifiers.deep_view(),
            reference_manager: self.reference_manager.deep_view(),
            main: self.main,
        }
    }
}

/// A legacy contract class: the program document and the entry points,
/// already by category.
#[derive(Debug, Clone, PartialEq, Eq)]
pub struct LegacyContractClass {
    pub program: LegacyProgram,
    pub entry_points_by_type: EntryPointMap,
}

/// The model of a legacy contract class.
pub struct LegacyContractClassView {
    pub program: LegacyProgramView,
    pub entry_points_by_type: Map<EntryPointType, Seq<EntryPointView>>,
}

impl DeepView for LegacyContractClass {
    type V = LegacyContractClassView;

    open spec fn deep_view(&self) -> LegacyContractClassView {
        LegacyContractClassView {
            program: self.program.deep_view(),
            entry_points_by_type: self.entry_points_by_type.deep_view(),
        }
    }
}

/// Whether `token` is a numeric literal whose value is below the field's
/// prime.
pub open spec fn is_field_literal(token: Seq<char>) -> bool {
    is_literal(token) && literal_value(token) < field_prime()
}

/// Whether every token is a numeric literal with a value in the field.
pub open spec fn all_field_literals(tokens: Seq<Seq<char>>) -> bool {
    forall|i: int| 0 <= i < tokens.len() ==> is_field_literal(#[trigger] tokens[i])
}

/// Whether `error` reports the first token that is no numeric literal with
/// a value in the field, and says which of the two it fails to be.
pub open spec fn is_first_bad_token(tokens: Seq<Seq<char>>, error: ProgramError) -> bool {
    match error {
        ProgramError::MalformedLiteral(index) => {
            &&& index < tokens.len()
            &&& !is_literal(tokens[index as int])
            &&& all_field_literals(tokens.take(index as int))
        },
        ProgramError::OutOfRange(index) => {
            &&& index < tokens.len()
            &&& is_literal(tokens[index as int])
            &&& literal_value(tokens[index as int]) >= field_prime()
            &&& all_field_literals(tokens.take(index as int))
        },
        ProgramError::MissingSection(_) => false,
    }
}

/// The first required section that the document lacks, in the order data,
/// builtins, hints, identifiers.
pub open spec fn missing_section(document: LegacyProgramView) -> Option<Section> {
    if document.data is None {
        Some(Section::Data)
    } else if document.builtins is None {
        Some(Section::Builtins)
    } else if document.hints is None {
        Some(Section::Hints)
    } else if document.identifiers is None {
        Some(Section::Identifiers)
    } else {
        None
    }
}

/// Whether the document has every required section and only numeric
/// literals with values in the field for data.
pub open spec fn is_well_formed(document: LegacyProgramView) -> bool {
    missing_section(document) is None && all_field_literals(document.data->0)
}

/// Whether `error` is what is wrong with the document: its first missing
/// section or, where it has them all, its first bad data token.
pub open spec fn is_build_failure(document: LegacyProgramView, error: ProgramError) -> bool {
    match missing_section(document) {
        Some(section) => error == ProgramError::MissingSection(section),
        None => is_first_bad_token(document.data->0, error),
    }
}

/// The cells that hold the values of the literals, one for one.
pub open spec fn cells_of_literals(tokens: Seq<Seq<char>>) -> Seq<CellView> {
    Seq::new(tokens.len(), |i: int| CellView::Int(literal_value(tokens[i])))
}

/// The program of a well-formed document: each section as it stands in
/// the document, the data literals as cells and the hints filed by offset.
pub open spec fn legacy_program(document: LegacyProgramView) -> ProgramView {
    ProgramView {
        data: cells_of_literals(document.data->0),
        hints: hint_table(document.hints->0),
        identifiers: document.identifiers->0,
        builtins: document.builtins->0,
        reference_manager: document.reference_manager,
        main: document.main,
    }
}

/// The program of a well-formed document holds what the document holds,
/// section by section and in the same order: a cell for each data literal
/// with the literal's value, the identifiers, the builtins and the reference
/// manager as they stand, and for each offset the hint records of the last
/// pair that names it.
pub proof fn lemma_program_mirrors_document(document: LegacyProgramView)
    requires
        is_well_formed(document),
    ensures
        ({
            let program = legacy_program(document);
            &&& program.data.len() == document.data->0.len()
            &&& forall|i: int|
                0 <= i < program.data.len() ==> #[trigger] program.data[i] == CellView::Int(
                    literal_value(document.data->0[i]),
                ) && literal_value(document.data->0[i]) < field_prime()
            &&& program.identifiers == document.identifiers->0
            &&& program.builtins == document.builtins->0
            &&& program.reference_manager == document.reference_manager
            &&& program.main == document.main
            &&& forall|i: int|
                0 <= i < document.hints->0.len() && (forall|j: int|
                    i < j < document.hints->0.len() ==> (#[trigger] document.hints->0[j]).0
                        != document.hints->0[i].0) ==> program.hints.contains_key(
                    (#[trigger] document.hints->0[i]).0,
                ) && program.hints[document.hints->0[i].0] == document.hints->0[i].1
        }),
{
    let pairs = document.hints->0;
    assert forall|i: int|
        0 <= i < pairs.len() && (forall|j: int|
            i < j < pairs.len() ==> (#[trigger] pairs[j]).0 != pairs[i].0) implies hint_table(
        pairs,
    ).contains_key((#[trigger] pairs[i]).0) && hint_table(pairs)[pairs[i].0] == pairs[i].1 by {
        lemma_hint_table_lookup(pairs, i);
    }
    assert forall|i: int| 0 <= i < document.data->0.len() implies literal_value(
        #[trigger] document.data->0[i],
    ) < field_prime() by {
        assert(is_field_literal(document.data->0[i]));
    }
}

/// Only one error reports the first bad token.
pub proof fn lemma_first_bad_token_is_unique(
    tokens: Seq<Seq<char>>,
    first: ProgramError,
    second: ProgramError,
)
    requires
        is_first_bad_token(tokens, first),
        is_first_bad_token(tokens, second),
    ensures
        first == second,
{
    let i = bad_token_index(first);
    let j = bad_token_index(second);
    if i < j {
        assert(is_field_literal(tokens.take(j as int)[i as int]));
    } else if j < i {
        assert(is_field_literal(tokens.take(i as int)[j as int]));
    }
}

/// The index that an error about a token names.
pub open spec fn bad_token_index(error: ProgramError) -> usize {
    match error {
        ProgramError::MalformedLiteral(index) => index,
        ProgramError::OutOfRange(index) => index,
        ProgramError::MissingSection(_) => 0,
    }
}

/// Reads each data token as a field element.
fn parse_data(tokens: &Vec<String>) -> (parsed: Result<Vec<MemoryCell>, ProgramError>)
    ensures
        parsed is Ok <==> all_field_literals(tokens.deep_view()),
        parsed matches Ok(cells) ==> cells.deep_view() == cells_of_literals(tokens.deep_view()),
        parsed matches Err(error) ==> is_first_bad_token(tokens.deep_view(), error),
{
    let ghost model = tokens.deep_view();
    let mut cells: Vec<MemoryCell> = Vec::new();
    let mut i: usize = 0;
    while i < tokens.len()
        invariant
            i <= tokens.len(),
            model == tokens.deep_view(),
            cells.len() == i,
            forall|j: int|
                0 <= j < i ==> (#[trigger] cells[j]).deep_view() == CellView::Int(
                    literal_value(model[j]),
                ),
            forall|j: int| 0 <= j < i ==> is_field_literal(#[trigger] model[j]),
        decreases tokens.len() - i,
    {
        assert(model[i as int] == tokens[i as int]@);
        let bytes = match parse_literal(tokens[i].as_str()) {
            Some(bytes) => bytes,
            None => {
                return Err(ProgramError::MalformedLiteral(i));
            },
        };
        match FieldElement::from_be_bytes(bytes.as_slice()) {
            Some(element) => {
                cells.push(MemoryCell::Int(element));
            },
            None => {
                return Err(ProgramError::OutOfRange(i));
            },
        }
        i = i + 1;
    }
    Ok(cells)
}

/// Builds the program of a legacy document.
///
/// Every section goes to the program as it stands in the document, in the
/// same order; the data literals are read as field elements and the hints
/// are filed by offset. Nothing else is checked.
///
/// Fails where a required section is absent, or a data token is no numeric
/// literal or has a value outside the field; the error names the first
/// such fault.
pub fn build_program(document: LegacyProgram) -> (built: Result<Program, ProgramError>)
    ensures
        built is Ok <==> is_well_formed(document.deep_view()),
        built matches Ok(program) ==> program.deep_view() == legacy_program(document.deep_view()),
        built matches Err(error) ==> is_build_failure(document.deep_view(), error),
{
    let LegacyProgram { data, builtins, hints, identifiers, reference_manager, main } = document;
    let tokens = match data {
        Some(tokens) => tokens,
        None => {
            return Err(ProgramError::MissingSection(Section::Data));
        },
    };
    let builtins = match builtins {
        Some(builtins) => builtins,
        None => {
            return Err(ProgramError::MissingSection(Section::Builtins));
        },
    };
    let hints = match hints {
        Some(hints) => hints,
        None => {
            return Err(ProgramError::MissingSection(Section::Hints));
        },
    };
    let identifiers = match identifiers {
        Some(identifiers) => identifiers,
        None => {
            return Err(ProgramError::MissingSection(Section::Identifiers));
        },
    };
    let data = parse_data(&tokens)?;
    let hints = collect_hints(hints);
    Ok(Program { data, hints, identifiers, builtins, reference_manager, main })
}

/// The failure that a document parser reports: a message and nothing else.
#[derive(Debug, Clone, PartialEq, Eq)]
pub struct DeserializationFailure {
    pub message: String,
}

/// Builds the program of the `program` field of a legacy document, for a
/// document parser: a failure carries the message of the error that
/// [`build_program`] gives.
pub fn deserialize_program(document: LegacyProgram) -> (parsed: Result<
    Program,
    DeserializationFailure,
>)
    ensures
        parsed is Ok <==> is_well_formed(document.deep_view()),
        parsed matches Ok(program) ==> program.deep_view() == legacy_program(document.deep_view()),
        parsed matches Err(failure) ==> exists|error: ProgramError| #[trigger]
            is_build_failure(document.deep_view(), error) && failure.message@
                == error.message_text(),
{
    match build_program(document) {
        Ok(program) => Ok(program),
        Err(error) => Err(DeserializationFailure { message: error.message() }),
    }
}

/// The contract class of a well-formed legacy class: the program of its
/// document, and its entry points as they stand.
pub open spec fn legacy_contract_class(class: LegacyContractClassView) -> ContractClassView {
    ContractClassView {
        program: legacy_program(class.program),
        entry_points_by_type: class.entry_points_by_type,
    }
}

/// Whether `outcome` is what [`ContractClass::try_from`] may return for a
/// legacy class with the model `class`.
pub open spec fn is_legacy_outcome(
    class: LegacyContractClassView,
    outcome: Result<ContractClass, ProgramError>,
) -> bool {
    &&& outcome is Ok <==> is_well_formed(class.program)
    &&& outcome matches Ok(made) ==> made.deep_view() == legacy_contract_class(class)
    &&& outcome matches Err(error) ==> is_build_failure(class.program, error)
}

/// Building the contract class of one legacy class twice gives the same
/// outcome: two classes that are equal by value, or the same error.
pub proof fn lemma_legacy_conversion_is_repeatable(
    class: LegacyContractClassView,
    first: Result<ContractClass, ProgramError>,
    second: Result<ContractClass, ProgramError>,
)
    requires
        is_legacy_outcome(class, first),
        is_legacy_outcome(class, second),
    ensures
        first matches Ok(one) ==> second matches Ok(other) && one.deep_view() == other.deep_view(),
        first matches Err(error) ==> second == Err::<ContractClass, ProgramError>(error),
{
    if let Err(error) = first {
        if let Err(other) = second {
            if missing_section(class.program) is None {
                lemma_first_bad_token_is_unique(class.program.data->0, error, other);
            }
        }
    }
}

impl ContractClass {
    /// Builds the runnable contract class of a legacy class. Fails where
    /// [`build_program`] fails on its program, with the same error.
    pub fn try_from(class: LegacyContractClass) -> (converted: Result<ContractClass, ProgramError>)
        ensures
            converted is Ok <==> is_well_formed(class.program.deep_view()),
            converted matches Ok(made) ==> made.deep_view() == legacy_contract_class(
                class.deep_view(),
            ),
            converted matches Err(error) ==> is_build_failure(class.program.deep_view(), error),
            is_legacy_outcome(class.deep_view(), converted),
    {
        let LegacyContractClass { program, entry_points_by_type } = class;
        let program = build_program(program)?;
        Ok(ContractClass::new(program, entry_points_by_type))
    }
}

} // verus!
