//! Entry points and their three categories.

use cairo_lang_starknet_classes::casm_contract_class::CasmContractEntryPoint;
use num_bigint::BigUint;
use starknet_api::StarknetApiError;
use vstd::prelude::*;

use crate::natural::{
    be_value, lemma_be_value_split_first, lemma_be_value_upper_bound, pow256, BigNat,
};

verus! {

/// `StarknetApiError` of `starknet_api`, the error of its conversions. The
/// library looks at nothing inside it.
#[verifier::external_type_specification]
#[verifier::external_body]
pub struct ExStarknetApiError(StarknetApiError);

/// Selectors are the numbers below this bound, `2^252`: those whose 32
/// big-endian bytes start with a zero half-byte.
pub open spec fn selector_bound() -> nat {
    0x1000000000000000000000000000000000000000000000000000000000000000nat
}

/// The selector of an entry point, as 32 big-endian bytes. Its view is the
/// number they spell.
#[derive(Debug, Clone, Copy, PartialEq, Eq, Hash)]
pub struct Selector {
    bytes: [u8; 32],
}

impl View for Selector {
    type V = nat;

    closed spec fn view(&self) -> nat {
        be_value(self.bytes@)
    }
}

impl Selector {
    /// Every selector is a number below the bound.
    #[verifier::type_invariant]
    spec fn below_bound(self) -> bool {
        be_value(self.bytes@) < selector_bound()
    }

    /// Whether the selector is below [`selector_bound`]. Every selector
    /// that this library hands out is.
    pub open spec fn in_range(&self) -> bool {
        self@ < selector_bound()
    }

    /// The selector with the given bytes, or `None` where they spell a
    /// number that is not below [`selector_bound`].
    pub fn from_be_bytes(bytes: [u8; 32]) -> (selector: Option<Selector>)
        ensures
            selector is Some <==> be_value(bytes@) < selector_bound(),
            selector matches Some(s) ==> s@ == be_value(bytes@) && s.in_range(),
    {
        proof {
            let unit = pow256(31);
            let first = bytes@[0] as nat;
            lemma_be_value_split_first(bytes@);
            lemma_be_value_upper_bound(bytes@.skip(1));
            assert(unit == 0x100000000000000000000000000000000000000000000000000000000000000nat)
                by {
                reveal_with_fuel(pow256, 32);
            }
            assert(first < 16 ==> first * unit <= 15 * unit) by (nonlinear_arith);
            assert(first >= 16 ==> first * unit >= 16 * unit) by (nonlinear_arith);
        }
        if bytes[0] < 16 {
            Some(Selector { bytes })
        } else {
            None
        }
    }

    /// The selector's 32 big-endian bytes.
    pub fn to_be_bytes(&self) -> (bytes: [u8; 32])
        ensures
            be_value(bytes@) == self@,
            self.in_range(),
    {
        proof {
            use_type_invariant(self);
        }
        self.bytes
    }
}

/// The category of an entry point.
#[derive(Debug, Clone, Copy, PartialEq, Eq, Hash, Structural)]
pub enum EntryPointType {
    Constructor,
    External,
    L1Handler,
}

/// An entry point as the compiler emits it: the selector may be any
/// natural number.
#[derive(Debug, Clone, PartialEq, Eq)]
pub struct RawEntryPoint {
    pub selector: BigNat,
    pub offset: usize,
    pub builtins: Vec<String>,
}

/// A callable location of the bytecode.
#[derive(Debug, Clone, PartialEq, Eq)]
pub struct EntryPoint {
    pub selector: Selector,
    /// Offset of the first instruction in the bytecode.
    pub offset: usize,
    /// The builtins that the entry point needs.
    pub builtins: Vec<String>,
}

/// The model of an entry point, raw or converted.
pub struct EntryPointView {
    pub selector: nat,
    pub offset: usize,
    pub builtins: Seq<Seq<char>>,
}

impl DeepView for RawEntryPoint {
    type V = EntryPointView;

    open spec fn deep_view(&self) -> EntryPointView {
        EntryPointView {
            selector: self.selector@,
            offset: self.offset,
            builtins: self.builtins.deep_view(),
        }
    }
}

impl DeepView for EntryPoint {
    type V = EntryPointView;

    open spec fn deep_view(&self) -> EntryPointView {
        EntryPointView {
            selector: self.selector@,
            offset: self.offset,
            builtins: self.builtins.deep_view(),
        }
    }
}

/// Whether every entry point of `points` has a selector below
/// [`selector_bound`].
pub open spec fn all_convertible(points: Seq<EntryPointView>) -> bool {
    forall|i: int| 0 <= i < points.len() ==> (#[trigger] points[i]).selector < selector_bound()
}

/// Whether `index` is the first place of `points` whose selector is not
/// below [`selector_bound`].
pub open spec fn is_first_out_of_range(points: Seq<EntryPointView>, index: usize) -> bool {
    &&& index < points.len()
    &&& points[index as int].selector >= selector_bound()
    &&& all_convertible(points.take(index as int))
}

/// A selector that is not below [`selector_bound`].
#[derive(Debug, Clone, Copy, PartialEq, Eq, Structural)]
pub struct SelectorOutOfRange;

/// The first entry point, in the order external, L1 handler, constructor,
/// whose selector is out of range.
#[derive(Debug, Clone, Copy, PartialEq, Eq, Structural)]
pub struct EntryPointError {
    pub category: EntryPointType,
    pub index: usize,
}

/// Calls `EntryPoint::try_from(CasmContractEntryPoint)` of `starknet_api` on
/// the raw entry point, and hands back the selector's bytes and the offset.
///
/// Trusted: the call succeeds exactly where the selector, written in
/// hexadecimal, has at most 64 digits of which the 64th from the right is
/// zero, that is where it is below `2^252`. The selector it returns has the
/// same value, in 32 big-endian bytes; the offset is unchanged.
#[verifier::external_body]
fn convert_raw(raw: &RawEntryPoint) -> (converted: Result<([u8; 32], usize), StarknetApiError>)
    ensures
        converted is Ok <==> raw.selector@ < selector_bound(),
        converted matches Ok((bytes, offset)) ==> be_value(bytes@) == raw.selector@ && offset
            == raw.offset,
{
    let entry = CasmContractEntryPoint {
        selector: BigUint::from_bytes_be(&raw.selector.bytes),
        offset: raw.offset,
        builtins: raw.builtins.clone(),
    };
    let point = starknet_api::deprecated_contract_class::EntryPoint::try_from(entry)?;
    let mut bytes = [0u8; 32];
    bytes.copy_from_slice(point.selector.0.bytes());
    Ok((bytes, point.offset.0))
}

impl RawEntryPoint {
    /// Whether the selector is below [`selector_bound`], so that
    /// [`EntryPoint::from_raw`] succeeds.
    pub fn is_convertible(&self) -> (convertible: bool)
        ensures
            convertible == (self.selector@ < selector_bound()),
    {
        convert_raw(self).is_ok()
    }
}

impl EntryPoint {
    /// Converts a raw entry point. Fails exactly where the selector is not
    /// below [`selector_bound`]; otherwise nothing changes but the type.
    pub fn from_raw(raw: RawEntryPoint) -> (converted: Result<EntryPoint, SelectorOutOfRange>)
        ensures
            converted is Ok <==> raw.selector@ < selector_bound(),
            converted matches Ok(point) ==> point.deep_view() == raw.deep_view()
                && point.selector.in_range(),
    {
        match convert_raw(&raw) {
            Ok((bytes, offset)) => Ok(
                EntryPoint { selector: Selector { bytes }, offset, builtins: raw.builtins },
            ),
            Err(_) => Err(SelectorOutOfRange),
        }
    }
}

/// Converts each raw entry point, in order. Fails with the index of the
/// first one whose selector is out of range.
pub fn convert_entry_points(raws: Vec<RawEntryPoint>) -> (converted: Result<Vec<EntryPoint>, usize>)
    ensures
        converted is Ok <==> all_convertible(raws.deep_view()),
        converted matches Ok(points) ==> points.deep_view() == raws.deep_view(),
        converted matches Err(index) ==> is_first_out_of_range(raws.deep_view(), index),
{
    let ghost model = raws.deep_view();
    let mut points: Vec<EntryPoint> = Vec::new();
    for raw in it: raws.into_iter()
        invariant
            model == raws.deep_view(),
            it.seq() == raws@,
            points.deep_view() == model.take(it.index() as int),
            all_convertible(model.take(it.index() as int)),
    {
        let ghost k = it.index() as int;
        assert(model[k] == raw.deep_view());
        match EntryPoint::from_raw(raw) {
            Ok(point) => {
                let ghost before = points.deep_view();
                points.push(point);
                assert(points.deep_view() =~= before.push(model[k]));
                assert(model.take(k + 1) =~= model.take(k).push(model[k]));
            },
            Err(_) => {
                assert(points.deep_view().len() == points@.len());
                return Err(points.len());
            },
        }
    }
    assert(model.take(model.len() as int) =~= model);
    Ok(points)
}

/// Whether every entry point of `points` has a selector in range.
pub fn selectors_in_range(points: &Vec<RawEntryPoint>) -> (all: bool)
    ensures
        all == all_convertible(points.deep_view()),
{
    let mut i: usize = 0;
    while i < points.len()
        invariant
            i <= points.len(),
            forall|j: int| 0 <= j < i ==> (#[trigger] points.deep_view()[j]).selector
                < selector_bound(),
        decreases points.len() - i,
    {
        if !points[i].is_convertible() {
            assert(points.deep_view()[i as int] == points[i as int].deep_view());
            return false;
        }
        i = i + 1;
    }
    true
}

/// The entry points of a class, by category. A category may be absent,
/// which is not the same as present and empty.
#[derive(Debug, Clone, PartialEq, Eq)]
pub struct EntryPointMap {
    pub constructor: Option<Vec<EntryPoint>>,
    pub external: Option<Vec<EntryPoint>>,
    pub l1_handler: Option<Vec<EntryPoint>>,
}

impl DeepView for EntryPointMap {
    type V = Map<EntryPointType, Seq<EntryPointView>>;

    open spec fn deep_view(&self) -> Map<EntryPointType, Seq<EntryPointView>> {
        Map::new(
            |category: EntryPointType| self.slot(category) is Some,
            |category: EntryPointType| self.slot(category)->0.deep_view(),
        )
    }
}

impl Default for EntryPointMap {
    /// The map with no category.
    fn default() -> (map: EntryPointMap)
        ensures
            map.deep_view() == Map::<EntryPointType, Seq<EntryPointView>>::empty(),
    {
        EntryPointMap::new()
    }
}

impl EntryPointMap {
    /// The list filed under `category`, if any.
    pub open spec fn slot(&self, category: EntryPointType) -> Option<Vec<EntryPoint>> {
        match category {
            EntryPointType::Constructor => self.constructor,
            EntryPointType::External => self.external,
            EntryPointType::L1Handler => self.l1_handler,
        }
    }

    /// The map with no category.
    pub fn new() -> (map: EntryPointMap)
        ensures
            map.deep_view() == Map::<EntryPointType, Seq<EntryPointView>>::empty(),
    {
        let map = EntryPointMap { constructor: None, external: None, l1_handler: None };
        map
    }

    /// Files `points` under `category`, in place of what was there.
    pub fn insert(&mut self, category: EntryPointType, points: Vec<EntryPoint>)
        ensures
            final(self).deep_view() == old(self).deep_view().insert(category, points.deep_view()),
            final(self).slot(category) == Some(points),
            forall|other: EntryPointType|
                other != category ==> final(self).slot(other) == old(self).slot(other),
    {
        match category {
            EntryPointType::Constructor => {
                self.constructor = Some(points);
            },
            EntryPointType::External => {
                self.external = Some(points);
            },
            EntryPointType::L1Handler => {
                self.l1_handler = Some(points);
            },
        }
    }

    /// The list filed under `category`, if any.
    pub fn get(&self, category: EntryPointType) -> (points: Option<&Vec<EntryPoint>>)
        ensures
            points is Some <==> self.deep_view().contains_key(category),
            points matches Some(list) ==> self.slot(category) == Some(*list)
                && list.deep_view() == self.deep_view()[category],
    {
        match category {
            EntryPointType::Constructor => self.constructor.as_ref(),
            EntryPointType::External => self.external.as_ref(),
            EntryPointType::L1Handler => self.l1_handler.as_ref(),
        }
    }
}

/// Files the three converted lists under their categories. Fails with the
/// first entry point, in the order external, L1 handler, constructor, whose
/// selector is out of range.
pub fn classify_entry_points(
    external: Vec<RawEntryPoint>,
    l1_handler: Vec<RawEntryPoint>,
    constructor: Vec<RawEntryPoint>,
) -> (classified: Result<EntryPointMap, EntryPointError>)
    ensures
        classified is Ok <==> all_convertible(external.deep_view()) && all_convertible(
            l1_handler.deep_view(),
        ) && all_convertible(constructor.deep_view()),
        classified matches Ok(map) ==> map.deep_view() == classified_view(
            external.deep_view(),
            l1_handler.deep_view(),
            constructor.deep_view(),
        ),
        classified matches Err(error) ==> is_first_failure(
            external.deep_view(),
            l1_handler.deep_view(),
            constructor.deep_view(),
            error,
        ),
{
    let external = match convert_entry_points(external) {
        Ok(points) => points,
        Err(index) => {
            return Err(EntryPointError { category: EntryPointType::External, index });
        },
    };
    let l1_handler = match convert_entry_points(l1_handler) {
        Ok(points) => points,
        Err(index) => {
            return Err(EntryPointError { category: EntryPointType::L1Handler, index });
        },
    };
    let constructor = match convert_entry_points(constructor) {
        Ok(points) => points,
        Err(index) => {
            return Err(EntryPointError { category: EntryPointType::Constructor, index });
        },
    };
    let mut map = EntryPointMap::new();
    map.insert(EntryPointType::External, external);
    map.insert(EntryPointType::L1Handler, l1_handler);
    map.insert(EntryPointType::Constructor, constructor);
    assert(map.deep_view() =~= classified_view(
        external.deep_view(),
        l1_handler.deep_view(),
        constructor.deep_view(),
    ));
    Ok(map)
}

/// The map that has all three categories, each with its list.
pub open spec fn classified_view(
    external: Seq<EntryPointView>,
    l1_handler: Seq<EntryPointView>,
    constructor: Seq<EntryPointView>,
) -> Map<EntryPointType, Seq<EntryPointView>> {
    Map::new(
        |category: EntryPointType| true,
        |category: EntryPointType|
            match category {
                EntryPointType::Constructor => constructor,
                EntryPointType::External => external,
                EntryPointType::L1Handler => l1_handler,
            },
    )
}

/// Whether `error` names the first entry point, in the order external, L1
/// handler, constructor, whose selector is out of range.
pub open spec fn is_first_failure(
    external: Seq<EntryPointView>,
    l1_handler: Seq<EntryPointView>,
    constructor: Seq<EntryPointView>,
    error: EntryPointError,
) -> bool {
    match error.category {
        EntryPointType::External => is_first_out_of_range(external, error.index),
        EntryPointType::L1Handler => all_convertible(external) && is_first_out_of_range(
            l1_handler,
            error.index,
        ),
        EntryPointType::Constructor => all_convertible(external) && all_convertible(l1_handler)
            && is_first_out_of_range(constructor, error.index),
    }
}

} // verus!
