//! Field elements: the numbers below the field's prime.

use cairo_vm::Felt252;
use num_bigint::BigUint;
use vstd::prelude::*;

use crate::natural::{be_eq, be_value};

verus! {

/// The prime of the field, `2^251 + 17 * 2^192 + 1`.
pub open spec fn field_prime() -> nat {
    0x800000000000011000000000000000000000000000000000000000000000001nat
}

/// A number below [`field_prime`], as 32 big-endian bytes.
///
/// Its view is the number.
#[derive(Debug, Clone, Copy, PartialEq, Eq, Hash)]
pub struct FieldElement {
    bytes: [u8; 32],
}

impl View for FieldElement {
    type V = nat;

    closed spec fn view(&self) -> nat {
        be_value(self.bytes@)
    }
}

/// Calls `Felt252::from` on the `BigUint` that `word` spells, then
/// `Felt252::to_bytes_be`.
///
/// Trusted: the field element made from a big integer is that integer
/// modulo the prime, and its 32 bytes spell the element's canonical value.
#[verifier::external_body]
fn reduce_into_field(word: &[u8]) -> (bytes: [u8; 32])
    ensures
        be_value(bytes@) == be_value(word@) % field_prime(),
{
    Felt252::from(BigUint::from_bytes_be(word)).to_bytes_be()
}

impl FieldElement {
    /// Every field element is a number below the prime.
    #[verifier::type_invariant]
    spec fn below_prime(self) -> bool {
        be_value(self.bytes@) < field_prime()
    }

    /// Whether the element is a number below the prime. Every element that
    /// this library hands out is.
    pub open spec fn in_field(&self) -> bool {
        self@ < field_prime()
    }

    /// The field element that `word` spells in big-endian bytes, or `None`
    /// where the number is not below the prime.
    pub fn from_be_bytes(word: &[u8]) -> (element: Option<FieldElement>)
        ensures
            element is Some <==> be_value(word@) < field_prime(),
            element matches Some(e) ==> e@ == be_value(word@) && e.in_field(),
    {
        let bytes = reduce_into_field(word);
        if be_eq(bytes.as_slice(), word) {
            Some(FieldElement { bytes })
        } else {
            None
        }
    }

    /// The element's 32 big-endian bytes.
    pub fn to_be_bytes(&self) -> (bytes: [u8; 32])
        ensures
            be_value(bytes@) == self@,
            self.in_field(),
    {
        proof {
            use_type_invariant(self);
        }
        self.bytes
    }
}

} // verus!
