use vstd::prelude::*;
use crate::selection::Field;

verus! {

/// The short identifier of each supported field algebra, as the field
/// library reports it.
pub open spec fn spec_field_name(f: Field) -> Seq<char> {
    match f {
        Field::Oxfoi => "oxfoi"@,
        Field::Curve25519 => "curve25519"@,
        Field::AltBn128 => "alt_bn128"@,
    }
}

/// Relies on `<scalarff::OxfoiFieldElement as scalarff::FieldElement>::name_str`,
/// which returns the constant "oxfoi".
#[verifier::external_body]
fn oxfoi_name() -> (r: String)
    ensures
        r@ == "oxfoi"@,
{
    <scalarff::OxfoiFieldElement as scalarff::FieldElement>::name_str().to_owned()
}

/// Relies on `<scalarff::Curve25519FieldElement as scalarff::FieldElement>::name_str`,
/// which returns the constant "curve25519".
#[verifier::external_body]
fn curve25519_name() -> (r: String)
    ensures
        r@ == "curve25519"@,
{
    <scalarff::Curve25519FieldElement as scalarff::FieldElement>::name_str().to_owned()
}

/// Relies on `<scalarff::Bn128FieldElement as scalarff::FieldElement>::name_str`,
/// which returns the constant "alt_bn128".
#[verifier::external_body]
fn alt_bn128_name() -> (r: String)
    ensures
        r@ == "alt_bn128"@,
{
    <scalarff::Bn128FieldElement as scalarff::FieldElement>::name_str().to_owned()
}

/// Runtime dispatch over the closed set of field algebras: a tag selects
/// the concrete field element type and asks it for its identifier, the
/// string that configures the external compiler and names the field in
/// the success summary.
pub fn field_name(f: Field) -> (r: String)
    ensures
        r@ == spec_field_name(f),
{
    match f {
        Field::Oxfoi => oxfoi_name(),
        Field::Curve25519 => curve25519_name(),
        Field::AltBn128 => alt_bn128_name(),
    }
}

} // verus!
