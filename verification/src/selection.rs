use vstd::prelude::*;

verus! {

/// The two compilation targets the front end can drive.
#[derive(Clone, Copy, PartialEq, Eq, Structural, Debug)]
pub enum Target {
    /// Compile to a rank-1 constraint system ("r1cs").
    ConstraintSystem,
    /// Compile to the assembly-like listing ("tasm").
    Assembly,
}

/// The three supported scalar field algebras.
#[derive(Clone, Copy, PartialEq, Eq, Structural, Debug)]
pub enum Field {
    /// The 64-bit "oxfoi" (goldilocks) field, the only field the
    /// assembly-like target is defined over.
    Oxfoi,
    /// The curve25519 scalar field.
    Curve25519,
    /// The alt_bn128 (bn254) scalar field.
    AltBn128,
}

/// The identifier the external compiler uses for each target.
pub open spec fn spec_target_str(t: Target) -> Seq<char> {
    match t {
        Target::ConstraintSystem => "r1cs"@,
        Target::Assembly => "tasm"@,
    }
}

pub fn target_str(t: Target) -> (r: &'static str)
    ensures
        r@ == spec_target_str(t),
{
    match t {
        Target::ConstraintSystem => "r1cs",
        Target::Assembly => "tasm",
    }
}

/// The compatibility rule: the assembly-like target is defined over
/// exactly one field algebra; the constraint-system target accepts all
/// supported field algebras.
pub open spec fn compatible(t: Target, f: Field) -> bool {
    t is Assembly ==> f is Oxfoi
}

/// The reason reported for the one illegal kind of combination; it names
/// the field the assembly-like target requires.
pub open spec fn incompatible_reason() -> Seq<char> {
    "tasm target must be compiled to the oxfoi field"@
}

/// Decide, before any compilation is attempted, whether a (target, field)
/// pair is legal. Total over all six combinations: it returns `Err`
/// exactly when the target is `Assembly` and the field is not the one the
/// assembly-like target mandates.
pub fn validate(t: Target, f: Field) -> (r: Result<(), String>)
    ensures
        r is Ok <==> compatible(t, f),
        r matches Err(m) ==> m@ == incompatible_reason(),
{
    match (t, f) {
        (Target::Assembly, Field::Oxfoi) => Ok(()),
        (Target::Assembly, _) => Err("tasm target must be compiled to the oxfoi field".to_owned()),
        (Target::ConstraintSystem, _) => Ok(()),
    }
}

/// The file-extension preference list handed to the external compiler:
/// earlier entries win when several files share a module name. Each
/// target prefers its own low-level extension over the generic source
/// extension.
pub open spec fn spec_extension_priorities(t: Target) -> Seq<Seq<char>> {
    match t {
        Target::ConstraintSystem => seq!["ar1cs"@, "ash"@],
        Target::Assembly => seq!["tasm"@, "ash"@],
    }
}

pub fn extension_priorities(t: Target) -> (r: Vec<String>)
    ensures
        r@.len() == spec_extension_priorities(t).len(),
        forall|i: int|
            0 <= i < r@.len() ==> r@[i]@ == spec_extension_priorities(t)[i],
{
    let mut v: Vec<String> = Vec::new();
    match t {
        Target::ConstraintSystem => v.push("ar1cs".to_owned()),
        Target::Assembly => v.push("tasm".to_owned()),
    }
    v.push("ash".to_owned());
    v
}

/// What the user currently has selected: the file being edited, the
/// compilation target, and the field algebra to compile over.
pub struct Selection {
    pub active_file: String,
    pub target: Target,
    pub field: Field,
}

pub ghost struct SelectionView {
    pub active_file: Seq<char>,
    pub target: Target,
    pub field: Field,
}

impl View for Selection {
    type V = SelectionView;

    open spec fn view(&self) -> SelectionView {
        SelectionView {
            active_file: self.active_file@,
            target: self.target,
            field: self.field,
        }
    }
}

} // verus!
