use vstd::prelude::*;
use crate::workspace::Workspace;

verus! {

/// Name of the entry file; the workspace always holds a file of this name.
pub const ENTRY_FILE_NAME: &'static str = "entry.ash";

pub const POW5_NAME: &'static str = "pow5.ash";

pub const POW5_TEXT: &'static str = "(v)

let v2 = v * v
let v4 = v2 * v2

return v4 * v
";

pub const ASSERT_EQ_AR1CS_NAME: &'static str = "assert_eq.ar1cs";

pub const ASSERT_EQ_AR1CS_TEXT: &'static str = "(a, b) -> ()

# one is a global signal that is equal to 1
# e.g. one === 1
#
# coefficients must be literals
#
# an extra (0,one) is added below
# this evaluates to 0 and is thus a no-op
0 = (1*a + 0*one) * (1*one) - (1*b) # assert equality

# no symbolic constraint necessary
# only operating on known values
";

pub const ASSERT_EQ_TASM_NAME: &'static str = "assert_eq.tasm";

pub const ASSERT_EQ_TASM_TEXT: &'static str = "(_, _) -> _

eq
assert
push 0

return
";

pub const ENTRY_TEXT: &'static str = "# define some vectors to play with
let x = [1, 2, 3]
let y = [10, 20, 30]

# multiply them together
let m = x * y
assert_eq(m[0], 10)
assert_eq(m[1], 40)
assert_eq(m[2], 90)

# pass the product to a function
let p5 = pow5(m)

# change one of the constants and see what happens!
assert_eq(p5[0], 100000)
assert_eq(p5[1], 102400000)
assert_eq(p5[2], 5904900000)

# the same function can accept scalars
let a5 = pow5(124)
assert_eq(a5, 29316250624)

# click on pow5.ash on the left to see the implementation
";

/// The files a fresh session starts with: an entry program over small
/// vectors, a helper raising its input to the fifth power, and the two
/// low-level overrides of the equality assertion.
pub open spec fn spec_initial_files() -> Map<Seq<char>, Seq<char>> {
    Map::empty().insert(POW5_NAME@, POW5_TEXT@).insert(
        ASSERT_EQ_AR1CS_NAME@,
        ASSERT_EQ_AR1CS_TEXT@,
    ).insert(ASSERT_EQ_TASM_NAME@, ASSERT_EQ_TASM_TEXT@).insert(ENTRY_FILE_NAME@, ENTRY_TEXT@)
}

/// Build the workspace a fresh session starts with.
pub fn init() -> (r: Workspace)
    ensures
        r.wf(),
        r@ == spec_initial_files(),
        r@.contains_key(ENTRY_FILE_NAME@),
{
    let mut w = Workspace::empty();
    w.set(&POW5_NAME.to_owned(), POW5_TEXT.to_owned());
    w.set(&ASSERT_EQ_AR1CS_NAME.to_owned(), ASSERT_EQ_AR1CS_TEXT.to_owned());
    w.set(&ASSERT_EQ_TASM_NAME.to_owned(), ASSERT_EQ_TASM_TEXT.to_owned());
    w.set(&ENTRY_FILE_NAME.to_owned(), ENTRY_TEXT.to_owned());
    w
}

} // verus!
