//! How the program ends.

use vstd::prelude::*;

verus! {

/// What the toolkit's exit code means for the program.
pub open spec fn outcome(code: u8) -> Result<(), u8> {
    if code == 0 {
        Ok(())
    } else {
        Err(code)
    }
}

/// What the toolkit's exit code means for the program: zero is success, any
/// other code is reported.
pub fn exit_result(code: u8) -> (result: Result<(), u8>)
    ensures
        result == outcome(code),
        result == (if code == 0 {
            Ok::<(), u8>(())
        } else {
            Err(code)
        }),
{
    if code != 0 {
        return Err(code);
    }
    Ok(())
}

/// The program succeeds on no code but zero, and reports every other code as it
/// is, so that different failures stay different.
pub proof fn law_failures_are_reported_as_they_are(a: u8, b: u8)
    ensures
        outcome(a) is Ok <==> a == 0,
        outcome(a) matches Err(code) ==> code == a,
        outcome(a) == outcome(b) ==> a == b,
{
}

} // verus!
