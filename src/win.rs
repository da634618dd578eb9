use vstd::prelude::*;

verus! {

/// The status code type of the Windows bindings: a public `i32` field.
#[verifier::external_type_specification]
pub struct ExWinHresult(windows::core::HRESULT);

} // verus!
