use vstd::prelude::*;

verus! {

/// The error type of the tera templating crate (what `tera::Tera::one_off`
/// fails with), declared so that the render wrapper can return it; values
/// of it are opaque here and are mapped to this library's own error type
/// right after the call.
#[verifier::external_type_specification]
#[verifier::external_body]
pub struct ExTeraError(tera::Error);

} // verus!
