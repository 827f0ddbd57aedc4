//! Generator core for a C-linkage shim library exposing a C++ API.
//!
//! The crate turns an annotated model of C++ methods into C wrapper
//! declarations and definitions, renders the fixed scaffolding around them
//! (export macro header, umbrella header, build description), models the
//! content-aware file synchronization that keeps regeneration idempotent,
//! and computes the command lines for the native build driver.

pub mod cpp_code_generator;
pub mod cpp_lib_builder;
pub mod errors;
pub mod file_utils;
pub mod model;
pub mod text;

use vstd::prelude::*;

verus! {

/// Compares two string slices by characters.
pub fn str_eq(a: &str, b: &str) -> (r: bool)
    ensures
        r == (a@ == b@),
{
    let a_len = a.unicode_len();
    let b_len = b.unicode_len();
    if a_len != b_len {
        assert(a@ != b@) by {
            assert(a@.len() != b@.len());
        }
        return false;
    }
    let mut i: usize = 0;
    while i < a_len
        invariant
            a_len == a@.len(),
            b_len == b@.len(),
            a_len == b_len,
            i <= a_len,
            forall|j: int| 0 <= j < i ==> a@[j] == b@[j],
        decreases a_len - i,
    {
        if a.get_char(i) != b.get_char(i) {
            return false;
        }
        i += 1;
    }
    proof {
        assert(a@ =~= b@);
    }
    true
}

} // verus!
