//! The iteration demonstration: visiting a one-element collection of
//! default-valued text by reference, then consuming it by value.
//!
//! The two witness functions pin down, at the type level, whether an iteration
//! hands out borrowed or owned elements: a call to either only compiles when
//! the element has the corresponding type. Iterating a fixed-size collection
//! by reference always yields borrowed elements; what iterating it by value
//! yields is an edition rule of the language, and the tests exercise it
//! through these witnesses.

use vstd::prelude::*;

verus! {

/// Witness that an iteration handed out an owned text value: the call only
/// compiles when the element is owned.
pub fn assert_owned(_s: String) {
}

/// Witness that an iteration handed out a borrowed text value: the call only
/// compiles when the element is borrowed.
pub fn assert_borrowed(_s: &String) {
}

/// The demonstration itself: build a one-element collection of default-valued
/// text, visit its element by reference, then take the element out and consume
/// it by value. It starts and ends with nothing: every element built is
/// consumed.
pub fn demo() {
    let mut v: Vec<String> = Vec::new();
    v.push(String::new());
    assert_borrowed(&v[0]);
    let taken = v.pop();
    match taken {
        Some(s) => assert_owned(s),
        None => {},
    }
    assert(v@.len() == 0);
}

} // verus!
