//! Iteration over a one-element fixed-size collection of default-valued text:
//! which loops hand out borrowed elements and which hand out owned ones.

use read_wrap::iteration::{assert_borrowed, assert_owned};

#[test]
fn array_iter_yields_borrowed() {
    let arr = [String::default()];
    for s in arr.iter() {
        assert_borrowed(s);
    }
}

#[test]
fn array_into_iter_yields_owned() {
    // Under the newer edition rule, iterating the array by value hands out
    // owned elements; this call compiling is the witness.
    let arr = [String::default()];
    for s in arr.into_iter() {
        assert_owned(s);
    }
}

#[test]
fn slice_iter_yields_borrowed() {
    let arr = [String::default()];
    let slice = &arr;
    for s in slice.iter() {
        assert_borrowed(s);
    }
}

#[test]
fn slice_into_iter_yields_borrowed() {
    // Iterating by value over a reference to the collection hands out
    // borrowed elements under every edition rule.
    let arr = [String::default()];
    let slice = &arr;
    for s in slice.into_iter() {
        assert_borrowed(s);
    }
    for s in slice {
        assert_borrowed(s);
    }
}

#[test]
fn demo_runs() {
    read_wrap::iteration::demo();
}
