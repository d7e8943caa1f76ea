use vstd::prelude::*;

verus! {

#[allow(dead_code)]
fn take_order() {
}

#[allow(dead_code)]
fn serve_order() {
}

#[allow(dead_code)]
fn take_payment() {
}

} // verus!
