//! A noise function returning a constant value.

use crate::noise::{Noise, NoiseDomain};
use vstd::prelude::*;

verus! {

/// A noise function that ignores the coordinate and returns a fixed value.
#[derive(Clone, Copy)]
pub struct Constant<Value: Copy> {
    pub value: Value,
}

impl<Value: Copy> Constant<Value> {
    pub fn new(value: Value) -> (r: Self)
        ensures
            r.value == value,
    {
        Self { value }
    }
}

impl<Value: Copy> Noise for Constant<Value> {
    type Value = Value;
}

impl<Arg, Value: Copy> NoiseDomain<Arg> for Constant<Value> {
    open spec fn noise_spec(&self, arg: Arg) -> Value {
        self.value
    }

    fn noise(&self, arg: Arg) -> (r: Value) {
        self.value
    }
}

} // verus!
