//! Remote invocations: an object, one of the target's own functions, and a
//! parameter block laid out byte for byte as that function expects.
use vstd::bytes::{spec_u32_to_le_bytes, spec_u64_to_le_bytes, u32_to_le_bytes, u64_to_le_bytes};
use vstd::prelude::*;

verus! {

/// One call to make through the dispatch function: run `function` on
/// `object` with the parameter block `params`.
pub struct Invocation {
    pub object: usize,
    pub function: usize,
    pub params: Vec<u8>,
}

pub struct InvocationView {
    pub object: usize,
    pub function: usize,
    pub params: Seq<u8>,
}

impl View for Invocation {
    type V = InvocationView;

    open spec fn view(&self) -> InvocationView {
        InvocationView { object: self.object, function: self.function, params: self.params@ }
    }
}

pub open spec fn invocations_view(v: Seq<Invocation>) -> Seq<InvocationView> {
    v.map_values(|i: Invocation| i@)
}

/// Parameter block of the class switch: the class definition's address,
/// eight bytes, little-endian.
pub fn set_class_params(class: usize) -> (r: Vec<u8>)
    ensures
        r@ == spec_u64_to_le_bytes(class as u64),
{
    u64_to_le_bytes(class as u64)
}

/// Parameter block of the field-of-view setter: one 32-bit float, given by
/// its bits, little-endian.
pub fn set_fov_params(fov_bits: u32) -> (r: Vec<u8>)
    ensures
        r@ == spec_u32_to_le_bytes(fov_bits),
{
    u32_to_le_bytes(fov_bits)
}

/// Parameter block of the sensitivity setter: the X float then the Y float,
/// each four bytes little-endian, with no padding.
pub fn set_sensitivity_params(x_bits: u32, y_bits: u32) -> (r: Vec<u8>)
    ensures
        r@ == spec_u32_to_le_bytes(x_bits) + spec_u32_to_le_bytes(y_bits),
{
    let mut r = u32_to_le_bytes(x_bits);
    let mut y = u32_to_le_bytes(y_bits);
    r.append(&mut y);
    r
}

/// Parameter block of the subtitle setter: one byte, 1 for on and 0 for off.
pub fn set_show_subtitles_params(enabled: bool) -> (r: Vec<u8>)
    ensures
        r@ == seq![if enabled { 1u8 } else { 0u8 }],
{
    let mut r: Vec<u8> = Vec::new();
    r.push(if enabled { 1u8 } else { 0u8 });
    r
}

/// Makes the call `inv` through `dispatch` (the path to the original dispatch
/// function), handing it the object, the function and the parameter block
/// exactly as built, and returns what it returns.
pub fn invoke<F: Fn(usize, usize, &Vec<u8>) -> usize>(dispatch: &F, inv: &Invocation) -> (r: usize)
    requires
        dispatch.requires((inv.object, inv.function, &inv.params)),
    ensures
        dispatch.ensures((inv.object, inv.function, &inv.params), r),
{
    dispatch(inv.object, inv.function, &inv.params)
}

} // verus!
