use vstd::prelude::*;

verus! {

/// A list value in struct form: the pointer to its first element and its
/// length. The canonical empty list has both fields zero.
#[derive(PartialEq, Eq, Structural, Clone, Copy, Debug)]
pub struct ListValue {
    pub ptr: u64,
    pub len: u64,
}

/// The pointer is null exactly when the list is empty.
pub open spec fn canonical(l: ListValue) -> bool {
    (l.ptr == 0) == (l.len == 0)
}

/// The boundary form of a list: its two fields laid side by side in one
/// 128-bit value, the pointer in the low half.
pub open spec fn boundary_bits(l: ListValue) -> u128 {
    ((l.len as u128) << 64u128) | (l.ptr as u128)
}

/// The struct form read back out of a boundary value.
pub open spec fn struct_of_bits(b: u128) -> ListValue {
    ListValue { ptr: (b & 0xffff_ffff_ffff_ffffu128) as u64, len: (b >> 64u128) as u64 }
}

/// The canonical empty list.
pub open spec fn empty_value() -> ListValue {
    ListValue { ptr: 0, len: 0 }
}

/// Struct form to boundary form.
pub fn list_to_boundary(l: ListValue) -> (r: u128)
    ensures
        r == boundary_bits(l),
{
    ((l.len as u128) << 64u128) | (l.ptr as u128)
}

/// Boundary form to struct form.
pub fn list_from_boundary(b: u128) -> (r: ListValue)
    ensures
        r == struct_of_bits(b),
{
    ListValue { ptr: (b & 0xffff_ffff_ffff_ffffu128) as u64, len: (b >> 64u128) as u64 }
}

/// The canonical empty list value, the same whatever the element type.
pub fn empty_list_value() -> (r: ListValue)
    ensures
        r == empty_value(),
{
    ListValue { ptr: 0, len: 0 }
}

/// Converting a list to its boundary form and back gives the same pointer
/// and the same length, bit for bit.
pub proof fn lemma_marshal_round_trip(l: ListValue)
    ensures
        struct_of_bits(boundary_bits(l)) == l,
{
    let p = l.ptr;
    let n = l.len;
    assert((((n as u128) << 64u128) | (p as u128)) & 0xffff_ffff_ffff_ffffu128 == p as u128)
        by (bit_vector);
    assert((((n as u128) << 64u128) | (p as u128)) >> 64u128 == n as u128) by (bit_vector);
}

/// Converting a boundary value to struct form and back gives the same bits.
pub proof fn lemma_boundary_round_trip(b: u128)
    ensures
        boundary_bits(struct_of_bits(b)) == b,
{
    assert(((((b >> 64u128) as u64) as u128) << 64u128) | (((b & 0xffff_ffff_ffff_ffffu128) as u64) as u128) == b)
        by (bit_vector);
}

/// The empty list is canonical and its boundary form is all zero bits.
pub proof fn lemma_empty_canonical()
    ensures
        canonical(empty_value()),
        boundary_bits(empty_value()) == 0,
        struct_of_bits(0) == empty_value(),
{
    assert((((0u64 as u128) << 64u128) | (0u64 as u128)) == 0) by (bit_vector);
    assert(((0u128 & 0xffff_ffff_ffff_ffffu128) as u64) == 0 && ((0u128 >> 64u128) as u64) == 0) by (bit_vector);
}

} // verus!
