//! The fixed-capacity `heapless` collections that the driver fills: the
//! receive buffer and the command strings. Each contract below restates what
//! the `heapless` source shows of the call: `push` and `push_str` either append
//! everything or, when the capacity would be exceeded, change nothing and fail.

use vstd::prelude::*;
use vstd::string::StringSliceAdditionalSpecFns;

verus! {

/// Capacity of the receive buffer, in bytes.
pub const RX_CAPACITY: usize = 256;

#[verifier::external_type_specification]
#[verifier::external_body]
#[verifier::reject_recursive_types(T)]
pub struct ExHeaplessVec<T, const N: usize>(heapless::Vec<T, N>);

#[verifier::external_type_specification]
#[verifier::external_body]
pub struct ExHeaplessString<const N: usize>(heapless::String<N>);

/// `heapless::String::clone`; nothing is stated of the copy.
pub assume_specification<const N: usize>[ <heapless::String<N> as Clone>::clone ](
    s: &heapless::String<N>,
) -> heapless::String<N>;

/// The bytes held by a receive buffer.
pub uninterp spec fn rx_bytes(v: heapless::Vec<u8, 256>) -> Seq<u8>;

/// The bytes held by a 64-byte string.
pub uninterp spec fn str64_bytes(s: heapless::String<64>) -> Seq<u8>;

/// The bytes held by a 32-byte string.
pub uninterp spec fn str32_bytes(s: heapless::String<32>) -> Seq<u8>;

/// The bytes held by a 16-byte string.
pub uninterp spec fn str16_bytes(s: heapless::String<16>) -> Seq<u8>;

/// `heapless::Vec::new`: an empty buffer.
#[verifier::external_body]
pub(crate) fn rx_new() -> (r: heapless::Vec<u8, 256>)
    ensures
        rx_bytes(r) == Seq::<u8>::empty(),
{
    heapless::Vec::new()
}

/// `heapless::Vec::push`: appends when there is room, else hands the byte back
/// and leaves the buffer as it was.
#[verifier::external_body]
pub(crate) fn rx_push(v: &mut heapless::Vec<u8, 256>, b: u8) -> (r: core::result::Result<(), u8>)
    ensures
        r is Ok <==> rx_bytes(*old(v)).len() < 256,
        r is Ok ==> rx_bytes(*final(v)) == rx_bytes(*old(v)).push(b),
        r matches Err(x) ==> x == b && rx_bytes(*final(v)) == rx_bytes(*old(v)),
{
    v.push(b)
}

/// `heapless::Vec::clear`: empties the buffer.
#[verifier::external_body]
pub(crate) fn rx_clear(v: &mut heapless::Vec<u8, 256>)
    ensures
        rx_bytes(*final(v)) == Seq::<u8>::empty(),
{
    v.clear()
}

/// `heapless::Vec::as_slice`: the bytes held.
#[verifier::external_body]
pub(crate) fn rx_as_slice(v: &heapless::Vec<u8, 256>) -> (r: &[u8])
    ensures
        r@ == rx_bytes(*v),
{
    v.as_slice()
}

/// `heapless::String::<64>::new`: an empty string.
#[verifier::external_body]
pub(crate) fn str64_new() -> (r: heapless::String<64>)
    ensures
        str64_bytes(r) == Seq::<u8>::empty(),
{
    heapless::String::new()
}

/// `heapless::String::<64>::push_str`: appends the bytes of `x` when they fit,
/// else fails and leaves the string as it was.
#[verifier::external_body]
pub(crate) fn str64_push_str(s: &mut heapless::String<64>, x: &str) -> (r: core::result::Result<(), ()>)
    ensures
        r is Ok <==> str64_bytes(*old(s)).len() + x.spec_bytes().len() <= 64,
        r is Ok ==> str64_bytes(*final(s)) == str64_bytes(*old(s)) + x.spec_bytes(),
        r is Err ==> str64_bytes(*final(s)) == str64_bytes(*old(s)),
{
    s.push_str(x)
}

/// `heapless::String::<64>::try_from(&str)`: a copy of `x` when it fits.
#[verifier::external_body]
pub(crate) fn str64_try_from(x: &str) -> (r: core::result::Result<heapless::String<64>, ()>)
    ensures
        r is Ok <==> x.spec_bytes().len() <= 64,
        r matches Ok(s) ==> str64_bytes(s) == x.spec_bytes(),
{
    heapless::String::try_from(x)
}

/// `heapless::String::<32>::new`: an empty string.
#[verifier::external_body]
pub(crate) fn str32_new() -> (r: heapless::String<32>)
    ensures
        str32_bytes(r) == Seq::<u8>::empty(),
{
    heapless::String::new()
}

/// `heapless::String::<32>::push_str`: appends the bytes of `x` when they fit,
/// else fails and leaves the string as it was.
#[verifier::external_body]
pub(crate) fn str32_push_str(s: &mut heapless::String<32>, x: &str) -> (r: core::result::Result<(), ()>)
    ensures
        r is Ok <==> str32_bytes(*old(s)).len() + x.spec_bytes().len() <= 32,
        r is Ok ==> str32_bytes(*final(s)) == str32_bytes(*old(s)) + x.spec_bytes(),
        r is Err ==> str32_bytes(*final(s)) == str32_bytes(*old(s)),
{
    s.push_str(x)
}

/// `heapless::String::<16>::new`: an empty string.
#[verifier::external_body]
pub(crate) fn str16_new() -> (r: heapless::String<16>)
    ensures
        str16_bytes(r) == Seq::<u8>::empty(),
{
    heapless::String::new()
}

/// `heapless::String::<16>::push_str`: appends the bytes of `x` when they fit,
/// else fails and leaves the string as it was.
#[verifier::external_body]
pub(crate) fn str16_push_str(s: &mut heapless::String<16>, x: &str) -> (r: core::result::Result<(), ()>)
    ensures
        r is Ok <==> str16_bytes(*old(s)).len() + x.spec_bytes().len() <= 16,
        r is Ok ==> str16_bytes(*final(s)) == str16_bytes(*old(s)) + x.spec_bytes(),
        r is Err ==> str16_bytes(*final(s)) == str16_bytes(*old(s)),
{
    s.push_str(x)
}

/// `heapless::String::<16>::push` of an ASCII character: appends its byte when
/// there is room, else fails and leaves the string as it was.
#[verifier::external_body]
pub(crate) fn str16_push(s: &mut heapless::String<16>, c: char) -> (r: core::result::Result<(), ()>)
    requires
        (c as u32) < 0x80,
    ensures
        r is Ok <==> str16_bytes(*old(s)).len() < 16,
        r is Ok ==> str16_bytes(*final(s)) == str16_bytes(*old(s)).push(c as u8),
        r is Err ==> str16_bytes(*final(s)) == str16_bytes(*old(s)),
{
    s.push(c)
}

} // verus!
