//! Strings that cross the boundary with LLVM.

use crate::native::Call;
use vstd::prelude::*;
use vstd::string::StringSliceAdditionalSpecFns;
use vstd::utf8::{
    char_is_scalar, char_u32_cast, encode_scalar, encode_utf8, has_width_1_encoding, is_scalar,
};

verus! {

/// Whether `text` holds the character zero. LLVM reads a name up to its
/// first zero byte, so such a string cannot be handed to it whole.
pub open spec fn interior_nul(text: &str) -> bool {
    text@.contains('\0')
}

proof fn zero_byte_of_a_scalar(scalar: u32)
    requires
        is_scalar(scalar),
    ensures
        encode_scalar(scalar).contains(0u8) <==> scalar == 0,
{
    let bytes = encode_scalar(scalar);
    if has_width_1_encoding(scalar) {
        assert(((scalar & 0x7F) as u8 == 0u8) <==> scalar == 0) by (bit_vector)
            requires
                scalar <= 0x7F,
        ;
        if scalar == 0 {
            assert(bytes[0] == 0u8);
        }
    } else {
        assert(scalar != 0);
        assert(0xC0u8 | ((scalar >> 6) & 0x1F) as u8 != 0u8) by (bit_vector);
        assert(0xE0u8 | ((scalar >> 12) & 0x0F) as u8 != 0u8) by (bit_vector);
        assert(0xF0u8 | ((scalar >> 18) & 0x7) as u8 != 0u8) by (bit_vector);
        assert(0x80u8 | (scalar & 0x3F) as u8 != 0u8) by (bit_vector);
        assert(0x80u8 | ((scalar >> 6) & 0x3F) as u8 != 0u8) by (bit_vector);
        assert(0x80u8 | ((scalar >> 12) & 0x3F) as u8 != 0u8) by (bit_vector);
        assert(forall|i: int| 0 <= i < bytes.len() ==> bytes[i] != 0u8);
    }
}

/// A string holds a zero byte in its UTF-8 form exactly when it holds the
/// character zero: no other character has a zero byte in its encoding.
pub proof fn zero_byte_is_zero_char(chars: Seq<char>)
    ensures
        encode_utf8(chars).contains(0u8) <==> chars.contains('\0'),
    decreases chars.len(),
{
    if chars.len() > 0 {
        let first = encode_scalar(chars[0] as u32);
        let rest = encode_utf8(chars.drop_first());
        char_is_scalar(chars[0]);
        char_u32_cast(chars[0], chars[0] as u32);
        char_u32_cast('\0', 0u32);
        zero_byte_of_a_scalar(chars[0] as u32);
        zero_byte_is_zero_char(chars.drop_first());
        assert(encode_utf8(chars) == first + rest);
        if first.contains(0u8) {
            let i = choose|i: int| 0 <= i < first.len() && first[i] == 0u8;
            assert((first + rest)[i] == 0u8);
            assert(chars[0] == '\0');
        }
        if rest.contains(0u8) {
            let i = choose|i: int| 0 <= i < rest.len() && rest[i] == 0u8;
            assert((first + rest)[first.len() + i] == 0u8);
            let j = choose|j: int|
                0 <= j < chars.drop_first().len() && chars.drop_first()[j] == '\0';
            assert(chars[j + 1] == '\0');
        }
        if (first + rest).contains(0u8) {
            let i = choose|i: int| 0 <= i < (first + rest).len() && (first + rest)[i] == 0u8;
            if i < first.len() {
                assert(first[i] == 0u8);
            } else {
                assert(rest[i - first.len()] == 0u8);
            }
        }
        if chars.contains('\0') {
            let j = choose|j: int| 0 <= j < chars.len() && chars[j] == '\0';
            if j == 0 {
                assert(chars[0] as u32 == 0);
            } else {
                assert(chars.drop_first()[j - 1] == '\0');
            }
        }
    }
}

/// Decides `interior_nul`, by looking for a zero byte.
pub fn has_interior_nul(text: &str) -> (found: bool)
    ensures
        found == interior_nul(text),
{
    let bytes = text.as_bytes();
    let mut i: usize = 0;
    while i < bytes.len()
        invariant
            i <= bytes.len(),
            bytes@ == text.spec_bytes(),
            forall|j: int| 0 <= j < i ==> bytes@[j] != 0u8,
        decreases bytes.len() - i,
    {
        if bytes[i] == 0 {
            proof {
                assert(text.spec_bytes()[i as int] == 0u8);
                zero_byte_is_zero_char(text@);
            }
            return true;
        }
        i += 1;
    }
    proof {
        zero_byte_is_zero_char(text@);
    }
    false
}

/// A message that LLVM allocated and this layer owns: it is to be handed
/// back to LLVM exactly once. The type has no copy.
#[derive(Debug, PartialEq, Eq)]
pub struct LLVMString {
    pub ptr: usize,
}

impl LLVMString {
    /// Takes charge of the message at `ptr`.
    pub fn new(ptr: usize) -> (message: LLVMString)
        ensures
            message.ptr == ptr,
    {
        LLVMString { ptr }
    }

    /// Where the message lies.
    pub fn as_ptr(&self) -> (ptr: usize)
        ensures
            ptr == self.ptr,
    {
        self.ptr
    }

    /// Gives the message up: the one call that frees it.
    pub fn release(self) -> (call: Call<'static>)
        ensures
            call == (Call::DisposeMessage { message: self.ptr }),
    {
        Call::DisposeMessage { message: self.ptr }
    }
}

} // verus!
