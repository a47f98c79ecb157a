use vstd::prelude::*;

verus! {

/// The low 16 bits of a 32-bit value.
pub open spec fn low_word(dword: u32) -> u16 {
    (dword & 0xFFFF) as u16
}

/// The high 16 bits of a 32-bit value.
pub open spec fn high_word(dword: u32) -> u16 {
    (dword >> 16) as u16
}

/// The low 8 bits of a 16-bit value.
pub open spec fn low_byte(word: u16) -> u8 {
    (word & 0xFF) as u8
}

/// The high 8 bits of a 16-bit value.
pub open spec fn high_byte(word: u16) -> u8 {
    (word >> 8) as u8
}

/// Returns the low-order word of `dword`.
pub fn loword(dword: u32) -> (w: u16)
    ensures
        w == low_word(dword),
        w == dword % 0x10000,
{
    proof {
        assert((dword & 0xFFFF) as u16 == dword as u16) by (bit_vector);
        assert(dword as u16 == dword % 0x10000) by (bit_vector);
    }
    dword as u16
}

/// Returns the high-order word of `dword`.
pub fn hiword(dword: u32) -> (w: u16)
    ensures
        w == high_word(dword),
        w == dword / 0x10000,
{
    proof {
        assert((dword >> 16) as u16 == dword / 0x10000) by (bit_vector);
    }
    (dword >> 16) as u16
}

/// Returns the low-order byte of `word`.
pub fn lobyte(word: u16) -> (b: u8)
    ensures
        b == low_byte(word),
        b == word % 0x100,
{
    proof {
        assert((word & 0xFF) as u8 == word as u8) by (bit_vector);
        assert(word as u8 == word % 0x100) by (bit_vector);
    }
    word as u8
}

/// Returns the high-order byte of `word`.
pub fn hibyte(word: u16) -> (b: u8)
    ensures
        b == high_byte(word),
        b == word / 0x100,
{
    proof {
        assert((word >> 8) as u8 == word / 0x100) by (bit_vector);
    }
    (word >> 8) as u8
}

/// Splitting a 32-bit value into its two words loses nothing: the high word
/// shifted up, joined with the low word, gives the value back.
pub proof fn lemma_words_recombine(dword: u32)
    ensures
        ((high_word(dword) as u32) << 16) | (low_word(dword) as u32) == dword,
        high_word(dword) as int * 0x10000 + low_word(dword) as int == dword as int,
{
    assert((((dword >> 16) as u16 as u32) << 16) | ((dword & 0xFFFF) as u16 as u32) == dword)
        by (bit_vector);
    assert(((dword >> 16) as u16) as int * 0x10000 + ((dword & 0xFFFF) as u16) as int == dword as int)
        by (bit_vector);
}

/// Splitting a 16-bit value into its two bytes loses nothing.
pub proof fn lemma_bytes_recombine(word: u16)
    ensures
        ((high_byte(word) as u16) << 8) | (low_byte(word) as u16) == word,
        high_byte(word) as int * 0x100 + low_byte(word) as int == word as int,
{
    assert((((word >> 8) as u8 as u16) << 8) | ((word & 0xFF) as u8 as u16) == word) by (bit_vector);
    assert(((word >> 8) as u8) as int * 0x100 + ((word & 0xFF) as u8) as int == word as int)
        by (bit_vector);
}

} // verus!
