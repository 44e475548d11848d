//! Arithmetic on mode words: the file-type bits and the permission bits.
//!
//! A host reports a file's mode as one word that holds both the file's type
//! and its permissions. A caller states permissions alone. The functions
//! here take the two apart.

use vstd::prelude::*;

verus! {

/// The file-type bits of a regular file in a mode word.
pub const REGULAR_FILE: u32 = 0o100000;

/// The bits of a mode word that hold permissions: the three access triples
/// and the set-user-id, set-group-id and sticky bits.
pub const PERMISSION_MASK: u32 = 0o7777;

/// The permission bits of a mode word, without its file-type bits.
pub open spec fn permission_bits(word: u32) -> u32 {
    word & PERMISSION_MASK
}

/// The mode word that a host reports after it has set the permissions of a
/// file whose mode word was `word` to `bits`: the file-type bits stay, the
/// permission bits are replaced.
pub open spec fn with_permissions(word: u32, bits: u32) -> u32 {
    (word & !PERMISSION_MASK) | (bits & PERMISSION_MASK)
}

/// Strips the file-type bits from a mode word.
pub fn permission_bits_of(word: u32) -> (bits: u32)
    ensures
        bits == permission_bits(word),
        bits <= PERMISSION_MASK,
{
    let bits: u32 = word & PERMISSION_MASK;
    assert(word & 0o7777u32 <= 0o7777u32) by (bit_vector);
    bits
}

/// Adding the regular-file type bits to permission bits leaves the
/// permission bits as they were.
pub proof fn lemma_type_bits_keep_permissions(mode: u32)
    requires
        mode <= PERMISSION_MASK,
    ensures
        REGULAR_FILE + mode <= u32::MAX,
        permission_bits((REGULAR_FILE + mode) as u32) == mode,
{
    assert(((0o100000u32 + mode) as u32) & 0o7777u32 == mode) by (bit_vector)
        requires
            mode <= 0o7777u32,
    ;
}

/// Setting permissions replaces the permission bits and nothing else.
pub proof fn lemma_with_permissions(word: u32, bits: u32)
    requires
        bits <= PERMISSION_MASK,
    ensures
        permission_bits(with_permissions(word, bits)) == bits,
        permission_bits(word) == bits ==> with_permissions(word, bits) == word,
{
    assert(((word & !0o7777u32) | (bits & 0o7777u32)) & 0o7777u32 == bits) by (bit_vector)
        requires
            bits <= 0o7777u32,
    ;
    assert(word & 0o7777u32 == bits ==> ((word & !0o7777u32) | (bits & 0o7777u32)) == word)
        by (bit_vector);
}

} // verus!
