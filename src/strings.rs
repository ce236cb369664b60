//! Counted UTF-16 strings as the runtime takes them.
use vstd::prelude::*;

verus! {

/// A counted UTF-16 string: `length` bytes of text in a buffer of `maximum_length` bytes.
pub struct UnicodeString {
    pub buffer: Vec<u16>,
    /// Bytes of text, without the terminating NUL.
    pub length: u16,
    /// Bytes of the whole buffer.
    pub maximum_length: u16,
}

/// The counted string over the NUL-terminated UTF-16 text `s`, whose size in bytes must fit
/// in 16 bits.
pub fn make_const_unicode_string(s: &[u16]) -> (r: UnicodeString)
    requires
        s@.len() >= 1,
        s@.last() == 0,
        2 * s@.len() <= u16::MAX,
    ensures
        r.buffer@ == s@,
        r.maximum_length == 2 * s@.len(),
        r.length == 2 * s@.len() - 2,
{
    let len_bytes: usize = s.len() * 2;
    let mut buffer: Vec<u16> = Vec::new();
    let mut i: usize = 0;
    while i < s.len()
        invariant
            i <= s@.len(),
            buffer@ == s@.subrange(0, i as int),
        decreases s@.len() - i,
    {
        buffer.push(s[i]);
        i = i + 1;
        assert(buffer@ =~= s@.subrange(0, i as int));
    }
    assert(buffer@ =~= s@);
    UnicodeString {
        buffer,
        length: (len_bytes - 2) as u16,
        maximum_length: len_bytes as u16,
    }
}

} // verus!
