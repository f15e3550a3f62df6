//! The record schema: byte widths of every serialized field and the formula
//! for the total storage that must be reserved before a record is written.
//!
//! Length validation counts Unicode scalar values, while storage is reserved
//! in worst-case UTF-8 bytes; the two measures are kept distinct throughout.

use vstd::prelude::*;

verus! {

/// Width of the opaque record-type tag the host runtime prefixes to every
/// stored record.
pub const DISCRIMINATOR_LENGTH: usize = 8;

/// Width of the author's public key.
pub const PUBLIC_KEY_LENGTH: usize = 32;

/// Width of the creation timestamp.
pub const TIMESTAMP_LENGTH: usize = 8;

/// Reserved width of the topic field: a 4-byte length prefix plus room for
/// 50 scalar values at up to 4 UTF-8 bytes each.
pub const TOPIC_LENGTH: usize = 200 + 4;

/// Reserved width of the content field: a 4-byte length prefix plus the
/// reserved worst-case payload for 280 scalar values.
pub const CONTENT_LENGTH: usize = 1124 + 4;

/// Maximum number of Unicode scalar values allowed in a topic.
pub const MAX_TOPIC_CHARS: usize = 50;

/// Maximum number of Unicode scalar values allowed in a content.
pub const MAX_CONTENT_CHARS: usize = 280;

/// Number of bytes in the UTF-8 encoding of one Unicode scalar value.
pub open spec fn utf8_scalar_width(c: char) -> nat {
    if (c as u32) < 0x80 {
        1
    } else if (c as u32) < 0x800 {
        2
    } else if (c as u32) < 0x10000 {
        3
    } else {
        4
    }
}

/// Number of bytes in the UTF-8 encoding of a sequence of scalar values.
pub open spec fn utf8_width(s: Seq<char>) -> nat
    decreases s.len(),
{
    if s.len() == 0 {
        0
    } else {
        utf8_width(s.drop_last()) + utf8_scalar_width(s.last())
    }
}

/// Every scalar value encodes to at most four UTF-8 bytes, so a sequence
/// encodes to at most four bytes per scalar value.
pub proof fn lemma_utf8_width_bound(s: Seq<char>)
    ensures
        utf8_width(s) <= 4 * s.len(),
    decreases s.len(),
{
    if s.len() > 0 {
        lemma_utf8_width_bound(s.drop_last());
    }
}

/// UTF-8 byte width of a string, computed from its scalar values.
pub fn utf8_byte_len(s: &str) -> (n: usize)
    requires
        4 * s@.len() <= usize::MAX,
    ensures
        n as nat == utf8_width(s@),
        n <= 4 * s@.len(),
{
    let len: usize = s.unicode_len();
    let mut n: usize = 0;
    let mut i: usize = 0;
    while i < len
        invariant
            i <= len,
            len as nat == s@.len(),
            4 * s@.len() <= usize::MAX,
            n as nat == utf8_width(s@.take(i as int)),
            n <= 4 * i,
        decreases len - i,
    {
        let c = s.get_char(i);
        let u = c as u32;
        let w: usize = if u < 0x80 {
            1
        } else if u < 0x800 {
            2
        } else if u < 0x10000 {
            3
        } else {
            4
        };
        proof {
            assert(s@.take(i + 1 as int).drop_last() =~= s@.take(i as int));
        }
        n = n + w;
        i = i + 1;
    }
    proof {
        assert(s@.take(len as int) =~= s@);
    }
    n
}

/// Total storage, in bytes, that must be reserved for one record: the
/// discriminator, the author key, the timestamp, and the worst-case widths
/// of both length-prefixed text fields.
pub fn required_storage_bytes() -> (n: usize)
    ensures
        n == 1380,
{
    DISCRIMINATOR_LENGTH + PUBLIC_KEY_LENGTH + TIMESTAMP_LENGTH + TOPIC_LENGTH + CONTENT_LENGTH
}

} // verus!
