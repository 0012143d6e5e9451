//! The font revision of the OpenType `head` table: a signed 16.16 fixed-point number.

use vstd::prelude::*;
use crate::text::{int_text, push_char, push_int};

verus! {

/// The signed 32-bit integer that four bytes hold, most significant byte first.
pub open spec fn be_i32(b: Seq<u8>) -> i32 {
    (((b[0] as u32) << 24u32) | ((b[1] as u32) << 16u32) | ((b[2] as u32) << 8u32)
        | (b[3] as u32)) as i32
}

/// The revision that a `head` table holds: the four bytes after its version tag,
/// or zero where the table is too short to hold them.
pub open spec fn revision_of(head: Seq<u8>) -> FontRevision {
    if head.len() >= 8 {
        FontRevision(be_i32(head.subrange(4, 8)))
    } else {
        FontRevision(0)
    }
}

/// The major version: the upper 16 bits of `raw`, read as signed.
pub open spec fn major_of(raw: i32) -> i16 {
    (raw >> 16i32) as i16
}

/// The minor version: the lower 16 bits of `raw`, read as signed.
pub open spec fn minor_of(raw: i32) -> i16 {
    raw as i16
}

/// The version text of `raw`: the major version, then a dot and the minor
/// version unless the minor version is zero.
pub open spec fn revision_text(raw: i32) -> Seq<char> {
    if minor_of(raw) == 0 {
        int_text(major_of(raw) as int)
    } else {
        int_text(major_of(raw) as int) + seq!['.'] + int_text(minor_of(raw) as int)
    }
}

/// Relies on byteorder's BigEndian::read_i32: the first four bytes as a signed
/// big-endian integer; it panics on fewer than four.
#[verifier::external_body]
fn read_i32_be(buf: &[u8]) -> (r: i32)
    requires
        buf@.len() >= 4,
    ensures
        r == be_i32(buf@),
{
    <byteorder::BigEndian as byteorder::ByteOrder>::read_i32(buf)
}

/// The revision number of a font, as specified in the `head` table of OpenType.
#[derive(Clone, Copy, PartialEq, Eq, Structural, Debug)]
pub struct FontRevision(pub i32);

impl FontRevision {
    /// Decodes the revision from the bytes of a `head` table. A table too short
    /// to hold the field gives revision zero.
    pub fn from_head_table(head_table_data: &[u8]) -> (r: FontRevision)
        ensures
            r == revision_of(head_table_data@),
    {
        if head_table_data.len() >= 8 {
            let field = &head_table_data[4..8];
            assert(field@ == head_table_data@.subrange(4, 8));
            FontRevision(read_i32_be(field))
        } else {
            FontRevision(0)
        }
    }

    /// Returns the major version component.
    pub fn major(self) -> (r: i16)
        ensures
            r == major_of(self.0),
            r as int == self.0 as int / 65536,
    {
        proof {
            lemma_major_minor_values(self.0);
        }
        (self.0 >> 16) as i16
    }

    /// Returns the minor version component.
    pub fn minor(self) -> (r: i16)
        ensures
            r == minor_of(self.0),
            r as int == low_signed16(self.0 as int),
    {
        proof {
            lemma_major_minor_values(self.0);
        }
        self.0 as i16
    }

    /// The version text: `major`, or `major.minor` where the minor version is not zero.
    pub fn to_text(self) -> (r: String)
        ensures
            r@ == revision_text(self.0),
    {
        let mut s = String::new();
        self.push_text(&mut s);
        assert(s@ =~= revision_text(self.0));
        s
    }

    /// Appends the version text.
    pub fn push_text(self, s: &mut String)
        ensures
            final(s)@ == old(s)@ + revision_text(self.0),
    {
        push_int(s, self.major() as i32);
        let minor = self.minor();
        if minor != 0 {
            push_char(s, '.');
            push_int(s, minor as i32);
        }
        assert(final(s)@ =~= old(s)@ + revision_text(self.0));
    }
}

/// The signed 16-bit reading of the low 16 bits of `n`.
pub open spec fn low_signed16(n: int) -> int {
    if n % 65536 >= 32768 {
        n % 65536 - 65536
    } else {
        n % 65536
    }
}

/// In arithmetic terms, the major version is `raw` divided by 65536 and rounded
/// down, and the minor version is the remainder read as a signed 16-bit number.
pub proof fn lemma_major_minor_values(raw: i32)
    ensures
        major_of(raw) as int == raw as int / 65536,
        minor_of(raw) as int == low_signed16(raw as int),
{
    assert(major_of(raw) as int == raw as int / 65536) by (bit_vector);
    assert(minor_of(raw) as int == (if raw as int % 65536 >= 32768 {
        raw as int % 65536 - 65536
    } else {
        raw as int % 65536
    })) by (bit_vector);
}

/// A revision rebuilds from its major and minor versions: the major version in
/// the upper 16 bits, the minor version's 16 bits below it.
pub proof fn lemma_revision_recompose(head: Seq<u8>)
    requires
        head.len() >= 8,
    ensures
        revision_of(head).0 == be_i32(head.subrange(4, 8)),
        revision_of(head).0 == ((major_of(revision_of(head).0) as i32) << 16i32) | ((minor_of(
            revision_of(head).0,
        ) as i32) & 0xFFFFi32),
{
    let raw = revision_of(head).0;
    assert(raw == (((raw >> 16i32) as i16 as i32) << 16i32) | ((raw as i16 as i32) & 0xFFFFi32))
        by (bit_vector);
}

/// A `head` table too short to hold the revision field gives revision zero:
/// major version 0, minor version 0.
pub proof fn lemma_short_table_revision(head: Seq<u8>)
    requires
        head.len() < 8,
    ensures
        revision_of(head).0 == 0,
        major_of(revision_of(head).0) == 0,
        minor_of(revision_of(head).0) == 0,
{
    assert((0i32 >> 16i32) as i16 == 0i16) by (bit_vector);
}

} // verus!
