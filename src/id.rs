//! A globally-unique identifier for fonts.

use vstd::prelude::*;
use crate::flags::{FontIdFlag, FontIdFlags};
use crate::revision::{revision_of, revision_text, FontRevision};
use crate::text::{hex_text, push_char, push_hex};

verus! {

/// The tag of the OpenType `head` table, "head" in ASCII.
pub const OPENTYPE_TABLE_TAG_HEAD: u32 = 0x68656164;

/// The CRC-32C (Castagnoli polynomial) checksum of `bytes`.
pub uninterp spec fn crc32c(bytes: Seq<u8>) -> u32;

/// Relies on crc::crc32::checksum_castagnoli: the CRC-32C of the bytes, which
/// depends on them alone and is zero for no bytes.
#[verifier::external_body]
fn checksum_castagnoli(bytes: &[u8]) -> (r: u32)
    ensures
        r == crc32c(bytes@),
        bytes@.len() == 0 ==> r == 0,
{
    crc::crc32::checksum_castagnoli(bytes)
}

/// The flags of an identity built from a `head` table.
pub open spec fn opentype_flags(name_is_postscript: bool) -> Set<FontIdFlag> {
    if name_is_postscript {
        set![FontIdFlag::IsOpentype, FontIdFlag::HasPostscriptName]
    } else {
        set![FontIdFlag::IsOpentype]
    }
}

/// The canonical text of an identity: name, revision and eight lowercase
/// hexadecimal digits of the hash, separated by slashes.
pub open spec fn font_id_text(name: Seq<char>, revision: FontRevision, hash: u32) -> Seq<char> {
    name + seq!['/'] + revision_text(revision.0) + seq!['/'] + hex_text(hash as nat, 8)
}

/// The identity of a font: a name, the revision and a hash of its `head` table,
/// and flags that say how these were obtained.
#[derive(Clone, Debug)]
pub struct FontId {
    /// A name describing the font. This is usually the PostScript name, but if the font does not
    /// have a PostScript name it may be some other kind of name.
    pub name: String,
    /// The revision number per the OpenType specification.
    pub revision: FontRevision,
    /// A CRC-32C (Castagnoli polynomial) hash of the `head` table.
    pub hash: u32,
    /// Various flags.
    pub flags: FontIdFlags,
}

impl FontId {
    /// Builds the identity of a font from its name, the bytes of its `head` table
    /// and whether the name is a true PostScript name.
    pub fn from_opentype_head_table(
        name: String,
        head_table_data: &[u8],
        name_is_postscript: bool,
    ) -> (r: FontId)
        ensures
            r.name@ == name@,
            r.revision == revision_of(head_table_data@),
            r.hash == crc32c(head_table_data@),
            r.flags@ == opentype_flags(name_is_postscript),
    {
        let hash = checksum_castagnoli(head_table_data);
        FontId::from_opentype_parts(name, head_table_data, name_is_postscript, hash)
    }

    /// Builds the identity of a font whose `head` table hashes to `hash`.
    pub fn from_opentype_parts(
        name: String,
        head_table_data: &[u8],
        name_is_postscript: bool,
        hash: u32,
    ) -> (r: FontId)
        ensures
            r.name@ == name@,
            r.revision == revision_of(head_table_data@),
            r.hash == hash,
            r.flags@ == opentype_flags(name_is_postscript),
    {
        let mut flags = FontIdFlags::from_flag(FontIdFlag::IsOpentype);
        if name_is_postscript {
            flags.insert(FontIdFlag::HasPostscriptName);
        }
        assert(flags@ =~= opentype_flags(name_is_postscript));
        let revision = FontRevision::from_head_table(head_table_data);
        FontId { name, revision, hash, flags }
    }

    /// The canonical text: `name/revision/hash`, the hash as eight lowercase
    /// hexadecimal digits.
    pub fn to_text(&self) -> (r: String)
        ensures
            r@ == font_id_text(self.name@, self.revision, self.hash),
    {
        let mut s = self.name.clone();
        push_char(&mut s, '/');
        self.revision.push_text(&mut s);
        push_char(&mut s, '/');
        push_hex(&mut s, self.hash, 8);
        assert(s@ =~= font_id_text(self.name@, self.revision, self.hash));
        s
    }
}

/// Hashing is deterministic: equal byte spans hash to equal values.
pub proof fn lemma_hash_deterministic(a: Seq<u8>, b: Seq<u8>)
    requires
        a == b,
    ensures
        crc32c(a) == crc32c(b),
{
}

/// The flags of an identity built from a `head` table always hold the OpenType
/// flag, and hold the PostScript-name flag exactly when the name is one.
pub proof fn lemma_opentype_flags(name_is_postscript: bool)
    ensures
        opentype_flags(name_is_postscript).contains(FontIdFlag::IsOpentype),
        opentype_flags(name_is_postscript).contains(FontIdFlag::HasPostscriptName)
            == name_is_postscript,
        opentype_flags(name_is_postscript).subset_of(
            set![FontIdFlag::IsOpentype, FontIdFlag::HasPostscriptName],
        ),
{
}

/// Two identities built from the same name, `head` table and PostScript-name
/// flag agree in every field.
pub proof fn lemma_construction_is_pure(
    a: FontId,
    b: FontId,
    name: Seq<char>,
    head: Seq<u8>,
    name_is_postscript: bool,
)
    requires
        a.name@ == name,
        a.revision == revision_of(head),
        a.hash == crc32c(head),
        a.flags@ == opentype_flags(name_is_postscript),
        b.name@ == name,
        b.revision == revision_of(head),
        b.hash == crc32c(head),
        b.flags@ == opentype_flags(name_is_postscript),
    ensures
        a.name@ == b.name@,
        a.revision == b.revision,
        a.hash == b.hash,
        a.flags@ == b.flags@,
{
}

} // verus!
