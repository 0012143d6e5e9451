use font_id::{FontId, FontIdFlag, FontIdFlags, FontRevision};

fn head_table() -> Vec<u8> {
    let mut head: Vec<u8> = vec![
        0x00, 0x01, 0x00, 0x00, 0x00, 0x01, 0x00, 0x00, 0x5f, 0x0f, 0x3c, 0xf5,
    ];
    while head.len() < 54 {
        head.push((head.len() * 7) as u8);
    }
    head
}

#[test]
fn revision_recomposes_from_major_and_minor() {
    let spans: Vec<Vec<u8>> = vec![
        vec![0, 0, 0, 0, 0x00, 0x01, 0x00, 0x05],
        vec![9, 9, 9, 9, 0xff, 0xfe, 0x80, 0x01, 7],
        vec![1, 2, 3, 4, 0x7f, 0xff, 0xff, 0xff],
        vec![1, 2, 3, 4, 0x80, 0x00, 0x00, 0x00],
    ];
    for b in spans {
        let rev = FontRevision::from_head_table(&b);
        let expected = i32::from_be_bytes([b[4], b[5], b[6], b[7]]);
        assert_eq!(rev.0, expected);
        let rebuilt = ((rev.major() as i32) << 16) | ((rev.minor() as i32) & 0xFFFF);
        assert_eq!(rebuilt, rev.0);
    }
}

#[test]
fn revision_decodes_signed_big_endian() {
    let rev = FontRevision::from_head_table(&[0, 1, 0, 0, 0xff, 0xfe, 0x80, 0x01]);
    assert_eq!(rev.0, -0x0001_7fff);
    assert_eq!(rev.major(), -2);
    assert_eq!(rev.minor(), -32767);
    assert_eq!(rev.to_text(), "-2.-32767");
}

#[test]
fn short_table_gives_revision_zero() {
    for len in 0..8usize {
        let b: Vec<u8> = vec![0xff; len];
        let rev = FontRevision::from_head_table(&b);
        assert_eq!(rev.0, 0);
        assert_eq!(rev.major(), 0);
        assert_eq!(rev.minor(), 0);
        let id = FontId::from_opentype_head_table(String::from("Short"), &b, false);
        assert_eq!(id.revision, FontRevision(0));
    }
}

#[test]
fn hash_is_deterministic_and_sees_one_bit() {
    let a = head_table();
    let mut b = head_table();
    b[20] ^= 0x01;
    let id1 = FontId::from_opentype_head_table(String::from("A"), &a, true);
    let id2 = FontId::from_opentype_head_table(String::from("A"), &a, true);
    let id3 = FontId::from_opentype_head_table(String::from("A"), &b, true);
    assert_eq!(id1.hash, id2.hash);
    assert_ne!(id1.hash, id3.hash);
}

#[test]
fn hash_is_crc32c_of_whole_table() {
    let id = FontId::from_opentype_head_table(String::from("Digits"), b"123456789", false);
    assert_eq!(id.hash, 0xe306_9283);
    let empty = FontId::from_opentype_head_table(String::from("Empty"), &[], false);
    assert_eq!(empty.hash, 0);
    assert_eq!(empty.to_text(), "Empty/0/00000000");
}

#[test]
fn postscript_name_sets_both_flags() {
    let id = FontId::from_opentype_head_table(String::from("P"), &head_table(), true);
    assert!(id.flags.contains(FontIdFlag::IsOpentype));
    assert!(id.flags.contains(FontIdFlag::HasPostscriptName));
    assert_eq!(id.flags.bits(), 0x03);
}

#[test]
fn other_name_sets_opentype_flag_only() {
    let id = FontId::from_opentype_head_table(String::from("P"), &head_table(), false);
    assert!(id.flags.contains(FontIdFlag::IsOpentype));
    assert!(!id.flags.contains(FontIdFlag::HasPostscriptName));
    assert_eq!(id.flags.bits(), 0x02);
}

#[test]
fn flag_set_operations() {
    let empty = FontIdFlags::empty();
    assert_eq!(empty.bits(), 0);
    assert!(!empty.contains(FontIdFlag::IsOpentype));
    let ps = FontIdFlags::from_flag(FontIdFlag::HasPostscriptName);
    let ot = FontIdFlags::from_flag(FontIdFlag::IsOpentype);
    assert_eq!(ps.bits(), 0x01);
    assert_eq!(ot.bits(), 0x02);
    assert_eq!(ps.union(ot).bits(), 0x03);
    assert_eq!(ps.union(ps), ps);
    let mut f = empty;
    f.insert(FontIdFlag::IsOpentype);
    assert_eq!(f, ot);
    f.insert(FontIdFlag::IsOpentype);
    assert_eq!(f, ot);
    assert_eq!(FontIdFlag::HasPostscriptName.mask(), 0x01);
    assert_eq!(FontIdFlag::IsOpentype.mask(), 0x02);
}

#[test]
fn revision_text_rendering() {
    let one = FontRevision(0x0001_0000);
    assert_eq!(one.major(), 1);
    assert_eq!(one.minor(), 0);
    assert_eq!(one.to_text(), "1");
    let one_five = FontRevision(0x0001_0005);
    assert_eq!(one_five.major(), 1);
    assert_eq!(one_five.minor(), 5);
    assert_eq!(one_five.to_text(), "1.5");
    assert_eq!(FontRevision(0).to_text(), "0");
    assert_eq!(FontRevision(0x0102_0304).to_text(), "258.772");
}

#[test]
fn helvetica_end_to_end() {
    let head = head_table();
    assert_eq!(head.len(), 54);
    let id = FontId::from_opentype_head_table(String::from("Helvetica"), &head, true);
    let h = crc::crc32::checksum_castagnoli(&head);
    assert_eq!(id.hash, h);
    assert_eq!(id.name, "Helvetica");
    assert_eq!(id.revision, FontRevision(0x0001_0000));
    assert_eq!(id.to_text(), format!("Helvetica/1/{:08x}", h));
    let text = id.to_text();
    let hex = &text[text.len() - 8..];
    assert!(hex.chars().all(|c| c.is_ascii_digit() || ('a'..='f').contains(&c)));
}

#[test]
fn small_hash_is_zero_padded() {
    let id = FontId::from_opentype_parts(String::from("X"), &[0, 1, 0, 0, 0, 2, 0, 3], false, 0xab);
    assert_eq!(id.hash, 0xab);
    assert_eq!(id.revision, FontRevision(0x0002_0003));
    assert_eq!(id.to_text(), "X/2.3/000000ab");
}

#[test]
fn construction_is_pure() {
    let head = head_table();
    let a = FontId::from_opentype_head_table(String::from("Helvetica"), &head, true);
    let b = FontId::from_opentype_head_table(String::from("Helvetica"), &head, true);
    assert_eq!(a.name, b.name);
    assert_eq!(a.revision.0, b.revision.0);
    assert_eq!(a.hash, b.hash);
    assert_eq!(a.flags, b.flags);
    assert_eq!(a.to_text(), b.to_text());
    let c = a.clone();
    assert_eq!(c.to_text(), a.to_text());
}

#[test]
fn head_tag_is_ascii_head() {
    assert_eq!(font_id::id::OPENTYPE_TABLE_TAG_HEAD.to_be_bytes(), *b"head");
}
