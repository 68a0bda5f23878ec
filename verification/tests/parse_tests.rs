use sprite_xml::manifest::XML;
use sprite_xml::offsets::Offsets;

fn bytes_of(text: &str) -> Vec<u8> {
    text.as_bytes().to_vec()
}

#[test]
fn parses_n_records_order_preserved() {
    let text = "<TextureAtlas imagePath=\"sheet.png\">\n\
                <SubTexture name=\"walk0\" x=\"0\" y=\"0\" width=\"10\" height=\"12\"/>\n\
                <SubTexture name=\"walk1\" x=\"10\" y=\"0\" width=\"11\" height=\"12\" frameX=\"-3\" frameY=\"7\"/>\n\
                <SubTexture name=\"idle0\" x=\"21\" y=\"0\" width=\"9\" height=\"12\" frameX=\"2\"/>\n\
                </TextureAtlas>";
    let xml = XML::parse(&bytes_of(text)).unwrap();
    assert_eq!(xml.subtexture.len(), 3);
    assert_eq!(xml.subtexture[0].name, b"walk0".to_vec());
    assert_eq!(xml.subtexture[1].name, b"walk1".to_vec());
    assert_eq!(xml.subtexture[2].name, b"idle0".to_vec());
    assert_eq!(xml.subtexture[1].x, 10);
    assert_eq!(xml.subtexture[1].width, 11);
    assert_eq!(xml.subtexture[1].frame_x, -3);
    assert_eq!(xml.subtexture[1].frame_y, 7);
    assert_eq!(xml.subtexture[2].frame_x, 2);

    // One offset-table entry per record, in the same order, each doubled
    // (half-pixel units): entry = (-frameX, frameY).
    let offsets = Offsets::from_xml(&xml);
    assert_eq!(offsets.offsets_vec.len(), 3);
    assert_eq!(offsets.offsets_vec[0].x, 0);
    assert_eq!(offsets.offsets_vec[0].y, 0);
    assert_eq!(offsets.offsets_vec[1].x, 3);
    assert_eq!(offsets.offsets_vec[1].y, 7);
    assert_eq!(offsets.offsets_vec[2].x, -2);
    assert_eq!(offsets.offsets_vec[2].y, 0);
}

#[test]
fn frame_fields_default_to_zero() {
    let text = "<SubTexture name=\"a\" x=\"1\" y=\"2\" width=\"3\" height=\"4\"/>";
    let xml = XML::parse(&bytes_of(text)).unwrap();
    assert_eq!(xml.subtexture.len(), 1);
    let t = &xml.subtexture[0];
    assert_eq!(t.frame_x, 0);
    assert_eq!(t.frame_y, 0);
    assert_eq!(t.frame_width, 0);
    assert_eq!(t.frame_height, 0);
}

#[test]
fn leading_byte_order_mark_is_stripped() {
    let text = "\u{feff}<SubTexture name=\"a\" x=\"1\" y=\"2\" width=\"3\" height=\"4\"/>";
    let xml = XML::parse(&bytes_of(text)).unwrap();
    assert_eq!(xml.subtexture.len(), 1);
    assert_eq!(xml.subtexture[0].name, b"a".to_vec());
}

#[test]
fn empty_manifest_parses_to_no_records() {
    let xml = XML::parse(&bytes_of("<TextureAtlas></TextureAtlas>")).unwrap();
    assert_eq!(xml.subtexture.len(), 0);
}

#[test]
fn missing_required_field_fails() {
    let text = "<SubTexture name=\"a\" y=\"2\" width=\"3\" height=\"4\"/>";
    assert!(XML::parse(&bytes_of(text)).is_err());
}

#[test]
fn unquoted_value_fails() {
    let text = "<SubTexture name=\"a\" x=5 y=\"2\" width=\"3\" height=\"4\"/>";
    assert!(XML::parse(&bytes_of(text)).is_err());
}

#[test]
fn unterminated_value_fails() {
    let text = "<SubTexture name=\"a";
    assert!(XML::parse(&bytes_of(text)).is_err());
}

#[test]
fn unclosed_record_fails() {
    let text = "<SubTexture name=\"a\" x=\"1\" y=\"2\" width=\"3\" height=\"4\">";
    assert!(XML::parse(&bytes_of(text)).is_err());
}

#[test]
fn non_numeric_value_fails() {
    let text = "<SubTexture name=\"a\" x=\"12a\" y=\"2\" width=\"3\" height=\"4\"/>";
    assert!(XML::parse(&bytes_of(text)).is_err());
}

#[test]
fn out_of_range_value_fails() {
    let text = "<SubTexture name=\"a\" x=\"4294967296\" y=\"2\" width=\"3\" height=\"4\"/>";
    assert!(XML::parse(&bytes_of(text)).is_err());
}

#[test]
fn negative_frame_offset_parses() {
    let text = "<SubTexture name=\"a\" x=\"1\" y=\"2\" width=\"3\" height=\"4\" frameX=\"-17\" frameY=\"-2147483648\"/>";
    let xml = XML::parse(&bytes_of(text)).unwrap();
    assert_eq!(xml.subtexture[0].frame_x, -17);
    assert_eq!(xml.subtexture[0].frame_y, -2147483648);
}

#[test]
fn unknown_attributes_are_ignored() {
    let text = "<SubTexture name=\"a\" x=\"1\" y=\"2\" width=\"3\" height=\"4\" rotated=\"false\"/>";
    let xml = XML::parse(&bytes_of(text)).unwrap();
    assert_eq!(xml.subtexture.len(), 1);
}

#[test]
fn repeated_attribute_last_wins() {
    let text = "<SubTexture name=\"a\" x=\"1\" x=\"9\" y=\"2\" width=\"3\" height=\"4\"/>";
    let xml = XML::parse(&bytes_of(text)).unwrap();
    assert_eq!(xml.subtexture[0].x, 9);
}

#[test]
fn longer_tag_name_does_not_match() {
    let text = "<SubTextureFoo name=\"a\" x=\"1\" y=\"2\" width=\"3\" height=\"4\"/>";
    let xml = XML::parse(&bytes_of(text)).unwrap();
    assert_eq!(xml.subtexture.len(), 0);
}
