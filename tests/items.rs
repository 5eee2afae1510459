use agile_keychain::{ContentItem, ParseError, RecordField};

fn example_record() -> Vec<RecordField> {
    vec![
        RecordField::Text("5E1481A4F138412697966498AEE6429F".to_string()),
        RecordField::Text("webforms.WebForm".to_string()),
        RecordField::Text("Example Login".to_string()),
        RecordField::Text("".to_string()),
        RecordField::Number(1417924112),
        RecordField::Text("".to_string()),
        RecordField::Number(0),
        RecordField::Text("N".to_string()),
    ]
}

#[test]
fn decode_single_content_item() {
    let ci: ContentItem = ContentItem::decode(&example_record()).unwrap();

    assert!(ci.key == "5E1481A4F138412697966498AEE6429F".as_bytes());
    assert!(ci.timestamp == 1417924112);
    assert!(ci.name == "Example Login");
}

#[test]
fn decode_content_item_list() {
    let records = vec![example_record(), example_record(), example_record()];
    let ci: Vec<ContentItem> = records.iter().map(|r| ContentItem::decode(r).unwrap()).collect();

    for &x in [0, 1, 2].iter() {
        assert!(ci[x].key == "5E1481A4F138412697966498AEE6429F".as_bytes());
        assert!(ci[x].timestamp == 1417924112);
        assert!(ci[x].name == "Example Login");
    }
}

#[test]
fn decode_keeps_class_name() {
    let ci = ContentItem::decode(&example_record()).unwrap();
    assert_eq!(ci.class, "webforms.WebForm");
}

#[test]
fn decode_rejects_wrong_arity() {
    let mut short = example_record();
    short.pop();
    assert_eq!(ContentItem::decode(&short).err(), Some(ParseError::Schema));
    let mut long = example_record();
    long.push(RecordField::Text("extra".to_string()));
    assert_eq!(ContentItem::decode(&long).err(), Some(ParseError::Schema));
}

#[test]
fn decode_rejects_short_key_reference() {
    let mut r = example_record();
    r[0] = RecordField::Text("5E1481A4F138412697966498AEE6429".to_string());
    assert_eq!(ContentItem::decode(&r).err(), Some(ParseError::Schema));
}

#[test]
fn decode_rejects_non_ascii_key_reference() {
    let mut r = example_record();
    r[0] = RecordField::Text("5E1481A4F138412697966498AEE642\u{e9}".to_string());
    assert_eq!(ContentItem::decode(&r).err(), Some(ParseError::Schema));
}

#[test]
fn decode_rejects_text_timestamp() {
    let mut r = example_record();
    r[4] = RecordField::Text("1417924112".to_string());
    assert_eq!(ContentItem::decode(&r).err(), Some(ParseError::Schema));
}

#[test]
fn decode_rejects_out_of_range_flag() {
    let mut r = example_record();
    r[6] = RecordField::Number(300);
    assert_eq!(ContentItem::decode(&r).err(), Some(ParseError::Schema));
}

#[test]
fn decode_rejects_other_field_kind() {
    let mut r = example_record();
    r[7] = RecordField::Other;
    assert_eq!(ContentItem::decode(&r).err(), Some(ParseError::Schema));
}

#[test]
fn decode_accepts_negative_timestamp() {
    let mut r = example_record();
    r[4] = RecordField::Number(-5);
    assert_eq!(ContentItem::decode(&r).unwrap().timestamp, -5);
}
