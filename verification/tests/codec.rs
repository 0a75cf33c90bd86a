use passhive::codec::{deserialize, object_record, objects_record, record_object, serialize};
use passhive::error::VaultError;
use passhive::json::{FieldValue, JsonField, JsonObject};
use passhive::models::{DataType, Sex};

fn text(name: &str, value: &str) -> JsonField {
    JsonField { name: name.to_string(), value: FieldValue::Text(value.to_string()) }
}

fn number(name: &str, value: u64) -> JsonField {
    JsonField { name: name.to_string(), value: FieldValue::Number(value) }
}

fn object(tag: &str, fields: Vec<JsonField>) -> JsonObject {
    JsonObject { tag: tag.to_string(), fields }
}

#[test]
fn written_text_of_every_kind() {
    let cases = vec![
        (
            DataType::Password { password: "hunter2".to_string() },
            r#"{"Password":{"password":"hunter2"}}"#,
        ),
        (
            DataType::Card { num: "1234567812345678".to_string(), cvv: 123, bank: "B".to_string() },
            r#"{"Card":{"num":"1234567812345678","cvv":123,"bank":"B"}}"#,
        ),
        (
            DataType::Passport {
                fsl: "A B".to_string(),
                date: "01.02.1990".to_string(),
                sex: Sex::Female,
                serial: 4510,
                num: 123456,
            },
            r#"{"Passport":{"fsl":"A B","date":"01.02.1990","sex":"Female","serial":4510,"num":123456}}"#,
        ),
        (DataType::Document { text: "a\nb".to_string() }, r#"{"Document":{"text":"a\nb"}}"#),
        (
            DataType::WifiConfig { name: "home".to_string(), password: "pw".to_string() },
            r#"{"WifiConfig":{"name":"home","password":"pw"}}"#,
        ),
        (
            DataType::Token { token: "t".to_string(), from: "GitHub".to_string() },
            r#"{"Token":{"token":"t","from":"GitHub"}}"#,
        ),
    ];
    for (record, expected) in cases {
        assert_eq!(serialize(&record), expected);
        let back = deserialize(expected).unwrap();
        assert_eq!(format!("{:?}", back), format!("{:?}", record));
    }
}

#[test]
fn written_text_escapes_what_json_escapes() {
    let record = DataType::Password { password: "a\"b\\c\u{1}é".to_string() };
    let written = serialize(&record);
    assert_eq!(written, "{\"Password\":{\"password\":\"a\\\"b\\\\c\\u0001é\"}}");
    match deserialize(&written).unwrap() {
        DataType::Password { password } => assert_eq!(password, "a\"b\\c\u{1}é"),
        other => panic!("unexpected record {:?}", other),
    }
}

#[test]
fn sex_not_declared_is_written_by_name() {
    let record = DataType::Passport {
        fsl: String::new(),
        date: String::new(),
        sex: Sex::NotDeclaredYet,
        serial: 0,
        num: 0,
    };
    assert_eq!(
        serialize(&record),
        r#"{"Passport":{"fsl":"","date":"","sex":"NotDeclaredYet","serial":0,"num":0}}"#
    );
}

#[test]
fn reads_fields_in_any_order_and_layout() {
    let text = "{ \"Card\" : { \"bank\" : \"B\", \"cvv\" : 65535,\n \"num\" : \"1\" } }";
    match deserialize(text).unwrap() {
        DataType::Card { num, cvv, bank } => {
            assert_eq!(num, "1");
            assert_eq!(cvv, 65535);
            assert_eq!(bank, "B");
        }
        other => panic!("unexpected record {:?}", other),
    }
}

#[test]
fn passes_over_fields_of_no_kind() {
    let text = r#"{"Document":{"text":"t","extra":[1,2],"more":null}}"#;
    match deserialize(text).unwrap() {
        DataType::Document { text } => assert_eq!(text, "t"),
        other => panic!("unexpected record {:?}", other),
    }
}

#[test]
fn what_is_no_record_is_corrupt() {
    let corrupt = vec![
        "",
        "null",
        "[]",
        "{}",
        "\"Password\"",
        "{\"Password\":\"hunter2\"}",
        "{\"Password\":{}}",
        "{\"Password\":{\"password\":1}}",
        "{\"Password\":{\"password\":null}}",
        "{\"password\":{\"password\":\"x\"}}",
        "{\"Secret\":{\"password\":\"x\"}}",
        "{\"Password\":{\"password\":\"x\"},\"Token\":{\"token\":\"t\",\"from\":\"f\"}}",
        "{\"Card\":{\"num\":\"1\",\"cvv\":65536,\"bank\":\"B\"}}",
        "{\"Card\":{\"num\":\"1\",\"cvv\":-1,\"bank\":\"B\"}}",
        "{\"Card\":{\"num\":\"1\",\"cvv\":1.5,\"bank\":\"B\"}}",
        "{\"Card\":{\"num\":\"1\",\"cvv\":\"123\",\"bank\":\"B\"}}",
        "{\"Card\":{\"num\":\"1\",\"bank\":\"B\"}}",
        "{\"Passport\":{\"fsl\":\"\",\"date\":\"\",\"sex\":\"male\",\"serial\":0,\"num\":0}}",
        "{\"Passport\":{\"fsl\":\"\",\"date\":\"\",\"sex\":\"Male\",\"serial\":0,\"num\":4294967296}}",
        "{\"Password\":{\"password\":\"x\"}",
        "{\"Password\":{\"password\":\"x\"}} trailing",
    ];
    for text in corrupt {
        assert!(matches!(deserialize(text), Err(VaultError::CorruptRecord)), "{}", text);
    }
}

#[test]
fn largest_numbers_are_read() {
    let text = r#"{"Passport":{"fsl":"","date":"","sex":"Male","serial":65535,"num":4294967295}}"#;
    match deserialize(text).unwrap() {
        DataType::Passport { serial, num, sex, .. } => {
            assert_eq!(serial, 65535);
            assert_eq!(num, 4294967295);
            assert_eq!(sex, Sex::Male);
        }
        other => panic!("unexpected record {:?}", other),
    }
}

#[test]
fn record_as_tagged_object() {
    let record = DataType::Card { num: "42".to_string(), cvv: 7, bank: "B".to_string() };
    let written = record_object(&record);
    assert_eq!(written.tag, "Card");
    let names: Vec<&str> = written.fields.iter().map(|f| f.name.as_str()).collect();
    assert_eq!(names, vec!["num", "cvv", "bank"]);
    assert!(matches!(&written.fields[0].value, FieldValue::Text(s) if s == "42"));
    assert!(matches!(&written.fields[1].value, FieldValue::Number(7)));
    assert!(matches!(&written.fields[2].value, FieldValue::Text(s) if s == "B"));
    let back = object_record(&written).unwrap();
    assert_eq!(format!("{:?}", back), format!("{:?}", record));
}

#[test]
fn tagged_object_as_record() {
    let token = object("Token", vec![text("from", "GitHub"), text("token", "t")]);
    match object_record(&token).unwrap() {
        DataType::Token { token, from } => {
            assert_eq!(token, "t");
            assert_eq!(from, "GitHub");
        }
        other => panic!("unexpected record {:?}", other),
    }
    let first_wins = object("Document", vec![text("text", "one"), text("text", "two")]);
    match object_record(&first_wins).unwrap() {
        DataType::Document { text } => assert_eq!(text, "one"),
        other => panic!("unexpected record {:?}", other),
    }
    assert!(object_record(&object("Token", vec![text("from", "GitHub")])).is_none());
    assert!(object_record(&object("token", vec![text("from", "f"), text("token", "t")])).is_none());
    assert!(object_record(&object("Card", vec![text("num", "1"), number("cvv", 65536), text("bank", "")])).is_none());
    let other = JsonField { name: "text".to_string(), value: FieldValue::Other };
    assert!(object_record(&object("Document", vec![other])).is_none());
}

#[test]
fn exactly_one_object_makes_a_record() {
    assert!(matches!(objects_record(&vec![]), Err(VaultError::CorruptRecord)));
    let one = vec![object("Document", vec![text("text", "t")])];
    assert!(objects_record(&one).is_ok());
    let two = vec![
        object("Document", vec![text("text", "t")]),
        object("Password", vec![text("password", "p")]),
    ];
    assert!(matches!(objects_record(&two), Err(VaultError::CorruptRecord)));
}
