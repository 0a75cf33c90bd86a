//! The record codec: a record is written as one tagged object, the tag being
//! the name of its kind, and read back from one. The tag inside the text is
//! what decides the kind of the record read.
use crate::error::VaultError;
use crate::json::{
    fields_view, json_objects, json_text, objects_view, read_json, write_json, FieldValue,
    FieldView, JsonField, JsonObject, ObjectView, ValueView,
};
use crate::models::{DataType, RecordKind, RecordView, Sex};
use crate::text::same_text;
use vstd::prelude::*;

verus! {

/// The tag that a record of this kind carries inside its text.
pub open spec fn variant_tag(kind: RecordKind) -> Seq<char> {
    match kind {
        RecordKind::Password => "Password"@,
        RecordKind::Card => "Card"@,
        RecordKind::Passport => "Passport"@,
        RecordKind::Document => "Document"@,
        RecordKind::WifiConfig => "WifiConfig"@,
        RecordKind::Token => "Token"@,
    }
}

/// The kind that a tag inside a text names, if it names one.
pub open spec fn kind_of_variant(tag: Seq<char>) -> Option<RecordKind> {
    if tag == "Password"@ {
        Some(RecordKind::Password)
    } else if tag == "Card"@ {
        Some(RecordKind::Card)
    } else if tag == "Passport"@ {
        Some(RecordKind::Passport)
    } else if tag == "Document"@ {
        Some(RecordKind::Document)
    } else if tag == "WifiConfig"@ {
        Some(RecordKind::WifiConfig)
    } else if tag == "Token"@ {
        Some(RecordKind::Token)
    } else {
        None
    }
}

/// The word written for a passport's sex.
pub open spec fn sex_tag(sex: Sex) -> Seq<char> {
    match sex {
        Sex::Male => "Male"@,
        Sex::Female => "Female"@,
        Sex::NotDeclaredYet => "NotDeclaredYet"@,
    }
}

/// The sex that a word names, if it names one.
pub open spec fn sex_of_tag(tag: Seq<char>) -> Option<Sex> {
    if tag == "Male"@ {
        Some(Sex::Male)
    } else if tag == "Female"@ {
        Some(Sex::Female)
    } else if tag == "NotDeclaredYet"@ {
        Some(Sex::NotDeclaredYet)
    } else {
        None
    }
}

/// A field that holds a text.
pub open spec fn text_field(name: Seq<char>, value: Seq<char>) -> FieldView {
    FieldView { name, value: ValueView::Text(value) }
}

/// A field that holds a number.
pub open spec fn number_field(name: Seq<char>, value: u64) -> FieldView {
    FieldView { name, value: ValueView::Number(value) }
}

/// The fields written for a record, in the order of the record's declaration.
pub open spec fn encode_fields(record: RecordView) -> Seq<FieldView> {
    match record {
        RecordView::Password { password } => seq![text_field("password"@, password)],
        RecordView::Card { num, cvv, bank } => seq![
            text_field("num"@, num),
            number_field("cvv"@, cvv as u64),
            text_field("bank"@, bank),
        ],
        RecordView::Passport { fsl, date, sex, serial, num } => seq![
            text_field("fsl"@, fsl),
            text_field("date"@, date),
            text_field("sex"@, sex_tag(sex)),
            number_field("serial"@, serial as u64),
            number_field("num"@, num as u64),
        ],
        RecordView::Document { text } => seq![text_field("text"@, text)],
        RecordView::WifiConfig { name, password } => seq![
            text_field("name"@, name),
            text_field("password"@, password),
        ],
        RecordView::Token { token, from } => seq![
            text_field("token"@, token),
            text_field("from"@, from),
        ],
    }
}

/// The tagged object written for a record.
pub open spec fn encode_object(record: RecordView) -> ObjectView {
    ObjectView { tag: variant_tag(record.kind()), fields: encode_fields(record) }
}

/// The value of the first field called `name` at or after position `from`.
pub open spec fn find_from(fields: Seq<FieldView>, name: Seq<char>, from: int) -> Option<ValueView>
    decreases fields.len() - from,
{
    if from < 0 || from >= fields.len() {
        None
    } else if fields[from].name == name {
        Some(fields[from].value)
    } else {
        find_from(fields, name, from + 1)
    }
}

/// The value of the first field called `name`.
pub open spec fn find_field(fields: Seq<FieldView>, name: Seq<char>) -> Option<ValueView> {
    find_from(fields, name, 0)
}

/// The text of the field called `name`; `None` where the field is missing or
/// holds no text.
pub open spec fn text_of(fields: Seq<FieldView>, name: Seq<char>) -> Option<Seq<char>> {
    match find_field(fields, name) {
        Some(ValueView::Text(s)) => Some(s),
        _ => None,
    }
}

/// The number of the field called `name`; `None` where the field is missing,
/// holds no number, or holds one above `max`.
pub open spec fn number_of(fields: Seq<FieldView>, name: Seq<char>, max: u64) -> Option<u64> {
    match find_field(fields, name) {
        Some(ValueView::Number(n)) => if n <= max {
            Some(n)
        } else {
            None
        },
        _ => None,
    }
}

/// The sex of the field called `name`.
pub open spec fn sex_of(fields: Seq<FieldView>, name: Seq<char>) -> Option<Sex> {
    match text_of(fields, name) {
        Some(word) => sex_of_tag(word),
        None => None,
    }
}

/// The record that a tagged object stands for. The tag must name a kind, and
/// every field of that kind must be there with a value of its type; fields
/// that the kind does not have are passed over.
pub open spec fn decode_object(object: ObjectView) -> Option<RecordView> {
    let f = object.fields;
    match kind_of_variant(object.tag) {
        None => None,
        Some(RecordKind::Password) => match text_of(f, "password"@) {
            Some(password) => Some(RecordView::Password { password }),
            None => None,
        },
        Some(RecordKind::Card) => match (
            text_of(f, "num"@),
            number_of(f, "cvv"@, 0xffff),
            text_of(f, "bank"@),
        ) {
            (Some(num), Some(cvv), Some(bank)) => Some(
                RecordView::Card { num, cvv: cvv as u16, bank },
            ),
            _ => None,
        },
        Some(RecordKind::Passport) => match (
            text_of(f, "fsl"@),
            text_of(f, "date"@),
            sex_of(f, "sex"@),
            number_of(f, "serial"@, 0xffff),
            number_of(f, "num"@, 0xffff_ffff),
        ) {
            (Some(fsl), Some(date), Some(sex), Some(serial), Some(num)) => Some(
                RecordView::Passport { fsl, date, sex, serial: serial as u16, num: num as u32 },
            ),
            _ => None,
        },
        Some(RecordKind::Document) => match text_of(f, "text"@) {
            Some(text) => Some(RecordView::Document { text }),
            None => None,
        },
        Some(RecordKind::WifiConfig) => match (text_of(f, "name"@), text_of(f, "password"@)) {
            (Some(name), Some(password)) => Some(RecordView::WifiConfig { name, password }),
            _ => None,
        },
        Some(RecordKind::Token) => match (text_of(f, "token"@), text_of(f, "from"@)) {
            (Some(token), Some(from)) => Some(RecordView::Token { token, from }),
            _ => None,
        },
    }
}

/// The record that a list of tagged objects stands for: the list must hold
/// exactly one object.
pub open spec fn decode_objects(objects: Seq<ObjectView>) -> Option<RecordView> {
    if objects.len() == 1 {
        decode_object(objects[0])
    } else {
        None
    }
}

/// The text written for a record.
pub open spec fn serialized(record: RecordView) -> Seq<char> {
    json_text(encode_object(record))
}

/// The record read from a text, or `CorruptRecord`.
pub open spec fn deserialized(text: Seq<char>) -> Result<RecordView, VaultError> {
    match json_objects(text) {
        Some(objects) => match decode_objects(objects) {
            Some(record) => Ok(record),
            None => Err(VaultError::CorruptRecord),
        },
        None => Err(VaultError::CorruptRecord),
    }
}

fn variant_name(kind: RecordKind) -> (r: String)
    ensures
        r@ == variant_tag(kind),
{
    match kind {
        RecordKind::Password => "Password".to_string(),
        RecordKind::Card => "Card".to_string(),
        RecordKind::Passport => "Passport".to_string(),
        RecordKind::Document => "Document".to_string(),
        RecordKind::WifiConfig => "WifiConfig".to_string(),
        RecordKind::Token => "Token".to_string(),
    }
}

fn variant_kind(tag: &str) -> (r: Option<RecordKind>)
    ensures
        r == kind_of_variant(tag@),
{
    if same_text(tag, "Password") {
        Some(RecordKind::Password)
    } else if same_text(tag, "Card") {
        Some(RecordKind::Card)
    } else if same_text(tag, "Passport") {
        Some(RecordKind::Passport)
    } else if same_text(tag, "Document") {
        Some(RecordKind::Document)
    } else if same_text(tag, "WifiConfig") {
        Some(RecordKind::WifiConfig)
    } else if same_text(tag, "Token") {
        Some(RecordKind::Token)
    } else {
        None
    }
}

fn sex_name(sex: Sex) -> (r: String)
    ensures
        r@ == sex_tag(sex),
{
    match sex {
        Sex::Male => "Male".to_string(),
        Sex::Female => "Female".to_string(),
        Sex::NotDeclaredYet => "NotDeclaredYet".to_string(),
    }
}

fn sex_from_name(tag: &str) -> (r: Option<Sex>)
    ensures
        r == sex_of_tag(tag@),
{
    if same_text(tag, "Male") {
        Some(Sex::Male)
    } else if same_text(tag, "Female") {
        Some(Sex::Female)
    } else if same_text(tag, "NotDeclaredYet") {
        Some(Sex::NotDeclaredYet)
    } else {
        None
    }
}

fn text_entry(name: &str, value: &String) -> (r: JsonField)
    ensures
        r@ == text_field(name@, value@),
{
    JsonField { name: name.to_string(), value: FieldValue::Text(value.clone()) }
}

fn number_entry(name: &str, value: u64) -> (r: JsonField)
    ensures
        r@ == number_field(name@, value),
{
    JsonField { name: name.to_string(), value: FieldValue::Number(value) }
}

/// Writes a record as a tagged object.
pub fn record_object(record: &DataType) -> (r: JsonObject)
    ensures
        r@ == encode_object(record@),
{
    let mut fields: Vec<JsonField> = Vec::new();
    match record {
        DataType::Password { password } => {
            fields.push(text_entry("password", password));
        },
        DataType::Card { num, cvv, bank } => {
            fields.push(text_entry("num", num));
            fields.push(number_entry("cvv", *cvv as u64));
            fields.push(text_entry("bank", bank));
        },
        DataType::Passport { fsl, date, sex, serial, num } => {
            let word = sex_name(*sex);
            fields.push(text_entry("fsl", fsl));
            fields.push(text_entry("date", date));
            fields.push(text_entry("sex", &word));
            fields.push(number_entry("serial", *serial as u64));
            fields.push(number_entry("num", *num as u64));
        },
        DataType::Document { text } => {
            fields.push(text_entry("text", text));
        },
        DataType::WifiConfig { name, password } => {
            fields.push(text_entry("name", name));
            fields.push(text_entry("password", password));
        },
        DataType::Token { token, from } => {
            fields.push(text_entry("token", token));
            fields.push(text_entry("from", from));
        },
    }
    let r = JsonObject { tag: variant_name(record.kind()), fields };
    assert(r@.fields =~= encode_fields(record@));
    r
}

fn lookup<'a>(fields: &'a Vec<JsonField>, name: &str) -> (r: Option<&'a FieldValue>)
    ensures
        match r {
            Some(value) => find_field(fields_view(fields@), name@) == Some(value@),
            None => find_field(fields_view(fields@), name@) is None,
        },
{
    let mut i: usize = 0;
    while i < fields.len()
        invariant
            i <= fields.len(),
            find_field(fields_view(fields@), name@) == find_from(
                fields_view(fields@),
                name@,
                i as int,
            ),
        decreases fields.len() - i,
    {
        if same_text(fields[i].name.as_str(), name) {
            return Some(&fields[i].value);
        }
        i += 1;
    }
    None
}

fn lookup_text(fields: &Vec<JsonField>, name: &str) -> (r: Option<String>)
    ensures
        match r {
            Some(s) => text_of(fields_view(fields@), name@) == Some(s@),
            None => text_of(fields_view(fields@), name@) is None,
        },
{
    match lookup(fields, name) {
        Some(FieldValue::Text(s)) => Some(s.clone()),
        _ => None,
    }
}

fn lookup_number(fields: &Vec<JsonField>, name: &str, max: u64) -> (r: Option<u64>)
    ensures
        r == number_of(fields_view(fields@), name@, max),
{
    match lookup(fields, name) {
        Some(FieldValue::Number(n)) => if *n <= max {
            Some(*n)
        } else {
            None
        },
        _ => None,
    }
}

fn lookup_sex(fields: &Vec<JsonField>, name: &str) -> (r: Option<Sex>)
    ensures
        r == sex_of(fields_view(fields@), name@),
{
    match lookup_text(fields, name) {
        Some(word) => sex_from_name(word.as_str()),
        None => None,
    }
}

/// Reads a record from a tagged object.
pub fn object_record(object: &JsonObject) -> (r: Option<DataType>)
    ensures
        match r {
            Some(record) => decode_object(object@) == Some(record@),
            None => decode_object(object@) is None,
        },
{
    let f = &object.fields;
    match variant_kind(object.tag.as_str()) {
        None => None,
        Some(RecordKind::Password) => match lookup_text(f, "password") {
            Some(password) => Some(DataType::Password { password }),
            None => None,
        },
        Some(RecordKind::Card) => {
            let num = lookup_text(f, "num");
            let cvv = lookup_number(f, "cvv", 0xffff);
            let bank = lookup_text(f, "bank");
            match (num, cvv, bank) {
                (Some(num), Some(cvv), Some(bank)) => Some(
                    DataType::Card { num, cvv: cvv as u16, bank },
                ),
                _ => None,
            }
        },
        Some(RecordKind::Passport) => {
            let fsl = lookup_text(f, "fsl");
            let date = lookup_text(f, "date");
            let sex = lookup_sex(f, "sex");
            let serial = lookup_number(f, "serial", 0xffff);
            let num = lookup_number(f, "num", 0xffff_ffff);
            match (fsl, date, sex, serial, num) {
                (Some(fsl), Some(date), Some(sex), Some(serial), Some(num)) => Some(
                    DataType::Passport { fsl, date, sex, serial: serial as u16, num: num as u32 },
                ),
                _ => None,
            }
        },
        Some(RecordKind::Document) => match lookup_text(f, "text") {
            Some(text) => Some(DataType::Document { text }),
            None => None,
        },
        Some(RecordKind::WifiConfig) => {
            let name = lookup_text(f, "name");
            let password = lookup_text(f, "password");
            match (name, password) {
                (Some(name), Some(password)) => Some(DataType::WifiConfig { name, password }),
                _ => None,
            }
        },
        Some(RecordKind::Token) => {
            let token = lookup_text(f, "token");
            let from = lookup_text(f, "from");
            match (token, from) {
                (Some(token), Some(from)) => Some(DataType::Token { token, from }),
                _ => None,
            }
        },
    }
}

/// Reads the one record that a list of tagged objects holds.
pub fn objects_record(objects: &Vec<JsonObject>) -> (r: Result<DataType, VaultError>)
    ensures
        match r {
            Ok(record) => decode_objects(objects_view(objects@)) == Some(record@),
            Err(e) => e == VaultError::CorruptRecord && decode_objects(objects_view(objects@))
                is None,
        },
{
    if objects.len() != 1 {
        return Err(VaultError::CorruptRecord);
    }
    match object_record(&objects[0]) {
        Some(record) => Ok(record),
        None => Err(VaultError::CorruptRecord),
    }
}

/// Writes a record as text. The text reads back as the same record.
pub fn serialize(record: &DataType) -> (r: String)
    ensures
        r@ == serialized(record@),
        deserialized(r@) == Ok::<RecordView, VaultError>(record@),
{
    let object = record_object(record);
    proof {
        lemma_encoded_names_distinct(record@);
        lemma_object_round_trip(record@);
    }
    match write_json(&object) {
        Some(text) => text,
        // Never taken: a text is always written.
        None => String::new(),
    }
}

/// Reads a record from text. Any text that is not one tagged object of a
/// known kind with that kind's fields is `CorruptRecord`.
pub fn deserialize(text: &str) -> (r: Result<DataType, VaultError>)
    ensures
        match r {
            Ok(record) => deserialized(text@) == Ok::<RecordView, VaultError>(record@),
            Err(e) => deserialized(text@) == Err::<RecordView, VaultError>(e),
        },
{
    match read_json(text) {
        Some(objects) => objects_record(&objects),
        None => Err(VaultError::CorruptRecord),
    }
}

/// No two fields written for a record share a name.
pub proof fn lemma_encoded_names_distinct(record: RecordView)
    ensures
        crate::json::distinct_names(encode_fields(record)),
{
    reveal_field_names();
}

/// A record written as a tagged object reads back as itself, for every record
/// of every kind.
pub proof fn lemma_object_round_trip(record: RecordView)
    ensures
        decode_object(encode_object(record)) == Some(record),
{
    reveal_field_names();
    reveal_variant_tags();
    reveal_with_fuel(find_from, 6);
    let f = encode_fields(record);
    match record {
        RecordView::Password { password } => {
            assert(text_of(f, "password"@) == Some(password));
        },
        RecordView::Card { num, cvv, bank } => {
            assert(text_of(f, "num"@) == Some(num));
            assert(number_of(f, "cvv"@, 0xffff) == Some(cvv as u64));
            assert(text_of(f, "bank"@) == Some(bank));
        },
        RecordView::Passport { fsl, date, sex, serial, num } => {
            assert(text_of(f, "fsl"@) == Some(fsl));
            assert(text_of(f, "date"@) == Some(date));
            assert(text_of(f, "sex"@) == Some(sex_tag(sex)));
            assert(sex_of_tag(sex_tag(sex)) == Some(sex));
            assert(number_of(f, "serial"@, 0xffff) == Some(serial as u64));
            assert(number_of(f, "num"@, 0xffff_ffff) == Some(num as u64));
        },
        RecordView::Document { text } => {
            assert(text_of(f, "text"@) == Some(text));
        },
        RecordView::WifiConfig { name, password } => {
            assert(text_of(f, "name"@) == Some(name));
            assert(text_of(f, "password"@) == Some(password));
        },
        RecordView::Token { token, from } => {
            assert(text_of(f, "token"@) == Some(token));
            assert(text_of(f, "from"@) == Some(from));
        },
    }
}

/// The tag of a kind names that kind and no other.
pub proof fn lemma_variant_tag_round_trip(kind: RecordKind)
    ensures
        kind_of_variant(variant_tag(kind)) == Some(kind),
{
    reveal_variant_tags();
}

proof fn reveal_variant_tags()
    ensures
        "Password"@ == seq!['P', 'a', 's', 's', 'w', 'o', 'r', 'd'],
        "Card"@ == seq!['C', 'a', 'r', 'd'],
        "Passport"@ == seq!['P', 'a', 's', 's', 'p', 'o', 'r', 't'],
        "Document"@ == seq!['D', 'o', 'c', 'u', 'm', 'e', 'n', 't'],
        "WifiConfig"@ == seq!['W', 'i', 'f', 'i', 'C', 'o', 'n', 'f', 'i', 'g'],
        "Token"@ == seq!['T', 'o', 'k', 'e', 'n'],
        "Male"@ == seq!['M', 'a', 'l', 'e'],
        "Female"@ == seq!['F', 'e', 'm', 'a', 'l', 'e'],
        "NotDeclaredYet"@.len() == 14,
{
    reveal_strlit("Password");
    reveal_strlit("Card");
    reveal_strlit("Passport");
    reveal_strlit("Document");
    reveal_strlit("WifiConfig");
    reveal_strlit("Token");
    reveal_strlit("Male");
    reveal_strlit("Female");
    reveal_strlit("NotDeclaredYet");
    assert("Password"@ =~= seq!['P', 'a', 's', 's', 'w', 'o', 'r', 'd']);
    assert("Card"@ =~= seq!['C', 'a', 'r', 'd']);
    assert("Passport"@ =~= seq!['P', 'a', 's', 's', 'p', 'o', 'r', 't']);
    assert("Document"@ =~= seq!['D', 'o', 'c', 'u', 'm', 'e', 'n', 't']);
    assert("WifiConfig"@ =~= seq!['W', 'i', 'f', 'i', 'C', 'o', 'n', 'f', 'i', 'g']);
    assert("Token"@ =~= seq!['T', 'o', 'k', 'e', 'n']);
    assert("Male"@ =~= seq!['M', 'a', 'l', 'e']);
    assert("Female"@ =~= seq!['F', 'e', 'm', 'a', 'l', 'e']);
}

proof fn reveal_field_names()
    ensures
        "password"@.len() == 8,
        "num"@ == seq!['n', 'u', 'm'],
        "cvv"@ == seq!['c', 'v', 'v'],
        "bank"@ == seq!['b', 'a', 'n', 'k'],
        "fsl"@ == seq!['f', 's', 'l'],
        "date"@ == seq!['d', 'a', 't', 'e'],
        "sex"@ == seq!['s', 'e', 'x'],
        "serial"@.len() == 6,
        "text"@ == seq!['t', 'e', 'x', 't'],
        "name"@ == seq!['n', 'a', 'm', 'e'],
        "token"@.len() == 5,
        "from"@ == seq!['f', 'r', 'o', 'm'],
{
    reveal_strlit("password");
    reveal_strlit("num");
    reveal_strlit("cvv");
    reveal_strlit("bank");
    reveal_strlit("fsl");
    reveal_strlit("date");
    reveal_strlit("sex");
    reveal_strlit("serial");
    reveal_strlit("text");
    reveal_strlit("name");
    reveal_strlit("token");
    reveal_strlit("from");
    assert("num"@ =~= seq!['n', 'u', 'm']);
    assert("cvv"@ =~= seq!['c', 'v', 'v']);
    assert("bank"@ =~= seq!['b', 'a', 'n', 'k']);
    assert("fsl"@ =~= seq!['f', 's', 'l']);
    assert("date"@ =~= seq!['d', 'a', 't', 'e']);
    assert("sex"@ =~= seq!['s', 'e', 'x']);
    assert("text"@ =~= seq!['t', 'e', 'x', 't']);
    assert("name"@ =~= seq!['n', 'a', 'm', 'e']);
    assert("from"@ =~= seq!['f', 'r', 'o', 'm']);
}

} // verus!
