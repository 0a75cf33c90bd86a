//! The records that the vault keeps, and the rows they are stored in.
use crate::text::{append_decimal, decimal, same_text};
use vstd::prelude::*;

verus! {

/// The sex written in a passport.
#[derive(Debug, Clone, Copy, PartialEq, Eq, Structural)]
pub enum Sex {
    Male,
    Female,
    NotDeclaredYet,
}

impl Sex {
    /// The word shown for this value.
    pub open spec fn label(self) -> Seq<char> {
        match self {
            Sex::Male => "мужской"@,
            Sex::Female => "женский"@,
            Sex::NotDeclaredYet => "не опеределен"@,
        }
    }

    /// The word shown for this value.
    pub fn to_string(&self) -> (r: String)
        ensures
            r@ == self.label(),
    {
        match self {
            Sex::Male => "мужской".to_string(),
            Sex::Female => "женский".to_string(),
            Sex::NotDeclaredYet => "не опеределен".to_string(),
        }
    }
}

impl Default for Sex {
    fn default() -> (r: Self)
        ensures
            r == Sex::NotDeclaredYet,
    {
        Sex::NotDeclaredYet
    }
}

/// The six kinds of record. The set is closed.
#[derive(Debug, Clone, Copy, PartialEq, Eq, Structural)]
pub enum RecordKind {
    Password,
    Card,
    Passport,
    Document,
    WifiConfig,
    Token,
}

/// Number of record kinds, and so of sections in a working set.
pub const KIND_COUNT: usize = 6;

impl RecordKind {
    /// The tag under which rows of this kind are stored.
    pub open spec fn tag(self) -> Seq<char> {
        match self {
            RecordKind::Password => "password"@,
            RecordKind::Card => "card"@,
            RecordKind::Passport => "passport"@,
            RecordKind::Document => "document"@,
            RecordKind::WifiConfig => "wificonfig"@,
            RecordKind::Token => "token"@,
        }
    }

    /// The kind that a stored tag names, if it names one.
    pub open spec fn of_tag(tag: Seq<char>) -> Option<RecordKind> {
        if tag == "password"@ {
            Some(RecordKind::Password)
        } else if tag == "passport"@ {
            Some(RecordKind::Passport)
        } else if tag == "document"@ {
            Some(RecordKind::Document)
        } else if tag == "wificonfig"@ {
            Some(RecordKind::WifiConfig)
        } else if tag == "card"@ {
            Some(RecordKind::Card)
        } else if tag == "token"@ {
            Some(RecordKind::Token)
        } else {
            None
        }
    }

    /// Position of this kind's section in a working set: the kinds in the
    /// alphabetical order of their tags.
    pub open spec fn section(self) -> int {
        match self {
            RecordKind::Card => 0,
            RecordKind::Document => 1,
            RecordKind::Passport => 2,
            RecordKind::Password => 3,
            RecordKind::Token => 4,
            RecordKind::WifiConfig => 5,
        }
    }

    /// The kind whose section stands at `index`.
    pub open spec fn of_section(index: int) -> RecordKind {
        if index == 0 {
            RecordKind::Card
        } else if index == 1 {
            RecordKind::Document
        } else if index == 2 {
            RecordKind::Passport
        } else if index == 3 {
            RecordKind::Password
        } else if index == 4 {
            RecordKind::Token
        } else {
            RecordKind::WifiConfig
        }
    }

    /// The kind at a position of the menu of kinds, from 0: the kinds in the
    /// order in which they are declared.
    pub open spec fn at_menu(position: int) -> RecordKind {
        if position == 0 {
            RecordKind::Password
        } else if position == 1 {
            RecordKind::Card
        } else if position == 2 {
            RecordKind::Passport
        } else if position == 3 {
            RecordKind::Document
        } else if position == 4 {
            RecordKind::WifiConfig
        } else {
            RecordKind::Token
        }
    }

    /// The tag under which rows of this kind are stored.
    pub fn formal_name(&self) -> (r: String)
        ensures
            r@ == self.tag(),
    {
        match self {
            RecordKind::Password => "password".to_string(),
            RecordKind::Card => "card".to_string(),
            RecordKind::Passport => "passport".to_string(),
            RecordKind::Document => "document".to_string(),
            RecordKind::WifiConfig => "wificonfig".to_string(),
            RecordKind::Token => "token".to_string(),
        }
    }

    /// Reads a stored tag. `None` for a text that names no kind.
    pub fn from_formal_name(tag: &str) -> (r: Option<RecordKind>)
        ensures
            r == RecordKind::of_tag(tag@),
    {
        if same_text(tag, "password") {
            Some(RecordKind::Password)
        } else if same_text(tag, "passport") {
            Some(RecordKind::Passport)
        } else if same_text(tag, "document") {
            Some(RecordKind::Document)
        } else if same_text(tag, "wificonfig") {
            Some(RecordKind::WifiConfig)
        } else if same_text(tag, "card") {
            Some(RecordKind::Card)
        } else if same_text(tag, "token") {
            Some(RecordKind::Token)
        } else {
            None
        }
    }

    /// Position of this kind's section in a working set.
    pub fn section_index(&self) -> (r: usize)
        ensures
            r == self.section(),
            r < KIND_COUNT,
    {
        match self {
            RecordKind::Card => 0,
            RecordKind::Document => 1,
            RecordKind::Passport => 2,
            RecordKind::Password => 3,
            RecordKind::Token => 4,
            RecordKind::WifiConfig => 5,
        }
    }

    /// The kind whose section stands at `index`.
    pub fn from_section_index(index: usize) -> (r: Option<RecordKind>)
        ensures
            index < KIND_COUNT ==> r == Some(RecordKind::of_section(index as int)),
            index >= KIND_COUNT ==> r is None,
    {
        if index == 0 {
            Some(RecordKind::Card)
        } else if index == 1 {
            Some(RecordKind::Document)
        } else if index == 2 {
            Some(RecordKind::Passport)
        } else if index == 3 {
            Some(RecordKind::Password)
        } else if index == 4 {
            Some(RecordKind::Token)
        } else if index == 5 {
            Some(RecordKind::WifiConfig)
        } else {
            None
        }
    }

    /// The kind that stands at line `number` of the menu of kinds, counted
    /// from 1. `None` for 0 and for a number past the last kind.
    pub fn from_menu_number(number: usize) -> (r: Option<RecordKind>)
        ensures
            r == (if 1 <= number <= KIND_COUNT {
                Some(RecordKind::at_menu(number - 1))
            } else {
                None
            }),
    {
        if number == 1 {
            Some(RecordKind::Password)
        } else if number == 2 {
            Some(RecordKind::Card)
        } else if number == 3 {
            Some(RecordKind::Passport)
        } else if number == 4 {
            Some(RecordKind::Document)
        } else if number == 5 {
            Some(RecordKind::WifiConfig)
        } else if number == 6 {
            Some(RecordKind::Token)
        } else {
            None
        }
    }
}

/// What a record holds, as mathematical values.
#[allow(inconsistent_fields)]
pub enum RecordView {
    Password { password: Seq<char> },
    Card { num: Seq<char>, cvv: u16, bank: Seq<char> },
    Passport { fsl: Seq<char>, date: Seq<char>, sex: Sex, serial: u16, num: u32 },
    Document { text: Seq<char> },
    WifiConfig { name: Seq<char>, password: Seq<char> },
    Token { token: Seq<char>, from: Seq<char> },
}

impl RecordView {
    /// The kind of the record.
    pub open spec fn kind(self) -> RecordKind {
        match self {
            RecordView::Password { .. } => RecordKind::Password,
            RecordView::Card { .. } => RecordKind::Card,
            RecordView::Passport { .. } => RecordKind::Passport,
            RecordView::Document { .. } => RecordKind::Document,
            RecordView::WifiConfig { .. } => RecordKind::WifiConfig,
            RecordView::Token { .. } => RecordKind::Token,
        }
    }

    /// The record of kind `kind` with every text empty and every number zero.
    pub open spec fn blank(kind: RecordKind) -> RecordView {
        match kind {
            RecordKind::Password => RecordView::Password { password: Seq::empty() },
            RecordKind::Card => RecordView::Card { num: Seq::empty(), cvv: 0, bank: Seq::empty() },
            RecordKind::Passport => RecordView::Passport {
                fsl: Seq::empty(),
                date: Seq::empty(),
                sex: Sex::NotDeclaredYet,
                serial: 0,
                num: 0,
            },
            RecordKind::Document => RecordView::Document { text: Seq::empty() },
            RecordKind::WifiConfig => RecordView::WifiConfig {
                name: Seq::empty(),
                password: Seq::empty(),
            },
            RecordKind::Token => RecordView::Token { token: Seq::empty(), from: Seq::empty() },
        }
    }

    /// The lines shown for the record, joined by line breaks.
    pub open spec fn display(self) -> Seq<char> {
        match self {
            RecordView::Password { password } => "Пароль: "@ + password,
            RecordView::Card { num, cvv, bank } => "Номер: "@ + num + ",\n CVV: "@ + decimal(
                cvv as nat,
            ) + ",\n, Банк: "@ + bank,
            RecordView::Document { text } => "Содержимое : "@ + text,
            RecordView::Token { token, from } => "От: "@ + from + ",\n Токен: "@ + token,
            RecordView::WifiConfig { name, password } => "Название сети: "@ + name
                + ",\n Пароль: "@ + password,
            RecordView::Passport { fsl, date, sex, serial, num } => "ФИО: "@ + fsl
                + ",\n Дата рождения: "@ + date + ",\n Пол: "@ + sex.label() + ",\n Серия: "@
                + decimal(serial as nat) + ",\n Номер: "@ + decimal(num as nat),
        }
    }

    /// The title of the record's kind, with its fields in brackets.
    pub open spec fn title(self) -> Seq<char> {
        match self {
            RecordView::Card { .. } => "Банковская карта (номер, CVV, банк)"@,
            RecordView::Token { .. } => "Токен (токен, от чего)"@,
            RecordView::Document { .. } => "Документ (текст)"@,
            RecordView::Passport { .. } => "Пасспорт (ФИО, дата рождения, пол, серия, номер)"@,
            RecordView::Password { .. } => "Пароль (пароль)"@,
            RecordView::WifiConfig { .. } => "Wifi сеть (ip/название, пароль)"@,
        }
    }
}

/// One secret record: exactly one of the six kinds, with the fields of that kind.
#[derive(Debug)]
#[allow(inconsistent_fields)]
pub enum DataType {
    Password { password: String },
    Card { num: String, cvv: u16, bank: String },
    Passport { fsl: String, date: String, sex: Sex, serial: u16, num: u32 },
    Document { text: String },
    WifiConfig { name: String, password: String },
    Token { token: String, from: String },
}

impl View for DataType {
    type V = RecordView;

    open spec fn view(&self) -> RecordView {
        match self {
            DataType::Password { password } => RecordView::Password { password: password@ },
            DataType::Card { num, cvv, bank } => RecordView::Card {
                num: num@,
                cvv: *cvv,
                bank: bank@,
            },
            DataType::Passport { fsl, date, sex, serial, num } => RecordView::Passport {
                fsl: fsl@,
                date: date@,
                sex: *sex,
                serial: *serial,
                num: *num,
            },
            DataType::Document { text } => RecordView::Document { text: text@ },
            DataType::WifiConfig { name, password } => RecordView::WifiConfig {
                name: name@,
                password: password@,
            },
            DataType::Token { token, from } => RecordView::Token { token: token@, from: from@ },
        }
    }
}

impl Clone for DataType {
    fn clone(&self) -> (r: Self)
        ensures
            r@ == self@,
    {
        match self {
            DataType::Password { password } => DataType::Password { password: password.clone() },
            DataType::Card { num, cvv, bank } => DataType::Card {
                num: num.clone(),
                cvv: *cvv,
                bank: bank.clone(),
            },
            DataType::Passport { fsl, date, sex, serial, num } => DataType::Passport {
                fsl: fsl.clone(),
                date: date.clone(),
                sex: *sex,
                serial: *serial,
                num: *num,
            },
            DataType::Document { text } => DataType::Document { text: text.clone() },
            DataType::WifiConfig { name, password } => DataType::WifiConfig {
                name: name.clone(),
                password: password.clone(),
            },
            DataType::Token { token, from } => DataType::Token {
                token: token.clone(),
                from: from.clone(),
            },
        }
    }
}

impl DataType {
    /// The kind of the record.
    pub fn kind(&self) -> (r: RecordKind)
        ensures
            r == self@.kind(),
    {
        match self {
            DataType::Password { .. } => RecordKind::Password,
            DataType::Card { .. } => RecordKind::Card,
            DataType::Passport { .. } => RecordKind::Passport,
            DataType::Document { .. } => RecordKind::Document,
            DataType::WifiConfig { .. } => RecordKind::WifiConfig,
            DataType::Token { .. } => RecordKind::Token,
        }
    }

    /// The record of kind `kind` with every text empty and every number zero.
    pub fn blank(kind: RecordKind) -> (r: DataType)
        ensures
            r@ == RecordView::blank(kind),
    {
        match kind {
            RecordKind::Password => new_password(),
            RecordKind::Card => new_card(),
            RecordKind::Passport => new_passport(),
            RecordKind::Document => new_doc(),
            RecordKind::WifiConfig => new_wificonfig(),
            RecordKind::Token => new_token(),
        }
    }

    /// The lines shown for the record, joined by line breaks.
    pub fn to_string(&self) -> (r: String)
        ensures
            r@ == self@.display(),
    {
        match self {
            DataType::Password { password } => {
                let mut out = "Пароль: ".to_string();
                out.append(password.as_str());
                out
            },
            DataType::Card { num, cvv, bank } => {
                let mut out = "Номер: ".to_string();
                out.append(num.as_str());
                out.append(",\n CVV: ");
                append_decimal(&mut out, *cvv as u32);
                out.append(",\n, Банк: ");
                out.append(bank.as_str());
                out
            },
            DataType::Document { text } => {
                let mut out = "Содержимое : ".to_string();
                out.append(text.as_str());
                out
            },
            DataType::Token { token, from } => {
                let mut out = "От: ".to_string();
                out.append(from.as_str());
                out.append(",\n Токен: ");
                out.append(token.as_str());
                out
            },
            DataType::WifiConfig { name, password } => {
                let mut out = "Название сети: ".to_string();
                out.append(name.as_str());
                out.append(",\n Пароль: ");
                out.append(password.as_str());
                out
            },
            DataType::Passport { fsl, date, sex, serial, num } => {
                let mut out = "ФИО: ".to_string();
                out.append(fsl.as_str());
                out.append(",\n Дата рождения: ");
                out.append(date.as_str());
                out.append(",\n Пол: ");
                let word = sex.to_string();
                out.append(word.as_str());
                out.append(",\n Серия: ");
                append_decimal(&mut out, *serial as u32);
                out.append(",\n Номер: ");
                append_decimal(&mut out, *num);
                out
            },
        }
    }

    /// The title of the record's kind, with its fields in brackets.
    pub fn name(&self) -> (r: String)
        ensures
            r@ == self@.title(),
    {
        match self {
            DataType::Card { .. } => "Банковская карта (номер, CVV, банк)".to_string(),
            DataType::Token { .. } => "Токен (токен, от чего)".to_string(),
            DataType::Document { .. } => "Документ (текст)".to_string(),
            DataType::Passport { .. } => "Пасспорт (ФИО, дата рождения, пол, серия, номер)".to_string(),
            DataType::Password { .. } => "Пароль (пароль)".to_string(),
            DataType::WifiConfig { .. } => "Wifi сеть (ip/название, пароль)".to_string(),
        }
    }

    /// The tag under which rows of this record's kind are stored.
    pub fn formal_name(&self) -> (r: String)
        ensures
            r@ == self@.kind().tag(),
    {
        self.kind().formal_name()
    }
}

/// A card with no number, CVV 0 and no bank.
pub fn new_card() -> (r: DataType)
    ensures
        r@ == RecordView::blank(RecordKind::Card),
{
    DataType::Card { num: String::new(), cvv: 0, bank: String::new() }
}

/// A token with both texts empty.
pub fn new_token() -> (r: DataType)
    ensures
        r@ == RecordView::blank(RecordKind::Token),
{
    DataType::Token { token: String::new(), from: String::new() }
}

/// A document without text.
pub fn new_doc() -> (r: DataType)
    ensures
        r@ == RecordView::blank(RecordKind::Document),
{
    DataType::Document { text: String::new() }
}

/// A passport with empty texts, no sex declared, and zero for both numbers.
pub fn new_passport() -> (r: DataType)
    ensures
        r@ == RecordView::blank(RecordKind::Passport),
{
    DataType::Passport {
        fsl: String::new(),
        date: String::new(),
        sex: Sex::NotDeclaredYet,
        serial: 0,
        num: 0,
    }
}

/// A Wi-Fi network with empty name and password.
pub fn new_wificonfig() -> (r: DataType)
    ensures
        r@ == RecordView::blank(RecordKind::WifiConfig),
{
    DataType::WifiConfig { name: String::new(), password: String::new() }
}

/// A password record with an empty password.
pub fn new_password() -> (r: DataType)
    ensures
        r@ == RecordView::blank(RecordKind::Password),
{
    DataType::Password { password: String::new() }
}

/// One stored row: the three ciphertexts of a record, the nonce they share,
/// and in clear the row's id and the kind of the record.
#[derive(Debug)]
pub struct UserData {
    pub id: i64,
    pub data: Vec<u8>,
    /// The kind of the row, held as the blank record of that kind.
    pub data_type: DataType,
    pub nonce: [u8; 24],
    pub notice: Vec<u8>,
    pub name: Vec<u8>,
}

/// A stored row, as mathematical values.
pub struct RowView {
    pub id: i64,
    pub kind: RecordKind,
    pub data: Seq<u8>,
    pub name: Seq<u8>,
    pub notice: Seq<u8>,
    pub nonce: Seq<u8>,
}

impl View for UserData {
    type V = RowView;

    open spec fn view(&self) -> RowView {
        RowView {
            id: self.id,
            kind: self.data_type@.kind(),
            data: self.data@,
            name: self.name@,
            notice: self.notice@,
            nonce: self.nonce@,
        }
    }
}

impl UserData {
    /// Builds a row from what the store returns. The tag must name a kind:
    /// `try_new` is for a tag that may not.
    pub fn new(
        id: i64,
        data: Vec<u8>,
        data_type: String,
        nonce: [u8; 24],
        notice: Vec<u8>,
        name: Vec<u8>,
    ) -> (r: Self)
        requires
            RecordKind::of_tag(data_type@) is Some,
        ensures
            r@ == (RowView {
                id,
                kind: RecordKind::of_tag(data_type@)->0,
                data: data@,
                name: name@,
                notice: notice@,
                nonce: nonce@,
            }),
            r.data_type@ == RecordView::blank(r@.kind),
    {
        let data_typ = match RecordKind::from_formal_name(data_type.as_str()) {
            Some(kind) => DataType::blank(kind),
            None => new_password(),
        };
        UserData { id, data, data_type: data_typ, nonce, notice, name }
    }

    /// Builds a row from what the store returns; `None` where the tag names
    /// no kind.
    pub fn try_new(
        id: i64,
        data: Vec<u8>,
        data_type: String,
        nonce: [u8; 24],
        notice: Vec<u8>,
        name: Vec<u8>,
    ) -> (r: Option<Self>)
        ensures
            match r {
                Some(row) => RecordKind::of_tag(data_type@) is Some && row@ == (RowView {
                    id,
                    kind: RecordKind::of_tag(data_type@)->0,
                    data: data@,
                    name: name@,
                    notice: notice@,
                    nonce: nonce@,
                }) && row.data_type@ == RecordView::blank(row@.kind),
                None => RecordKind::of_tag(data_type@) is None,
            },
    {
        match RecordKind::from_formal_name(data_type.as_str()) {
            Some(_) => Some(UserData::new(id, data, data_type, nonce, notice, name)),
            None => None,
        }
    }
}

/// A record with the name and the notice that the user gave it, before it is
/// stored.
#[derive(Debug)]
pub struct DataAndMeta {
    pub data: DataType,
    pub name: String,
    pub notice: String,
}

impl DataAndMeta {
    /// Puts a record together with its name and notice.
    pub fn new(data: DataType, name: String, notice: String) -> (r: Self)
        ensures
            r.data == data,
            r.name == name,
            r.notice == notice,
    {
        DataAndMeta { data, name, notice }
    }
}

/// A decrypted record as the session holds it.
#[derive(Debug)]
pub struct ShowableData {
    pub id: i64,
    pub name: String,
    pub notice: String,
    pub data: DataType,
}

/// A decrypted record, as mathematical values.
pub struct ShowableView {
    pub id: i64,
    pub name: Seq<char>,
    pub notice: Seq<char>,
    pub data: RecordView,
}

impl View for ShowableData {
    type V = ShowableView;

    open spec fn view(&self) -> ShowableView {
        ShowableView { id: self.id, name: self.name@, notice: self.notice@, data: self.data@ }
    }
}

impl Clone for ShowableData {
    fn clone(&self) -> (r: Self)
        ensures
            r@ == self@,
    {
        ShowableData {
            id: self.id,
            name: self.name.clone(),
            notice: self.notice.clone(),
            data: self.data.clone(),
        }
    }
}

/// What the user typed for a new record, before it is checked.
#[derive(Debug)]
pub struct DataFromUser {
    pub name: Option<String>,
    pub notice: Option<String>,
    pub data_type: DataType,
    pub data: String,
}

impl DataFromUser {
    /// Puts the typed values together.
    pub fn new(name: Option<String>, notice: Option<String>, data_type: DataType, data: String) -> (r:
        Self)
        ensures
            r.name == name,
            r.notice == notice,
            r.data_type == data_type,
            r.data == data,
    {
        DataFromUser { name, notice, data_type, data }
    }
}

/// What the user chose to do at the start of a session.
#[derive(Debug, Clone, Copy, PartialEq, Eq, Structural)]
pub enum AccountManipulation {
    Regist,
    Auth,
}

/// Returns the replacement where there is one, and the current value otherwise.
pub fn update_or_save<T>(first: Option<T>, second: T) -> (r: T)
    ensures
        r == (match first {
            Some(value) => value,
            None => second,
        }),
{
    match first {
        Some(value) => value,
        None => second,
    }
}

/// The section at a position is the section of the kind that stands there.
pub proof fn lemma_section_round_trip(part: int)
    requires
        0 <= part < KIND_COUNT,
    ensures
        RecordKind::of_section(part).section() == part,
{
}

/// A stored tag is read back as the kind that wrote it.
pub proof fn lemma_tag_round_trip(kind: RecordKind)
    ensures
        RecordKind::of_tag(kind.tag()) == Some(kind),
        RecordKind::of_section(kind.section()) == kind,
        0 <= kind.section() < KIND_COUNT,
{
    reveal_strlit("password");
    reveal_strlit("passport");
    reveal_strlit("document");
    reveal_strlit("wificonfig");
    reveal_strlit("card");
    reveal_strlit("token");
    assert("password"@.len() == 8 && "password"@[0] == 'p' && "password"@[4] == 'w');
    assert("passport"@.len() == 8 && "passport"@[0] == 'p' && "passport"@[4] == 'p');
    assert("document"@.len() == 8 && "document"@[0] == 'd');
    assert("wificonfig"@.len() == 10);
    assert("card"@.len() == 4);
    assert("token"@.len() == 5);
}

} // verus!
