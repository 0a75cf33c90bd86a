//! The rules for what the user types: which lines are accepted for a login, a
//! card number, a passport, a choice from a menu, and how an edit changes a
//! record. Every function takes the line as it was typed.
use crate::models::{
    update_or_save, AccountManipulation, DataType, RecordKind, RecordView, Sex, ShowableData,
};
use crate::text::{
    all_digits, append_repeated, contains_char, has_char, is_all_digits, is_digit, parse_decimal,
    parsed_number, repeated, same_ignoring_ascii_case, same_text, same_text_ignoring_ascii_case,
    trim, trim_end, trimmed, trimmed_end,
};
use vstd::prelude::*;
use vstd::utf8::encode_utf8;

verus! {

/// Why a typed line is refused.
#[derive(Debug, Clone, Copy, PartialEq, Eq, Structural)]
pub enum InputError {
    /// Nothing was typed where something is needed.
    Empty,
    /// The login has three bytes or fewer.
    TooShort,
    /// The login holds a space.
    HasSpace,
    /// The line has not the number of bytes that the field needs.
    WrongLength,
    /// The line holds something other than digits.
    NotDigits,
    /// The line is no number, or the number is too large for the field.
    NotANumber,
    /// The number has not the number of digits that the field needs.
    WrongDigitCount,
    /// The line is no date of the form DD.MM.YYYY.
    BadDate,
    /// The line names no sex.
    BadSex,
    /// The two passwords typed differ.
    PasswordMismatch,
}

/// Length of a text in bytes of UTF-8.
pub open spec fn byte_len(s: Seq<char>) -> nat {
    encode_utf8(s).len()
}

fn bytes_in(s: &str) -> (r: usize)
    ensures
        r == byte_len(s@),
{
    s.as_bytes().len()
}

/// What a line typed for a login gives.
pub open spec fn login_of(line: Seq<char>) -> Result<Seq<char>, InputError> {
    let t = trimmed(line);
    if t.len() == 0 {
        Err(InputError::Empty)
    } else if byte_len(t) <= 3 {
        Err(InputError::TooShort)
    } else if has_char(t, ' ') {
        Err(InputError::HasSpace)
    } else {
        Ok(t)
    }
}

/// Accepts a login: not empty, longer than three bytes, without a space.
pub fn check_login(line: &str) -> (r: Result<String, InputError>)
    ensures
        match r {
            Ok(login) => login_of(line@) == Ok::<Seq<char>, InputError>(login@),
            Err(e) => login_of(line@) == Err::<Seq<char>, InputError>(e),
        },
{
    let t = trim(line);
    if t.as_str().unicode_len() == 0 {
        Err(InputError::Empty)
    } else if bytes_in(t.as_str()) <= 3 {
        Err(InputError::TooShort)
    } else if contains_char(t.as_str(), ' ') {
        Err(InputError::HasSpace)
    } else {
        Ok(t)
    }
}

/// What a line typed at a login prompt gives: the line without the white
/// space around it, which must leave something.
pub open spec fn non_empty_of(line: Seq<char>) -> Result<Seq<char>, InputError> {
    let t = trimmed(line);
    if t.len() == 0 {
        Err(InputError::Empty)
    } else {
        Ok(t)
    }
}

/// Accepts a line that holds more than white space.
pub fn check_non_empty(line: &str) -> (r: Result<String, InputError>)
    ensures
        match r {
            Ok(text) => non_empty_of(line@) == Ok::<Seq<char>, InputError>(text@),
            Err(e) => non_empty_of(line@) == Err::<Seq<char>, InputError>(e),
        },
{
    let t = trim(line);
    if t.as_str().unicode_len() == 0 {
        Err(InputError::Empty)
    } else {
        Ok(t)
    }
}

/// What two lines typed for a new password give: the password, where both
/// hold the same text between the white space around them.
pub open spec fn confirmed_of(first: Seq<char>, second: Seq<char>) -> Result<
    Seq<char>,
    InputError,
> {
    if trimmed(first) == trimmed(second) {
        Ok(trimmed(first))
    } else {
        Err(InputError::PasswordMismatch)
    }
}

/// Accepts a password typed twice.
pub fn confirm_password(first: &str, second: &str) -> (r: Result<String, InputError>)
    ensures
        match r {
            Ok(password) => confirmed_of(first@, second@) == Ok::<Seq<char>, InputError>(
                password@,
            ),
            Err(e) => confirmed_of(first@, second@) == Err::<Seq<char>, InputError>(e),
        },
{
    let a = trim(first);
    let b = trim(second);
    if a == b {
        Ok(a)
    } else {
        Err(InputError::PasswordMismatch)
    }
}

/// What a password typed twice for a new record gives: the password as it
/// was typed, where both are the same to the character.
pub open spec fn repeated_of(first: Seq<char>, second: Seq<char>) -> Result<
    Seq<char>,
    InputError,
> {
    if first == second {
        Ok(first)
    } else {
        Err(InputError::PasswordMismatch)
    }
}

/// Accepts the password of a new record, typed twice. Nothing is cut from
/// either.
pub fn repeat_password(first: &str, second: &str) -> (r: Result<String, InputError>)
    ensures
        match r {
            Ok(password) => repeated_of(first@, second@) == Ok::<Seq<char>, InputError>(password@),
            Err(e) => repeated_of(first@, second@) == Err::<Seq<char>, InputError>(e),
        },
{
    if same_text(first, second) {
        Ok(first.to_string())
    } else {
        Err(InputError::PasswordMismatch)
    }
}

/// What a line typed at the question "yes or no" gives.
pub open spec fn yes_no_of(line: Seq<char>) -> Option<bool> {
    let t = trimmed(line);
    if t == "д"@ || t == "Д"@ || t == "y"@ || t == "Y"@ {
        Some(true)
    } else if t == "н"@ || t == "Н"@ || t == "n"@ || t == "N"@ {
        Some(false)
    } else {
        None
    }
}

/// Reads the answer to a question "yes or no": `д` or `y` for yes, `н` or `n`
/// for no, in either case.
pub fn parse_yes_no(line: &str) -> (r: Option<bool>)
    ensures
        r == yes_no_of(line@),
{
    let t = trim(line);
    let t = t.as_str();
    if same_text(t, "д") || same_text(t, "Д") || same_text(t, "y") || same_text(t, "Y") {
        Some(true)
    } else if same_text(t, "н") || same_text(t, "Н") || same_text(t, "n") || same_text(t, "N") {
        Some(false)
    } else {
        None
    }
}

/// What a line typed at the first menu gives.
pub open spec fn account_choice_of(line: Seq<char>) -> Option<AccountManipulation> {
    let t = trimmed(line);
    if t == "в"@ || t == "s"@ {
        Some(AccountManipulation::Auth)
    } else if t == "р"@ || t == "r"@ {
        Some(AccountManipulation::Regist)
    } else {
        None
    }
}

/// Reads the choice between logging in (`в` or `s`) and registering (`р` or `r`).
pub fn log_or_reg(line: &str) -> (r: Option<AccountManipulation>)
    ensures
        r == account_choice_of(line@),
{
    let t = trim(line);
    let t = t.as_str();
    if same_text(t, "в") || same_text(t, "s") {
        Some(AccountManipulation::Auth)
    } else if same_text(t, "р") || same_text(t, "r") {
        Some(AccountManipulation::Regist)
    } else {
        None
    }
}

/// What a line typed at the menu of kinds gives: the kind at that line of
/// the menu, counted from 1.
pub open spec fn kind_choice_of(line: Seq<char>) -> Option<RecordKind> {
    match parsed_number(trimmed(line), 6) {
        Some(n) => if n >= 1 {
            Some(RecordKind::at_menu(n - 1))
        } else {
            None
        },
        None => None,
    }
}

/// Reads a choice from the menu of kinds.
pub fn parse_kind_choice(line: &str) -> (r: Option<RecordKind>)
    ensures
        r == kind_choice_of(line@),
{
    let t = trim(line);
    match parse_decimal(t.as_str(), 6) {
        Some(n) => RecordKind::from_menu_number(n as usize),
        None => None,
    }
}

/// What a line typed for the number of a record in the list gives.
pub open spec fn record_number_of(line: Seq<char>) -> Option<nat> {
    parsed_number(trimmed(line), 0xffff)
}

/// Reads the number of a record in the list.
pub fn parse_record_number(line: &str) -> (r: Option<u16>)
    ensures
        match r {
            Some(n) => record_number_of(line@) == Some(n as nat),
            None => record_number_of(line@) is None,
        },
{
    let t = trim(line);
    match parse_decimal(t.as_str(), 0xffff) {
        Some(n) => Some(n as u16),
        None => None,
    }
}

/// What a line typed for a new document gives: the line without the white
/// space at its end, or `None` for a line of white space, which ends the
/// document.
pub open spec fn document_line_of(line: Seq<char>) -> Option<Seq<char>> {
    let t = trimmed_end(line);
    if t.len() == 0 {
        None
    } else {
        Some(t)
    }
}

/// Reads one line of a new document.
pub fn document_line(line: &str) -> (r: Option<String>)
    ensures
        match r {
            Some(t) => document_line_of(line@) == Some(t@),
            None => document_line_of(line@) is None,
        },
{
    let t = trim_end(line);
    if t.as_str().unicode_len() == 0 {
        None
    } else {
        Some(t)
    }
}

/// What a line typed for a field of `count` digits gives: the digits.
pub open spec fn digit_text_of(line: Seq<char>, count: nat) -> Result<Seq<char>, InputError> {
    let t = trimmed(line);
    if byte_len(t) != count {
        Err(InputError::WrongLength)
    } else if !all_digits(t) {
        Err(InputError::NotDigits)
    } else {
        Ok(t)
    }
}

/// What a line typed for a number of `count` digits gives: the number.
pub open spec fn digit_number_of(line: Seq<char>, count: nat, max: nat) -> Result<nat, InputError> {
    match digit_text_of(line, count) {
        Err(e) => Err(e),
        Ok(t) => match parsed_number(t, max) {
            Some(n) => Ok(n),
            None => Err(InputError::NotANumber),
        },
    }
}

fn check_digit_text(line: &str, count: usize) -> (r: Result<String, InputError>)
    ensures
        match r {
            Ok(t) => digit_text_of(line@, count as nat) == Ok::<Seq<char>, InputError>(t@),
            Err(e) => digit_text_of(line@, count as nat) == Err::<Seq<char>, InputError>(e),
        },
{
    let t = trim(line);
    if bytes_in(t.as_str()) != count {
        Err(InputError::WrongLength)
    } else if !is_all_digits(t.as_str()) {
        Err(InputError::NotDigits)
    } else {
        Ok(t)
    }
}

fn check_digit_number(line: &str, count: usize, max: u32) -> (r: Result<u32, InputError>)
    ensures
        match r {
            Ok(n) => digit_number_of(line@, count as nat, max as nat) == Ok::<nat, InputError>(
                n as nat,
            ),
            Err(e) => digit_number_of(line@, count as nat, max as nat) == Err::<nat, InputError>(
                e,
            ),
        },
{
    match check_digit_text(line, count) {
        Err(e) => Err(e),
        Ok(t) => match parse_decimal(t.as_str(), max) {
            Some(n) => Ok(n),
            None => Err(InputError::NotANumber),
        },
    }
}

/// Accepts the number of a new card: sixteen digits.
pub fn check_card_number(line: &str) -> (r: Result<String, InputError>)
    ensures
        match r {
            Ok(t) => digit_text_of(line@, 16) == Ok::<Seq<char>, InputError>(t@),
            Err(e) => digit_text_of(line@, 16) == Err::<Seq<char>, InputError>(e),
        },
{
    check_digit_text(line, 16)
}

/// Accepts the CVV of a new card: four digits.
pub fn check_cvv(line: &str) -> (r: Result<u16, InputError>)
    ensures
        match r {
            Ok(n) => digit_number_of(line@, 4, 0xffff) == Ok::<nat, InputError>(n as nat),
            Err(e) => digit_number_of(line@, 4, 0xffff) == Err::<nat, InputError>(e),
        },
{
    match check_digit_number(line, 4, 0xffff) {
        Ok(n) => Ok(n as u16),
        Err(e) => Err(e),
    }
}

/// Accepts the series of a new passport: four digits.
pub fn check_serial(line: &str) -> (r: Result<u16, InputError>)
    ensures
        match r {
            Ok(n) => digit_number_of(line@, 4, 0xffff) == Ok::<nat, InputError>(n as nat),
            Err(e) => digit_number_of(line@, 4, 0xffff) == Err::<nat, InputError>(e),
        },
{
    match check_digit_number(line, 4, 0xffff) {
        Ok(n) => Ok(n as u16),
        Err(e) => Err(e),
    }
}

/// Accepts the number of a new passport: six digits.
pub fn check_passport_number(line: &str) -> (r: Result<u32, InputError>)
    ensures
        match r {
            Ok(n) => digit_number_of(line@, 6, 0xffff_ffff) == Ok::<nat, InputError>(n as nat),
            Err(e) => digit_number_of(line@, 6, 0xffff_ffff) == Err::<nat, InputError>(e),
        },
{
    check_digit_number(line, 6, 0xffff_ffff)
}

/// The sex that a line typed for a new passport names: `м` or `male` for a
/// man, `ж` or `female` for a woman, in either case.
pub open spec fn sex_of_line(line: Seq<char>) -> Option<Sex> {
    let t = trimmed(line);
    if t == "м"@ || t == "М"@ || same_ignoring_ascii_case(t, "male"@) {
        Some(Sex::Male)
    } else if t == "ж"@ || t == "Ж"@ || same_ignoring_ascii_case(t, "female"@) {
        Some(Sex::Female)
    } else {
        None
    }
}

/// Reads the sex for a new passport. A line that names none gives `Male`, and
/// `false` with it.
pub fn parse_sex(line: &str) -> (r: (Sex, bool))
    ensures
        r == (match sex_of_line(line@) {
            Some(sex) => (sex, true),
            None => (Sex::Male, false),
        }),
{
    let t = trim(line);
    let t = t.as_str();
    if same_text(t, "м") || same_text(t, "М") || same_text_ignoring_ascii_case(t, "male") {
        (Sex::Male, true)
    } else if same_text(t, "ж") || same_text(t, "Ж") || same_text_ignoring_ascii_case(
        t,
        "female",
    ) {
        (Sex::Female, true)
    } else {
        (Sex::Male, false)
    }
}

/// What a line typed for a text that may stay as it is gives: `None` for a
/// line of white space, else the line without the white space around it.
pub open spec fn optional_text_of(line: Seq<char>) -> Option<Seq<char>> {
    let t = trimmed(line);
    if t.len() == 0 {
        None
    } else {
        Some(t)
    }
}

/// Reads a new text for a field; an empty line keeps the field.
pub fn edit_text(line: &str) -> (r: Option<String>)
    ensures
        match r {
            Some(t) => optional_text_of(line@) == Some(t@),
            None => optional_text_of(line@) is None,
        },
{
    let t = trim(line);
    if t.as_str().unicode_len() == 0 {
        None
    } else {
        Some(t)
    }
}

/// What a line typed for a new card number gives.
pub open spec fn card_number_edit_of(line: Seq<char>) -> Result<Option<Seq<char>>, InputError> {
    if trimmed(line).len() == 0 {
        Ok(None)
    } else {
        match digit_text_of(line, 16) {
            Ok(t) => Ok(Some(t)),
            Err(e) => Err(e),
        }
    }
}

/// Reads a new card number; an empty line keeps the old one.
pub fn edit_card_number(line: &str) -> (r: Result<Option<String>, InputError>)
    ensures
        match r {
            Ok(Some(t)) => card_number_edit_of(line@) == Ok::<Option<Seq<char>>, InputError>(
                Some(t@),
            ),
            Ok(None) => card_number_edit_of(line@) == Ok::<Option<Seq<char>>, InputError>(None),
            Err(e) => card_number_edit_of(line@) == Err::<Option<Seq<char>>, InputError>(e),
        },
{
    let t = trim(line);
    if t.as_str().unicode_len() == 0 {
        return Ok(None);
    }
    match check_digit_text(line, 16) {
        Ok(t) => Ok(Some(t)),
        Err(e) => Err(e),
    }
}

/// What a line typed for a new number of `low` to `high` gives.
pub open spec fn number_edit_of(line: Seq<char>, max: nat, low: nat, high: nat) -> Result<
    Option<nat>,
    InputError,
> {
    let t = trimmed(line);
    if t.len() == 0 {
        Ok(None)
    } else {
        match parsed_number(t, max) {
            None => Err(InputError::NotANumber),
            Some(n) => if low <= n <= high {
                Ok(Some(n))
            } else {
                Err(InputError::WrongDigitCount)
            },
        }
    }
}

fn edit_number(line: &str, max: u32, low: u32, high: u32) -> (r: Result<Option<u32>, InputError>)
    ensures
        match r {
            Ok(Some(n)) => number_edit_of(line@, max as nat, low as nat, high as nat) == Ok::<
                Option<nat>,
                InputError,
            >(Some(n as nat)),
            Ok(None) => number_edit_of(line@, max as nat, low as nat, high as nat) == Ok::<
                Option<nat>,
                InputError,
            >(None),
            Err(e) => number_edit_of(line@, max as nat, low as nat, high as nat) == Err::<
                Option<nat>,
                InputError,
            >(e),
        },
{
    let t = trim(line);
    if t.as_str().unicode_len() == 0 {
        return Ok(None);
    }
    match parse_decimal(t.as_str(), max) {
        None => Err(InputError::NotANumber),
        Some(n) => if low <= n && n <= high {
            Ok(Some(n))
        } else {
            Err(InputError::WrongDigitCount)
        },
    }
}

/// Reads a new CVV: a number of four digits, the first of them not zero. An
/// empty line keeps the old one.
pub fn edit_cvv(line: &str) -> (r: Result<Option<u16>, InputError>)
    ensures
        match r {
            Ok(Some(n)) => number_edit_of(line@, 0xffff, 1000, 9999) == Ok::<
                Option<nat>,
                InputError,
            >(Some(n as nat)),
            Ok(None) => number_edit_of(line@, 0xffff, 1000, 9999) == Ok::<
                Option<nat>,
                InputError,
            >(None),
            Err(e) => number_edit_of(line@, 0xffff, 1000, 9999) == Err::<Option<nat>, InputError>(
                e,
            ),
        },
{
    match edit_number(line, 0xffff, 1000, 9999) {
        Ok(Some(n)) => Ok(Some(n as u16)),
        Ok(None) => Ok(None),
        Err(e) => Err(e),
    }
}

/// Reads a new passport series: a number of four digits, the first of them
/// not zero. An empty line keeps the old one.
pub fn edit_serial(line: &str) -> (r: Result<Option<u16>, InputError>)
    ensures
        match r {
            Ok(Some(n)) => number_edit_of(line@, 0xffff, 1000, 9999) == Ok::<
                Option<nat>,
                InputError,
            >(Some(n as nat)),
            Ok(None) => number_edit_of(line@, 0xffff, 1000, 9999) == Ok::<
                Option<nat>,
                InputError,
            >(None),
            Err(e) => number_edit_of(line@, 0xffff, 1000, 9999) == Err::<Option<nat>, InputError>(
                e,
            ),
        },
{
    match edit_number(line, 0xffff, 1000, 9999) {
        Ok(Some(n)) => Ok(Some(n as u16)),
        Ok(None) => Ok(None),
        Err(e) => Err(e),
    }
}

/// Reads a new passport number: a number of six digits, the first of them
/// not zero. An empty line keeps the old one.
pub fn edit_passport_number(line: &str) -> (r: Result<Option<u32>, InputError>)
    ensures
        match r {
            Ok(Some(n)) => number_edit_of(line@, 0xffff_ffff, 100000, 999999) == Ok::<
                Option<nat>,
                InputError,
            >(Some(n as nat)),
            Ok(None) => number_edit_of(line@, 0xffff_ffff, 100000, 999999) == Ok::<
                Option<nat>,
                InputError,
            >(None),
            Err(e) => number_edit_of(line@, 0xffff_ffff, 100000, 999999) == Err::<
                Option<nat>,
                InputError,
            >(e),
        },
{
    edit_number(line, 0xffff_ffff, 100000, 999999)
}

/// True for a text that starts as a date does: two digits, a dot, two
/// digits, a dot, four digits, and after them nothing or a dot.
pub open spec fn is_date_text(t: Seq<char>) -> bool {
    &&& t.len() >= 10
    &&& is_digit(t[0])
    &&& is_digit(t[1])
    &&& t[2] == '.'
    &&& is_digit(t[3])
    &&& is_digit(t[4])
    &&& t[5] == '.'
    &&& is_digit(t[6])
    &&& is_digit(t[7])
    &&& is_digit(t[8])
    &&& is_digit(t[9])
    &&& (t.len() == 10 || t[10] == '.')
}

/// What a line typed for a new date gives.
pub open spec fn date_edit_of(line: Seq<char>) -> Result<Option<Seq<char>>, InputError> {
    let t = trimmed(line);
    if t.len() == 0 {
        Ok(None)
    } else if is_date_text(t) {
        Ok(Some(t))
    } else {
        Err(InputError::BadDate)
    }
}

fn digit_at(t: &str, i: usize) -> (r: bool)
    requires
        i < t@.len(),
    ensures
        r == is_digit(t@[i as int]),
{
    let c = t.get_char(i);
    '0' <= c && c <= '9'
}

/// Reads a new date of the form DD.MM.YYYY; an empty line keeps the old one.
pub fn edit_date(line: &str) -> (r: Result<Option<String>, InputError>)
    ensures
        match r {
            Ok(Some(t)) => date_edit_of(line@) == Ok::<Option<Seq<char>>, InputError>(Some(t@)),
            Ok(None) => date_edit_of(line@) == Ok::<Option<Seq<char>>, InputError>(None),
            Err(e) => date_edit_of(line@) == Err::<Option<Seq<char>>, InputError>(e),
        },
{
    let owned = trim(line);
    let t = owned.as_str();
    let n: usize = t.unicode_len();
    if n == 0 {
        return Ok(None);
    }
    if n < 10 {
        return Err(InputError::BadDate);
    }
    let shaped = digit_at(t, 0) && digit_at(t, 1) && t.get_char(2) == '.' && digit_at(t, 3)
        && digit_at(t, 4) && t.get_char(5) == '.' && digit_at(t, 6) && digit_at(t, 7) && digit_at(
        t,
        8,
    ) && digit_at(t, 9);
    if !shaped {
        return Err(InputError::BadDate);
    }
    if n > 10 && t.get_char(10) != '.' {
        return Err(InputError::BadDate);
    }
    Ok(Some(owned))
}

/// What a line typed for a new sex gives.
pub open spec fn sex_edit_of(line: Seq<char>) -> Result<Option<Sex>, InputError> {
    let t = trimmed(line);
    if t == "м"@ || t == "М"@ {
        Ok(Some(Sex::Male))
    } else if t == "ж"@ || t == "Ж"@ {
        Ok(Some(Sex::Female))
    } else if line.len() == 0 {
        Ok(None)
    } else {
        Err(InputError::BadSex)
    }
}

/// Reads a new sex: `м` or `ж`, in either case. Only a line that holds
/// nothing at all, not even its line break, keeps the old one.
pub fn edit_sex(line: &str) -> (r: Result<Option<Sex>, InputError>)
    ensures
        r == sex_edit_of(line@),
{
    let owned = trim(line);
    let t = owned.as_str();
    if same_text(t, "м") || same_text(t, "М") {
        Ok(Some(Sex::Male))
    } else if same_text(t, "ж") || same_text(t, "Ж") {
        Ok(Some(Sex::Female))
    } else if line.unicode_len() == 0 {
        Ok(None)
    } else {
        Err(InputError::BadSex)
    }
}

/// The texts of a list, one after the other, with `separator` between them.
pub open spec fn joined(lines: Seq<Seq<char>>, separator: Seq<char>) -> Seq<char>
    decreases lines.len(),
{
    if lines.len() == 0 {
        Seq::empty()
    } else if lines.len() == 1 {
        lines[0]
    } else {
        joined(lines.drop_last(), separator) + separator + lines.last()
    }
}

/// The texts of a list, each by its view.
pub open spec fn lines_view(lines: Seq<String>) -> Seq<Seq<char>> {
    Seq::new(lines.len(), |i: int| lines[i]@)
}

/// Joins the lines of a document with line breaks between them.
pub fn join_lines(lines: &Vec<String>) -> (r: String)
    ensures
        r@ == joined(lines_view(lines@), "\n"@),
{
    let mut out = String::new();
    let mut i: usize = 0;
    while i < lines.len()
        invariant
            i <= lines.len(),
            out@ == joined(lines_view(lines@).take(i as int), "\n"@),
        decreases lines.len() - i,
    {
        proof {
            let all = lines_view(lines@);
            assert(all.take(i + 1).drop_last() =~= all.take(i as int));
            assert(all.take(i + 1).last() == lines[i as int]@);
            assert(all.take(1)[0] == all[0]);
        }
        if i > 0 {
            out.append("\n");
        }
        out.append(lines[i].as_str());
        i += 1;
    }
    proof {
        let all = lines_view(lines@);
        assert(all.take(lines.len() as int) =~= all);
    }
    out
}

/// A title with a run of `chars` on either side. A title of `len` bytes or
/// more stays bare; a shorter one gets, on either side, one copy of `chars`
/// and one more for every two bytes it is short.
pub open spec fn titled(len: nat, title: Seq<char>, chars: Seq<char>) -> Seq<char> {
    if byte_len(title) >= len {
        title
    } else {
        let decorator = ((len - byte_len(title)) / 2 + 1) as nat;
        repeated(chars, decorator) + title + repeated(chars, decorator)
    }
}

/// Builds a title with decoration on either side.
pub fn titlemaker(len: usize, title: &String, chars: &String) -> (r: String)
    ensures
        r@ == titled(len as nat, title@, chars@),
{
    let size: usize = bytes_in(title.as_str());
    if size >= len {
        return title.clone();
    }
    let decorator: usize = (len - size) / 2 + 1;
    let mut out = String::new();
    append_repeated(&mut out, chars.as_str(), decorator);
    out.append(title.as_str());
    append_repeated(&mut out, chars.as_str(), decorator);
    out
}

/// The changes typed for a record of one kind. `None` keeps a field.
#[derive(Debug)]
#[allow(inconsistent_fields)]
pub enum RecordEdit {
    Password { password: String },
    Card { num: Option<String>, cvv: Option<u16>, bank: Option<String> },
    Passport {
        fsl: Option<String>,
        date: Option<String>,
        sex: Option<Sex>,
        serial: Option<u16>,
        num: Option<u32>,
    },
    Document { text: String },
    WifiConfig { name: Option<String>, password: Option<String> },
    Token { token: Option<String>, from: Option<String> },
}

/// The changes typed for a record, as mathematical values.
#[allow(inconsistent_fields)]
pub enum EditView {
    Password { password: Seq<char> },
    Card { num: Option<Seq<char>>, cvv: Option<u16>, bank: Option<Seq<char>> },
    Passport {
        fsl: Option<Seq<char>>,
        date: Option<Seq<char>>,
        sex: Option<Sex>,
        serial: Option<u16>,
        num: Option<u32>,
    },
    Document { text: Seq<char> },
    WifiConfig { name: Option<Seq<char>>, password: Option<Seq<char>> },
    Token { token: Option<Seq<char>>, from: Option<Seq<char>> },
}

/// A typed text, if any, by its view.
pub open spec fn text_view(text: Option<String>) -> Option<Seq<char>> {
    match text {
        Some(s) => Some(s@),
        None => None,
    }
}

impl View for RecordEdit {
    type V = EditView;

    open spec fn view(&self) -> EditView {
        match self {
            RecordEdit::Password { password } => EditView::Password { password: password@ },
            RecordEdit::Card { num, cvv, bank } => EditView::Card {
                num: text_view(*num),
                cvv: *cvv,
                bank: text_view(*bank),
            },
            RecordEdit::Passport { fsl, date, sex, serial, num } => EditView::Passport {
                fsl: text_view(*fsl),
                date: text_view(*date),
                sex: *sex,
                serial: *serial,
                num: *num,
            },
            RecordEdit::Document { text } => EditView::Document { text: text@ },
            RecordEdit::WifiConfig { name, password } => EditView::WifiConfig {
                name: text_view(*name),
                password: text_view(*password),
            },
            RecordEdit::Token { token, from } => EditView::Token {
                token: text_view(*token),
                from: text_view(*from),
            },
        }
    }
}

/// The new value where there is one, the old value otherwise.
pub open spec fn kept<T>(new: Option<T>, old: T) -> T {
    match new {
        Some(value) => value,
        None => old,
    }
}

/// The record after an edit of its own kind; `None` for an edit of another
/// kind. A password and a document's text are always replaced.
pub open spec fn edited(record: RecordView, edit: EditView) -> Option<RecordView> {
    match (record, edit) {
        (RecordView::Password { .. }, EditView::Password { password }) => Some(
            RecordView::Password { password },
        ),
        (RecordView::Card { num, cvv, bank }, EditView::Card { num: n, cvv: c, bank: b }) => Some(
            RecordView::Card { num: kept(n, num), cvv: kept(c, cvv), bank: kept(b, bank) },
        ),
        (
            RecordView::Passport { fsl, date, sex, serial, num },
            EditView::Passport { fsl: f, date: d, sex: x, serial: s, num: n },
        ) => Some(
            RecordView::Passport {
                fsl: kept(f, fsl),
                date: kept(d, date),
                sex: kept(x, sex),
                serial: kept(s, serial),
                num: kept(n, num),
            },
        ),
        (RecordView::Document { .. }, EditView::Document { text }) => Some(
            RecordView::Document { text },
        ),
        (RecordView::WifiConfig { name, password }, EditView::WifiConfig { name: n, password: p }) =>
            Some(RecordView::WifiConfig { name: kept(n, name), password: kept(p, password) }),
        (RecordView::Token { token, from }, EditView::Token { token: t, from: f }) => Some(
            RecordView::Token { token: kept(t, token), from: kept(f, from) },
        ),
        _ => None,
    }
}

fn keep_text(new: Option<String>, old: &String) -> (r: String)
    ensures
        r@ == kept(text_view(new), old@),
{
    update_or_save(new, old.clone())
}

/// Applies what the user typed to a record of the session: a new name and a
/// new notice where they were typed, and the changes to the record's fields.
/// The id stays. `None` where the changes are for another kind of record.
pub fn correct_data(
    data: &ShowableData,
    new_name: Option<String>,
    new_notice: Option<String>,
    edit: RecordEdit,
) -> (r: Option<ShowableData>)
    ensures
        match r {
            Some(out) => edited(data@.data, edit@) == Some(out@.data) && out@.id == data@.id
                && out@.name == kept(text_view(new_name), data@.name) && out@.notice == kept(
                text_view(new_notice),
                data@.notice,
            ),
            None => edited(data@.data, edit@) is None,
        },
{
    let record = match (&data.data, edit) {
        (DataType::Password { .. }, RecordEdit::Password { password }) => DataType::Password {
            password,
        },
        (DataType::Card { num, cvv, bank }, RecordEdit::Card { num: n, cvv: c, bank: b }) =>
            DataType::Card {
                num: keep_text(n, num),
                cvv: update_or_save(c, *cvv),
                bank: keep_text(b, bank),
            },
        (
            DataType::Passport { fsl, date, sex, serial, num },
            RecordEdit::Passport { fsl: f, date: d, sex: x, serial: s, num: n },
        ) => DataType::Passport {
            fsl: keep_text(f, fsl),
            date: keep_text(d, date),
            sex: update_or_save(x, *sex),
            serial: update_or_save(s, *serial),
            num: update_or_save(n, *num),
        },
        (DataType::Document { .. }, RecordEdit::Document { text }) => DataType::Document { text },
        (
            DataType::WifiConfig { name, password },
            RecordEdit::WifiConfig { name: n, password: p },
        ) => DataType::WifiConfig { name: keep_text(n, name), password: keep_text(p, password) },
        (DataType::Token { token, from }, RecordEdit::Token { token: t, from: f }) =>
            DataType::Token { token: keep_text(t, token), from: keep_text(f, from) },
        _ => { return None; },
    };
    Some(
        ShowableData {
            id: data.id,
            name: keep_text(new_name, &data.name),
            notice: keep_text(new_notice, &data.notice),
            data: record,
        },
    )
}

/// An edit never changes the kind of a record.
pub proof fn lemma_edit_keeps_kind(record: RecordView, edit: EditView)
    ensures
        edited(record, edit) matches Some(after) ==> after.kind() == record.kind(),
{
}

} // verus!
