//! The session's side of the vault: unlocking with the master password,
//! sealing records into rows, opening rows into records, and the working set
//! of decrypted records that the session shows and edits.
use crate::crypto::{
    check_password, checked, create_crypto_key, create_nonce, decrypt_data, decrypt_str,
    derived_key, encode, encrypt_data_with_nonce, encrypt_str_with_nonce, opened_record,
    opened_text, record_fits, sealed_record, sealed_text, text_fits, verifier_for, SALT_LEN,
};
use crate::error::VaultError;
use crate::models::{
    DataAndMeta, DataType, RecordKind, RecordView, RowView, ShowableData, ShowableView, UserData,
    KIND_COUNT,
};
use vstd::prelude::*;

verus! {

/// The three ciphertexts of one record and the nonce they were made with,
/// ready to be stored. The store gives the row its id.
#[derive(Debug)]
pub struct SealedRow {
    pub kind: RecordKind,
    pub data: Vec<u8>,
    pub name: Vec<u8>,
    pub notice: Vec<u8>,
    pub nonce: [u8; 24],
}

impl SealedRow {
    /// The stored row that this becomes under the id `id`.
    pub open spec fn row(self, id: i64) -> RowView {
        RowView {
            id,
            kind: self.kind,
            data: self.data@,
            name: self.name@,
            notice: self.notice@,
            nonce: self.nonce@,
        }
    }

    /// The stored row that this becomes under the id that the store gave.
    pub fn into_row(self, id: i64) -> (r: UserData)
        ensures
            r@ == self.row(id),
    {
        UserData {
            id,
            data: self.data,
            data_type: DataType::blank(self.kind),
            nonce: self.nonce,
            notice: self.notice,
            name: self.name,
        }
    }
}

/// The ciphertexts of a record, its name and its notice under one key and
/// nonce: payload first, then name, then notice; the first failure wins.
pub open spec fn sealed_parts(
    data: RecordView,
    name: Seq<char>,
    notice: Seq<char>,
    key: Seq<u8>,
    nonce: Seq<u8>,
) -> Result<(Seq<u8>, Seq<u8>, Seq<u8>), VaultError> {
    match sealed_record(data, key, nonce) {
        Err(e) => Err(e),
        Ok(enc_data) => match sealed_text(name, key, nonce) {
            Err(e) => Err(e),
            Ok(enc_name) => match sealed_text(notice, key, nonce) {
                Err(e) => Err(e),
                Ok(enc_notice) => Ok((enc_data, enc_name, enc_notice)),
            },
        },
    }
}

/// The record that a stored row opens to under a key. The payload is opened
/// first, then the name, then the notice, and the first failure wins. A
/// payload of another kind than the row's tag says is `CorruptRecord`.
pub open spec fn opened_row(row: RowView, key: Seq<u8>) -> Result<ShowableView, VaultError> {
    match opened_record(row.data, row.nonce, key) {
        Err(e) => Err(e),
        Ok(data) => match kind_agrees(row.kind, data.kind()) {
            Err(e) => Err(e),
            Ok(_) => match opened_text(row.name, row.nonce, key) {
                Err(e) => Err(e),
                Ok(name) => match opened_text(row.notice, row.nonce, key) {
                    Err(e) => Err(e),
                    Ok(notice) => Ok(ShowableView { id: row.id, name, notice, data }),
                },
            },
        },
    }
}

/// Whether a check of the password lets the user in: a password that did not
/// verify is `AuthenticationFailed`.
pub open spec fn granted(check: Result<bool, VaultError>) -> Result<(), VaultError> {
    match check {
        Err(e) => Err(e),
        Ok(matches) => if matches {
            Ok(())
        } else {
            Err(VaultError::AuthenticationFailed)
        },
    }
}

/// What a login gives: the key, where the password verifies against the
/// stored verifier, and a typed failure where it does not.
pub open spec fn unlocked(verifier: Seq<char>, salt: Seq<char>, password: Seq<char>) -> Result<
    Seq<u8>,
    VaultError,
> {
    match granted(checked(verifier, password)) {
        Err(e) => Err(e),
        Ok(_) => derived_key(salt, password),
    }
}

/// Whether a payload of kind `found` may stand in a row tagged `tagged`.
pub open spec fn kind_agrees(tagged: RecordKind, found: RecordKind) -> Result<(), VaultError> {
    if found == tagged {
        Ok(())
    } else {
        Err(VaultError::CorruptRecord)
    }
}

/// Seals a record, its name and its notice under a key and a given nonce.
/// The row that comes back opens, under the same key and whatever id the
/// store gives it, to the same record, name and notice.
pub fn seal_row_with_nonce(
    data: &DataType,
    name: &str,
    notice: &str,
    key: &[u8; 32],
    nonce: &[u8; 24],
) -> (r: Result<SealedRow, VaultError>)
    ensures
        match r {
            Ok(row) => sealed_parts(data@, name@, notice@, key@, nonce@) == Ok::<
                (Seq<u8>, Seq<u8>, Seq<u8>),
                VaultError,
            >((row.data@, row.name@, row.notice@)) && row.nonce@ == nonce@ && row.kind
                == data@.kind() && forall|id: i64|
                opened_row(#[trigger] row.row(id), key@) == Ok::<ShowableView, VaultError>(
                    ShowableView { id, name: name@, notice: notice@, data: data@ },
                ),
            Err(e) => sealed_parts(data@, name@, notice@, key@, nonce@) == Err::<
                (Seq<u8>, Seq<u8>, Seq<u8>),
                VaultError,
            >(e),
        },
{
    let enc_data = match encrypt_data_with_nonce(data, key, nonce) {
        Ok(c) => c,
        Err(e) => { return Err(e); },
    };
    let enc_name = match encrypt_str_with_nonce(name, key, nonce) {
        Ok(c) => c,
        Err(e) => { return Err(e); },
    };
    let enc_notice = match encrypt_str_with_nonce(notice, key, nonce) {
        Ok(c) => c,
        Err(e) => { return Err(e); },
    };
    Ok(SealedRow { kind: data.kind(), data: enc_data, name: enc_name, notice: enc_notice, nonce: *nonce })
}

/// Seals a record, its name and its notice under a key and the nonce that
/// was drawn. Where the draw failed its failure is handed on: nothing is
/// sealed, and no nonce of zeros or any earlier nonce stands in.
pub fn seal_row_drawn(
    data: &DataType,
    name: &str,
    notice: &str,
    key: &[u8; 32],
    drawn: Result<[u8; 24], VaultError>,
) -> (r: Result<SealedRow, VaultError>)
    ensures
        match (drawn, r) {
            (Err(d), Err(e)) => e == d,
            (Err(_), Ok(_)) => false,
            (Ok(n), Ok(row)) => sealed_parts(data@, name@, notice@, key@, n@) == Ok::<
                (Seq<u8>, Seq<u8>, Seq<u8>),
                VaultError,
            >((row.data@, row.name@, row.notice@)) && row.nonce == n && row.kind == data@.kind()
                && forall|id: i64|
                opened_row(#[trigger] row.row(id), key@) == Ok::<ShowableView, VaultError>(
                    ShowableView { id, name: name@, notice: notice@, data: data@ },
                ),
            (Ok(n), Err(e)) => sealed_parts(data@, name@, notice@, key@, n@) == Err::<
                (Seq<u8>, Seq<u8>, Seq<u8>),
                VaultError,
            >(e),
        },
{
    let nonce = match drawn {
        Ok(n) => n,
        Err(e) => { return Err(e); },
    };
    seal_row_with_nonce(data, name, notice, key, &nonce)
}

/// Seals a new record for the store under a fresh random nonce.
pub fn add_row_mode(new_row: &DataAndMeta, key: &[u8; 32]) -> (r: Result<SealedRow, VaultError>)
    ensures
        match r {
            Ok(row) => sealed_parts(new_row.data@, new_row.name@, new_row.notice@, key@, row.nonce@)
                == Ok::<(Seq<u8>, Seq<u8>, Seq<u8>), VaultError>(
                (row.data@, row.name@, row.notice@),
            ) && row.kind == new_row.data@.kind() && forall|id: i64|
                opened_row(#[trigger] row.row(id), key@) == Ok::<ShowableView, VaultError>(
                    ShowableView {
                        id,
                        name: new_row.name@,
                        notice: new_row.notice@,
                        data: new_row.data@,
                    },
                ),
            Err(e) => e == VaultError::NonceGenerationFailed || (e == VaultError::EncryptionFailed
                && !(record_fits(new_row.data@) && text_fits(new_row.name@) && text_fits(
                new_row.notice@,
            ))),
        },
{
    seal_row_drawn(
        &new_row.data,
        new_row.name.as_str(),
        new_row.notice.as_str(),
        key,
        create_nonce(),
    )
}

/// Seals an edited record for the store: payload, name and notice are all
/// encrypted again, under a fresh random nonce.
pub fn update_row_mode(updated: &ShowableData, key: &[u8; 32]) -> (r: Result<SealedRow, VaultError>)
    ensures
        match r {
            Ok(row) => sealed_parts(updated.data@, updated.name@, updated.notice@, key@, row.nonce@)
                == Ok::<(Seq<u8>, Seq<u8>, Seq<u8>), VaultError>(
                (row.data@, row.name@, row.notice@),
            ) && row.kind == updated.data@.kind() && opened_row(row.row(updated.id), key@) == Ok::<
                ShowableView,
                VaultError,
            >(updated@),
            Err(e) => e == VaultError::NonceGenerationFailed || (e == VaultError::EncryptionFailed
                && !(record_fits(updated.data@) && text_fits(updated.name@) && text_fits(
                updated.notice@,
            ))),
        },
{
    let r = seal_row_drawn(
        &updated.data,
        updated.name.as_str(),
        updated.notice.as_str(),
        key,
        create_nonce(),
    );
    proof {
        if let Ok(row) = &r {
            assert(opened_row(row.row(updated.id), key@) == Ok::<ShowableView, VaultError>(
                updated@,
            ));
        }
    }
    r
}

/// Decides whether a check of the password lets the user in.
pub fn grant(check: Result<bool, VaultError>) -> (r: Result<(), VaultError>)
    ensures
        r == granted(check),
{
    match check {
        Err(e) => Err(e),
        Ok(matches) => if matches {
            Ok(())
        } else {
            Err(VaultError::AuthenticationFailed)
        },
    }
}

/// Holds the kind of a decrypted payload against the tag of its row: the
/// two must agree, and a payload of another kind is `CorruptRecord`.
pub fn check_kind(tagged: RecordKind, found: RecordKind) -> (r: Result<(), VaultError>)
    ensures
        r == kind_agrees(tagged, found),
{
    if found == tagged {
        Ok(())
    } else {
        Err(VaultError::CorruptRecord)
    }
}

/// Opens a stored row with the session's key.
pub fn open_row(row: &UserData, key: &[u8; 32]) -> (r: Result<ShowableData, VaultError>)
    ensures
        match r {
            Ok(record) => opened_row(row@, key@) == Ok::<ShowableView, VaultError>(record@),
            Err(e) => opened_row(row@, key@) == Err::<ShowableView, VaultError>(e),
        },
{
    let data = match decrypt_data(&row.data, &row.nonce, key) {
        Ok(d) => d,
        Err(e) => { return Err(e); },
    };
    match check_kind(row.data_type.kind(), data.kind()) {
        Ok(_) => {},
        Err(e) => { return Err(e); },
    }
    let name = match decrypt_str(&row.name, &row.nonce, key) {
        Ok(n) => n,
        Err(e) => { return Err(e); },
    };
    let notice = match decrypt_str(&row.notice, &row.nonce, key) {
        Ok(n) => n,
        Err(e) => { return Err(e); },
    };
    Ok(ShowableData { id: row.id, name, notice, data })
}

/// Logs in: checks the password against the stored verifier and, where it
/// verifies, derives the session's key from the stored salt. A verifier that
/// does not parse is `MalformedVerifier`, a password that does not verify
/// `AuthenticationFailed`, and no key is derived for either.
pub fn auth(verifier: &String, salt: &str, password: &String) -> (r: Result<[u8; 32], VaultError>)
    ensures
        match r {
            Ok(key) => unlocked(verifier@, salt@, password@) == Ok::<Seq<u8>, VaultError>(key@),
            Err(e) => unlocked(verifier@, salt@, password@) == Err::<Seq<u8>, VaultError>(e),
        },
{
    match grant(check_password(verifier, password)) {
        Err(e) => Err(e),
        Ok(_) => create_crypto_key(salt, password.as_str()),
    }
}

/// Registers an account: where the login is taken nothing is hashed and
/// `None` comes back; else the verifier and the salt to store.
pub fn reg(login_taken: bool, password: String) -> (r: Result<Option<(String, String)>, VaultError>)
    ensures
        match r {
            Ok(None) => login_taken,
            Ok(Some((hash, salt))) => !login_taken && checked(hash@, password@) == Ok::<
                bool,
                VaultError,
            >(true) && exists|raw: Seq<u8>|
                raw.len() == SALT_LEN && #[trigger] verifier_for(password@, raw) == Ok::<
                    (Seq<char>, Seq<char>),
                    VaultError,
                >((hash@, salt@)),
            Err(e) => !login_taken && (e == VaultError::RngFailure || (e
                == VaultError::HashingFailed && vstd::utf8::encode_utf8(password@).len()
                > crate::crypto::ARGON2_MAX_INPUT)),
        },
{
    if login_taken {
        return Ok(None);
    }
    match encode(password) {
        Ok(pair) => Ok(Some(pair)),
        Err(e) => Err(e),
    }
}

/// The records of a list, each by its view.
pub open spec fn records_view(records: Seq<ShowableData>) -> Seq<ShowableView> {
    Seq::new(records.len(), |i: int| records[i]@)
}

/// The rows of a list, each by its view.
pub open spec fn rows_view(rows: Seq<UserData>) -> Seq<RowView> {
    Seq::new(rows.len(), |i: int| rows[i]@)
}

/// Six sections without a record.
pub open spec fn empty_sections() -> Seq<Seq<ShowableView>> {
    Seq::new(KIND_COUNT as nat, |p: int| Seq::<ShowableView>::empty())
}

/// The sections with `record` added at the end of the section of its kind.
pub open spec fn filed(sections: Seq<Seq<ShowableView>>, record: ShowableView) -> Seq<
    Seq<ShowableView>,
> {
    let p = record.data.kind().section();
    sections.update(p, sections[p].push(record))
}

/// Number of records in the sections before section `part`.
pub open spec fn offset_of(sections: Seq<Seq<ShowableView>>, part: int) -> int
    decreases part,
{
    if part <= 0 {
        0
    } else {
        offset_of(sections, part - 1) + sections[part - 1].len()
    }
}

/// The sections that a list of stored rows loads into: every row that opens,
/// in the order of the list, in the section of its kind.
pub open spec fn loaded_sections(rows: Seq<RowView>, key: Seq<u8>) -> Seq<Seq<ShowableView>>
    decreases rows.len(),
{
    if rows.len() == 0 {
        empty_sections()
    } else {
        let before = loaded_sections(rows.drop_last(), key);
        match opened_row(rows.last(), key) {
            Ok(record) => filed(before, record),
            Err(_) => before,
        }
    }
}

/// The rows of a list that do not open, by id and failure, in the order of
/// the list.
pub open spec fn load_failures(rows: Seq<RowView>, key: Seq<u8>) -> Seq<(i64, VaultError)>
    decreases rows.len(),
{
    if rows.len() == 0 {
        Seq::empty()
    } else {
        let before = load_failures(rows.drop_last(), key);
        match opened_row(rows.last(), key) {
            Ok(_) => before,
            Err(e) => before.push((rows.last().id, e)),
        }
    }
}

/// The decrypted records of a session, in six sections: one for each kind, in
/// the alphabetical order of the kinds' tags. Within a section the records
/// stand in the order in which they were filed.
#[derive(Debug)]
pub struct WorkingSet {
    cards: Vec<ShowableData>,
    documents: Vec<ShowableData>,
    passports: Vec<ShowableData>,
    passwords: Vec<ShowableData>,
    tokens: Vec<ShowableData>,
    wifi_configs: Vec<ShowableData>,
}

impl View for WorkingSet {
    type V = Seq<Seq<ShowableView>>;

    closed spec fn view(&self) -> Seq<Seq<ShowableView>> {
        seq![
            records_view(self.cards@),
            records_view(self.documents@),
            records_view(self.passports@),
            records_view(self.passwords@),
            records_view(self.tokens@),
            records_view(self.wifi_configs@),
        ]
    }
}

/// True when there are six sections and every record stands in the section
/// of its kind.
pub open spec fn sections_wf(sections: Seq<Seq<ShowableView>>) -> bool {
    &&& sections.len() == KIND_COUNT
    &&& forall|p: int, i: int|
        0 <= p < sections.len() && 0 <= i < sections[p].len() ==> (
        #[trigger] sections[p][i]).data.kind().section() == p
}

impl WorkingSet {
    /// The invariant of the working set.
    pub open spec fn wf(&self) -> bool {
        sections_wf(self@)
    }

    proof fn lemma_sections(&self)
        ensures
            self@.len() == KIND_COUNT,
            self@[0] == records_view(self.cards@),
            self@[1] == records_view(self.documents@),
            self@[2] == records_view(self.passports@),
            self@[3] == records_view(self.passwords@),
            self@[4] == records_view(self.tokens@),
            self@[5] == records_view(self.wifi_configs@),
            self@[0].len() == self.cards@.len(),
            self@[1].len() == self.documents@.len(),
            self@[2].len() == self.passports@.len(),
            self@[3].len() == self.passwords@.len(),
            self@[4].len() == self.tokens@.len(),
            self@[5].len() == self.wifi_configs@.len(),
    {
    }

    /// A working set without a record.
    pub fn new() -> (r: Self)
        ensures
            r.wf(),
            r@ == empty_sections(),
    {
        let r = WorkingSet {
            cards: Vec::new(),
            documents: Vec::new(),
            passports: Vec::new(),
            passwords: Vec::new(),
            tokens: Vec::new(),
            wifi_configs: Vec::new(),
        };
        assert(r@ =~~= empty_sections());
        r
    }

    /// The records of one kind.
    pub fn section(&self, kind: RecordKind) -> (r: &Vec<ShowableData>)
        ensures
            records_view(r@) == self@[kind.section()],
    {
        match kind {
            RecordKind::Card => &self.cards,
            RecordKind::Document => &self.documents,
            RecordKind::Passport => &self.passports,
            RecordKind::Password => &self.passwords,
            RecordKind::Token => &self.tokens,
            RecordKind::WifiConfig => &self.wifi_configs,
        }
    }

    /// The records of the section at `part`; `None` where there is no such
    /// section.
    pub fn section_at(&self, part: usize) -> (r: Option<&Vec<ShowableData>>)
        ensures
            match r {
                Some(records) => part < KIND_COUNT && records_view(records@) == self@[part as int],
                None => part >= KIND_COUNT,
            },
    {
        match RecordKind::from_section_index(part) {
            Some(kind) => {
                proof {
                    crate::models::lemma_section_round_trip(part as int);
                }
                Some(self.section(kind))
            },
            None => None,
        }
    }

    /// Files a record at the end of the section of its kind.
    pub fn push(&mut self, record: ShowableData)
        requires
            old(self).wf(),
        ensures
            final(self).wf(),
            final(self)@ == filed(old(self)@, record@),
    {
        let ghost before = self@;
        match record.data.kind() {
            RecordKind::Card => self.cards.push(record),
            RecordKind::Document => self.documents.push(record),
            RecordKind::Passport => self.passports.push(record),
            RecordKind::Password => self.passwords.push(record),
            RecordKind::Token => self.tokens.push(record),
            RecordKind::WifiConfig => self.wifi_configs.push(record),
        }
        assert(self@ =~~= filed(before, record@));
    }

    /// The place of the record that stands at `index` when the sections are
    /// read one after the other, from 0: its section and its position there.
    /// `None` where the working set holds `index` records or fewer.
    pub fn find_data_by_index(&self, index: usize) -> (r: Option<(usize, usize)>)
        ensures
            match r {
                Some((part, local)) => part < KIND_COUNT && local < self@[part as int].len()
                    && offset_of(self@, part as int) + local == index,
                None => index >= offset_of(self@, KIND_COUNT as int),
            },
    {
        let mut offset: usize = 0;
        let mut part: usize = 0;
        while part < KIND_COUNT
            invariant
                part <= KIND_COUNT,
                offset == offset_of(self@, part as int),
                offset <= index,
            decreases KIND_COUNT - part,
        {
            let length: usize = match self.section_at(part) {
                Some(records) => records.len(),
                None => 0,
            };
            if index - offset < length {
                return Some((part, index - offset));
            }
            offset = offset + length;
            part = part + 1;
        }
        None
    }

    /// The record that the user picks by its number in the list, counted from
    /// 1: its id, its section and its position there. `None` for 0 and for a
    /// number past the last record.
    pub fn select(&self, number: u16) -> (r: Option<(i64, (usize, usize))>)
        ensures
            match r {
                Some((id, (part, local))) => number >= 1 && part < KIND_COUNT && local
                    < self@[part as int].len() && offset_of(self@, part as int) + local == number
                    - 1 && id == self@[part as int][local as int].id,
                None => number == 0 || number - 1 >= offset_of(self@, KIND_COUNT as int),
            },
    {
        if number == 0 {
            return None;
        }
        match self.find_data_by_index((number - 1) as usize) {
            None => None,
            Some((part, local)) => match self.section_at(part) {
                Some(records) => Some((records[local].id, (part, local))),
                None => None,
            },
        }
    }

    /// Takes the record at a place out of the working set. Where the place
    /// holds no record nothing changes and `None` comes back.
    pub fn remove(&mut self, part: usize, local: usize) -> (r: Option<ShowableData>)
        requires
            old(self).wf(),
        ensures
            final(self).wf(),
            match r {
                Some(record) => part < KIND_COUNT && local < old(self)@[part as int].len()
                    && record@ == old(self)@[part as int][local as int] && final(self)@ == old(self)@.update(part as int, old(self)@[part as int].remove(local as int)),
                None => (part >= KIND_COUNT || local >= old(self)@[part as int].len()) && final(self)@ == old(self)@,
            },
    {
        match self.section_at(part) {
            Some(records) => if local >= records.len() {
                return None;
            },
            None => { return None; },
        }
        let ghost before = self@;
        proof {
            self.lemma_sections();
        }
        let record = if part == 0 {
            self.cards.remove(local)
        } else if part == 1 {
            self.documents.remove(local)
        } else if part == 2 {
            self.passports.remove(local)
        } else if part == 3 {
            self.passwords.remove(local)
        } else if part == 4 {
            self.tokens.remove(local)
        } else {
            self.wifi_configs.remove(local)
        };
        assert(self@ =~~= before.update(part as int, before[part as int].remove(local as int)));
        Some(record)
    }

    /// Puts an edited record in the place of the one it was made from. Where
    /// the place holds no record, or one of another kind, nothing changes and
    /// `false` comes back.
    pub fn replace(&mut self, part: usize, local: usize, updated: ShowableData) -> (r: bool)
        requires
            old(self).wf(),
        ensures
            final(self).wf(),
            r == (part < KIND_COUNT && local < old(self)@[part as int].len()
                && updated@.data.kind().section() == part),
            r ==> final(self)@ == old(self)@.update(
                part as int,
                old(self)@[part as int].update(local as int, updated@),
            ),
            !r ==> final(self)@ == old(self)@,
    {
        match self.section_at(part) {
            Some(records) => if local >= records.len() {
                return false;
            },
            None => { return false; },
        }
        if updated.data.kind().section_index() != part {
            return false;
        }
        let ghost before = self@;
        proof {
            self.lemma_sections();
        }
        if part == 0 {
            self.cards.set(local, updated);
        } else if part == 1 {
            self.documents.set(local, updated);
        } else if part == 2 {
            self.passports.set(local, updated);
        } else if part == 3 {
            self.passwords.set(local, updated);
        } else if part == 4 {
            self.tokens.set(local, updated);
        } else {
            self.wifi_configs.set(local, updated);
        }
        assert(self@ =~~= before.update(
            part as int,
            before[part as int].update(local as int, updated@),
        ));
        true
    }
}

/// Opens every stored row of a user with the session's key. A row that does
/// not open is left out and reported with its id; it does not keep the other
/// rows from loading.
pub fn init_user_data(rows: &Vec<UserData>, key: &[u8; 32]) -> (r: (
    WorkingSet,
    Vec<(i64, VaultError)>,
))
    ensures
        r.0.wf(),
        r.0@ == loaded_sections(rows_view(rows@), key@),
        r.1@ == load_failures(rows_view(rows@), key@),
{
    let mut total = WorkingSet::new();
    let mut failures: Vec<(i64, VaultError)> = Vec::new();
    let mut i: usize = 0;
    while i < rows.len()
        invariant
            i <= rows.len(),
            total.wf(),
            total@ == loaded_sections(rows_view(rows@).take(i as int), key@),
            failures@ == load_failures(rows_view(rows@).take(i as int), key@),
        decreases rows.len() - i,
    {
        proof {
            let all = rows_view(rows@);
            assert(all.take(i + 1).drop_last() =~= all.take(i as int));
            assert(all.take(i + 1).last() == rows[i as int]@);
        }
        match open_row(&rows[i], key) {
            Ok(record) => total.push(record),
            Err(e) => failures.push((rows[i].id, e)),
        }
        i = i + 1;
    }
    proof {
        let all = rows_view(rows@);
        assert(all.take(rows.len() as int) =~= all);
    }
    (total, failures)
}

/// Loading keeps six sections, whatever the rows.
pub proof fn lemma_loaded_sections_len(rows: Seq<RowView>, key: Seq<u8>)
    ensures
        loaded_sections(rows, key).len() == KIND_COUNT,
    decreases rows.len(),
{
    if rows.len() > 0 {
        lemma_loaded_sections_len(rows.drop_last(), key);
    }
}

/// Every stored row is accounted for: a row that opens stands in the section
/// of its kind, and a row that does not is reported with its id and its
/// failure. No row keeps another from loading.
pub proof fn lemma_every_row_is_accounted_for(rows: Seq<RowView>, key: Seq<u8>, i: int)
    requires
        0 <= i < rows.len(),
    ensures
        match opened_row(rows[i], key) {
            Ok(record) => loaded_sections(rows, key)[record.data.kind().section()].contains(
                record,
            ),
            Err(e) => load_failures(rows, key).contains((rows[i].id, e)),
        },
    decreases rows.len(),
{
    let before = rows.drop_last();
    let sections = loaded_sections(before, key);
    let failures = load_failures(before, key);
    lemma_loaded_sections_len(before, key);
    if i < rows.len() - 1 {
        lemma_every_row_is_accounted_for(before, key, i);
        assert(before[i] == rows[i]);
        match opened_row(rows[i], key) {
            Ok(record) => {
                let p = record.data.kind().section();
                crate::models::lemma_tag_round_trip(record.data.kind());
                let at = choose|k: int| 0 <= k < sections[p].len() && sections[p][k] == record;
                match opened_row(rows.last(), key) {
                    Ok(last) => {
                        let q = last.data.kind().section();
                        crate::models::lemma_tag_round_trip(last.data.kind());
                        if p == q {
                            assert(sections[p].push(last)[at] == record);
                        }
                    },
                    Err(_) => {},
                }
            },
            Err(e) => {
                let at = choose|k: int| 0 <= k < failures.len() && failures[k] == (rows[i].id, e);
                match opened_row(rows.last(), key) {
                    Ok(_) => {},
                    Err(other) => {
                        assert(failures.push((rows.last().id, other))[at] == (rows[i].id, e));
                    },
                }
            },
        }
    } else {
        match opened_row(rows[i], key) {
            Ok(record) => {
                let p = record.data.kind().section();
                crate::models::lemma_tag_round_trip(record.data.kind());
                assert(sections[p].push(record)[sections[p].len() as int] == record);
            },
            Err(e) => {
                assert(failures.push((rows[i].id, e))[failures.len() as int] == (rows[i].id, e));
            },
        }
    }
}

} // verus!
