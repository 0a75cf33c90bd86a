use passhive::error::VaultError;
use passhive::models::{
    new_card, new_doc, new_passport, new_password, new_token, new_wificonfig, update_or_save,
    AccountManipulation, DataAndMeta, DataFromUser, DataType, RecordKind, Sex, UserData,
};

#[test]
fn sex_words() {
    assert_eq!(Sex::Male.to_string(), "мужской");
    assert_eq!(Sex::Female.to_string(), "женский");
    assert_eq!(Sex::NotDeclaredYet.to_string(), "не опеределен");
    assert_eq!(Sex::default(), Sex::NotDeclaredYet);
}

#[test]
fn record_lines() {
    let password = DataType::Password { password: "hunter2".to_string() };
    assert_eq!(password.to_string(), "Пароль: hunter2");
    let card = DataType::Card { num: "1234567812345678".to_string(), cvv: 123, bank: "Сбер".to_string() };
    assert_eq!(card.to_string(), "Номер: 1234567812345678,\n CVV: 123,\n, Банк: Сбер");
    let document = DataType::Document { text: "text".to_string() };
    assert_eq!(document.to_string(), "Содержимое : text");
    let token = DataType::Token { token: "t0k".to_string(), from: "GitHub".to_string() };
    assert_eq!(token.to_string(), "От: GitHub,\n Токен: t0k");
    let wifi = DataType::WifiConfig { name: "home".to_string(), password: "pw".to_string() };
    assert_eq!(wifi.to_string(), "Название сети: home,\n Пароль: pw");
    let passport = DataType::Passport {
        fsl: "Иванов И. И.".to_string(),
        date: "01.02.1990".to_string(),
        sex: Sex::Female,
        serial: 4510,
        num: 123456,
    };
    assert_eq!(
        passport.to_string(),
        "ФИО: Иванов И. И.,\n Дата рождения: 01.02.1990,\n Пол: женский,\n Серия: 4510,\n Номер: 123456"
    );
}

#[test]
fn numbers_are_shown_in_decimal() {
    let zero = DataType::Card { num: String::new(), cvv: 0, bank: String::new() };
    assert_eq!(zero.to_string(), "Номер: ,\n CVV: 0,\n, Банк: ");
    let largest = DataType::Passport {
        fsl: String::new(),
        date: String::new(),
        sex: Sex::NotDeclaredYet,
        serial: 65535,
        num: 4294967295,
    };
    assert_eq!(
        largest.to_string(),
        "ФИО: ,\n Дата рождения: ,\n Пол: не опеределен,\n Серия: 65535,\n Номер: 4294967295"
    );
}

#[test]
fn titles_and_tags() {
    let cases = vec![
        (new_card(), "Банковская карта (номер, CVV, банк)", "card", RecordKind::Card),
        (new_token(), "Токен (токен, от чего)", "token", RecordKind::Token),
        (new_doc(), "Документ (текст)", "document", RecordKind::Document),
        (
            new_passport(),
            "Пасспорт (ФИО, дата рождения, пол, серия, номер)",
            "passport",
            RecordKind::Passport,
        ),
        (new_password(), "Пароль (пароль)", "password", RecordKind::Password),
        (new_wificonfig(), "Wifi сеть (ip/название, пароль)", "wificonfig", RecordKind::WifiConfig),
    ];
    for (record, title, tag, kind) in cases {
        assert_eq!(record.name(), title);
        assert_eq!(record.formal_name(), tag);
        assert_eq!(record.kind(), kind);
        assert_eq!(kind.formal_name(), tag);
        assert_eq!(RecordKind::from_formal_name(tag), Some(kind));
        assert_eq!(format!("{:?}", DataType::blank(kind)), format!("{:?}", record));
    }
    assert_eq!(RecordKind::from_formal_name("Card"), None);
    assert_eq!(RecordKind::from_formal_name(""), None);
}

#[test]
fn blank_records() {
    assert!(matches!(new_card(), DataType::Card { num, cvv: 0, bank } if num.is_empty() && bank.is_empty()));
    assert!(matches!(new_token(), DataType::Token { token, from } if token.is_empty() && from.is_empty()));
    assert!(matches!(new_doc(), DataType::Document { text } if text.is_empty()));
    assert!(matches!(
        new_passport(),
        DataType::Passport { fsl, date, sex: Sex::NotDeclaredYet, serial: 0, num: 0 }
            if fsl.is_empty() && date.is_empty()
    ));
    assert!(matches!(new_wificonfig(), DataType::WifiConfig { name, password } if name.is_empty() && password.is_empty()));
    assert!(matches!(new_password(), DataType::Password { password } if password.is_empty()));
}

#[test]
fn sections_follow_the_alphabet_of_tags() {
    let mut tags: Vec<String> = Vec::new();
    for index in 0..6 {
        let kind = RecordKind::from_section_index(index).unwrap();
        assert_eq!(kind.section_index(), index);
        tags.push(kind.formal_name());
    }
    let mut sorted = tags.clone();
    sorted.sort();
    assert_eq!(tags, sorted);
    assert_eq!(tags, vec!["card", "document", "passport", "password", "token", "wificonfig"]);
    assert_eq!(RecordKind::from_section_index(6), None);
}

#[test]
fn menu_of_kinds() {
    assert_eq!(RecordKind::from_menu_number(0), None);
    assert_eq!(RecordKind::from_menu_number(1), Some(RecordKind::Password));
    assert_eq!(RecordKind::from_menu_number(2), Some(RecordKind::Card));
    assert_eq!(RecordKind::from_menu_number(3), Some(RecordKind::Passport));
    assert_eq!(RecordKind::from_menu_number(4), Some(RecordKind::Document));
    assert_eq!(RecordKind::from_menu_number(5), Some(RecordKind::WifiConfig));
    assert_eq!(RecordKind::from_menu_number(6), Some(RecordKind::Token));
    assert_eq!(RecordKind::from_menu_number(7), None);
}

#[test]
fn stored_row_from_its_columns() {
    let row = UserData::new(5, vec![1, 2], "wificonfig".to_string(), [9u8; 24], vec![3], vec![4, 5]);
    assert_eq!(row.id, 5);
    assert_eq!(row.data, vec![1, 2]);
    assert_eq!(row.notice, vec![3]);
    assert_eq!(row.name, vec![4, 5]);
    assert_eq!(row.nonce, [9u8; 24]);
    assert_eq!(row.data_type.kind(), RecordKind::WifiConfig);
    assert_eq!(format!("{:?}", row.data_type), format!("{:?}", new_wificonfig()));
}

#[test]
fn stored_row_with_an_unknown_tag() {
    assert!(UserData::try_new(1, vec![], "secret".to_string(), [0u8; 24], vec![], vec![]).is_none());
    let row = UserData::try_new(1, vec![], "token".to_string(), [0u8; 24], vec![], vec![]).unwrap();
    assert_eq!(row.data_type.kind(), RecordKind::Token);
}

#[test]
fn record_with_name_and_notice() {
    let row = DataAndMeta::new(new_doc(), "name".to_string(), "notice".to_string());
    assert_eq!(row.name, "name");
    assert_eq!(row.notice, "notice");
    assert_eq!(row.data.kind(), RecordKind::Document);
    let typed = DataFromUser::new(Some("n".to_string()), None, new_card(), "data".to_string());
    assert_eq!(typed.name, Some("n".to_string()));
    assert_eq!(typed.notice, None);
    assert_eq!(typed.data, "data");
    assert_eq!(typed.data_type.kind(), RecordKind::Card);
}

#[test]
fn update_or_save_prefers_the_new_value() {
    assert_eq!(update_or_save(Some(1), 2), 1);
    assert_eq!(update_or_save(None, 2), 2);
    assert_eq!(update_or_save(Some("a".to_string()), "b".to_string()), "a");
    assert_eq!(update_or_save(None, "b".to_string()), "b");
}

#[test]
fn failures_read_as_sentences() {
    assert_eq!(VaultError::RngFailure.message(), "Ошибка при генерации соли в битовом виде");
    assert_eq!(VaultError::HashingFailed.message(), "Ошибка хэширования");
    assert_eq!(
        VaultError::MalformedVerifier.message(),
        VaultError::AuthenticationFailed.message()
    );
    assert_eq!(VaultError::AuthenticationFailed.message(), "Неверный пароль или логин!");
    let all = vec![
        VaultError::RngFailure,
        VaultError::HashingFailed,
        VaultError::KeyDerivationFailed,
        VaultError::NonceGenerationFailed,
        VaultError::EncryptionFailed,
        VaultError::DecryptionFailed,
        VaultError::CorruptRecord,
        VaultError::MalformedVerifier,
        VaultError::AuthenticationFailed,
        VaultError::StorageError,
    ];
    for e in all {
        assert!(!e.message().is_empty());
    }
    assert_ne!(AccountManipulation::Auth, AccountManipulation::Regist);
}

#[test]
fn failures_that_ask_for_the_login_again() {
    assert!(VaultError::MalformedVerifier.asks_again());
    assert!(VaultError::AuthenticationFailed.asks_again());
    for other in [
        VaultError::RngFailure,
        VaultError::HashingFailed,
        VaultError::KeyDerivationFailed,
        VaultError::NonceGenerationFailed,
        VaultError::EncryptionFailed,
        VaultError::DecryptionFailed,
        VaultError::CorruptRecord,
        VaultError::StorageError,
    ] {
        assert!(!other.asks_again());
    }
}
