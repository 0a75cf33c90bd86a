//! The ways in which an operation of the vault fails.
use vstd::prelude::*;

verus! {

/// Every failure is reported as one of these; none is swallowed.
#[derive(Debug, Clone, Copy, PartialEq, Eq, Structural)]
pub enum VaultError {
    /// The operating system's random source did not fill the salt.
    RngFailure,
    /// The password hash could not be computed.
    HashingFailed,
    /// The key could not be derived from salt and password.
    KeyDerivationFailed,
    /// The operating system's random source did not fill the nonce.
    NonceGenerationFailed,
    /// The cipher refused the plaintext.
    EncryptionFailed,
    /// The ciphertext did not authenticate under this key and nonce.
    DecryptionFailed,
    /// The ciphertext authenticated, and what it held is no record.
    CorruptRecord,
    /// The stored verifier is not a password hash.
    MalformedVerifier,
    /// The password does not match the stored verifier.
    AuthenticationFailed,
    /// The store failed.
    StorageError,
}

impl VaultError {
    /// The sentence shown for this failure.
    pub open spec fn text(self) -> Seq<char> {
        match self {
            VaultError::RngFailure => "Ошибка при генерации соли в битовом виде"@,
            VaultError::HashingFailed => "Ошибка хэширования"@,
            VaultError::KeyDerivationFailed => "Ошибка получения ключа шифрования"@,
            VaultError::NonceGenerationFailed => "Ошибка генерации nonce"@,
            VaultError::EncryptionFailed => "Ошибка шифрования"@,
            VaultError::DecryptionFailed => "Ошибка расшифровки"@,
            VaultError::CorruptRecord => "Запись повреждена"@,
            VaultError::MalformedVerifier | VaultError::AuthenticationFailed =>
                "Неверный пароль или логин!"@,
            VaultError::StorageError => "Ошибка базы данных"@,
        }
    }

    /// True for the two failures of a login that the user may not tell
    /// apart: a verifier that is no password hash, and a password that does
    /// not match.
    pub open spec fn refuses_login(self) -> bool {
        self == VaultError::MalformedVerifier || self == VaultError::AuthenticationFailed
    }

    /// Decides whether a failed login is answered by asking for login and
    /// password again. That is so for a malformed verifier and for a wrong
    /// password alike, and both are shown by the same sentence; any other
    /// failure ends the login.
    pub fn asks_again(&self) -> (r: bool)
        ensures
            r == self.refuses_login(),
            r ==> self.text() == VaultError::AuthenticationFailed.text(),
    {
        match self {
            VaultError::MalformedVerifier | VaultError::AuthenticationFailed => true,
            _ => false,
        }
    }

    /// The sentence shown for this failure. A malformed verifier and a wrong
    /// password read the same.
    pub fn message(&self) -> (r: String)
        ensures
            r@ == self.text(),
    {
        match self {
            VaultError::RngFailure => "Ошибка при генерации соли в битовом виде".to_string(),
            VaultError::HashingFailed => "Ошибка хэширования".to_string(),
            VaultError::KeyDerivationFailed => "Ошибка получения ключа шифрования".to_string(),
            VaultError::NonceGenerationFailed => "Ошибка генерации nonce".to_string(),
            VaultError::EncryptionFailed => "Ошибка шифрования".to_string(),
            VaultError::DecryptionFailed => "Ошибка расшифровки".to_string(),
            VaultError::CorruptRecord => "Запись повреждена".to_string(),
            VaultError::MalformedVerifier | VaultError::AuthenticationFailed =>
                "Неверный пароль или логин!".to_string(),
            VaultError::StorageError => "Ошибка базы данных".to_string(),
        }
    }
}

} // verus!
