use vstd::prelude::*;
use vstd::utf8::encode_utf8;
use crate::key_derivation::fill_from_os_rng;
use crate::field_cipher::{
    aes_gcm_seal, base64_decoded, can_seal, fresh_nonce, open_field, opened_field, seal_with_nonce,
    sealed_field, CipherError, NONCE_BYTES, TAG_BYTES,
};

verus! {

/// Relies on uuid's `Builder::from_random_bytes` and the hyphenated
/// `to_string` of the resulting version-4 identifier: 36 characters.
#[verifier::external_body]
fn uuid_v4_text(random: &Vec<u8>) -> (r: String)
    requires
        random@.len() == 16,
    ensures
        r@.len() == 36,
{
    let mut bytes = [0u8; 16];
    bytes.copy_from_slice(random.as_slice());
    uuid::Builder::from_random_bytes(bytes).into_uuid().to_string()
}

/// A fresh random record identifier, or `None` when the operating system's
/// generator fails.
pub fn new_record_id() -> (r: Option<String>)
    ensures
        r matches Some(id) ==> id@.len() == 36,
{
    let mut random: Vec<u8> = Vec::new();
    let mut i: usize = 0;
    while i < 16
        invariant
            i <= 16,
            random@.len() == i,
        decreases 16 - i,
    {
        random.push(0u8);
        i = i + 1;
    }
    if fill_from_os_rng(&mut random) {
        Some(uuid_v4_text(&random))
    } else {
        None
    }
}

/// One stored secret. Timestamps are seconds since the Unix epoch. While
/// `nonce` is present, `password` holds the base64 ciphertext; once revealed
/// (or for a record written without encryption) it holds the plaintext.
#[derive(Debug, Clone)]
pub struct PasswordEntry {
    pub id: String,
    pub title: String,
    pub username: Option<String>,
    pub password: String,
    pub url: Option<String>,
    pub notes: Option<String>,
    pub created_at: i64,
    pub updated_at: Option<i64>,
    pub deleted: bool,
    pub nonce: Option<String>,
}

/// Why a record's input was refused.
#[derive(Debug, Clone, Copy, PartialEq, Eq, Structural)]
pub enum EntryError {
    /// Title, username or password is missing or empty.
    MissingField,
    /// The notes are longer than `MAX_NOTES_BYTES`.
    NotesTooLong,
    /// The password could not be encrypted.
    Encryption,
    /// No record identifier could be drawn.
    IdGeneration,
    /// A stored password could not be decrypted.
    Decryption,
}

/// Longest accepted notes, in bytes.
pub const MAX_NOTES_BYTES: usize = 500;

/// Whether optional notes fit the length limit.
pub open spec fn notes_fit(notes: Option<String>) -> bool {
    match notes {
        Some(n) => encode_utf8(n@).len() <= MAX_NOTES_BYTES,
        None => true,
    }
}

/// The outcome of validating a record's input: the required fields first,
/// then the notes.
pub open spec fn input_check(has_title: bool, has_username: bool, has_password: bool, notes: Option<String>) -> Result<(), EntryError> {
    if !has_title || !has_username || !has_password {
        Err(EntryError::MissingField)
    } else if !notes_fit(notes) {
        Err(EntryError::NotesTooLong)
    } else {
        Ok(())
    }
}

/// The password a record shows once revealed under `key`, if it can be.
pub open spec fn revealed_password(e: PasswordEntry, key: Seq<u8>) -> Option<Seq<char>> {
    match e.nonce {
        Some(n) => opened_field(e.password@, n@, key),
        None => Some(e.password@),
    }
}

/// `b` is `a` with its password replaced by `password`.
pub open spec fn with_password(a: PasswordEntry, b: PasswordEntry, password: Seq<char>) -> bool {
    b.id == a.id && b.title == a.title && b.username == a.username && b.url == a.url
        && b.notes == a.notes && b.created_at == a.created_at && b.updated_at == a.updated_at
        && b.deleted == a.deleted && b.nonce == a.nonce && b.password@ == password
}

fn notes_within_limit(notes: &Option<String>) -> (r: bool)
    ensures
        r == notes_fit(*notes),
{
    match notes {
        Some(n) => n.as_str().as_bytes().len() <= MAX_NOTES_BYTES,
        None => true,
    }
}

impl PasswordEntry {
    /// Length of a nonce, in bytes.
    pub const LEN_NONCE: usize = 12;

    /// Encrypts a password under a 32-byte key with a fresh random nonce.
    /// Returns the ciphertext and the nonce, both as base64 text.
    pub fn encrypt_password(password: &str, key: &[u8]) -> (r: Result<(String, Option<String>), CipherError>)
        ensures
            !can_seal(password@, key@.len()) ==> r == Err::<(String, Option<String>), CipherError>(CipherError::Encryption),
            r matches Ok((c, n)) ==> n is Some,
            r matches Ok((c, Some(n))) ==> exists|nb: Seq<u8>|
                nb.len() == NONCE_BYTES && #[trigger] sealed_field(password@, key@, nb) == (c@, n@),
            r matches Ok((c, Some(n))) ==> opened_field(c@, n@, key@) == Some(password@),
            r matches Ok((c, Some(n))) ==> exists|nb: Seq<u8>| nb.len() == NONCE_BYTES
                && #[trigger] base64_decoded(n@) == Some(nb)
                && base64_decoded(c@) == Some(aes_gcm_seal(key@, nb, encode_utf8(password@))),
            r matches Ok((c, n)) ==> c@.len() == 4 * ((encode_utf8(password@).len() + TAG_BYTES + 2) / 3) && c@.len() > 0,
            r matches Err(e) ==> e == CipherError::Encryption,
    {
        if !(key.len() == 32 && (password.as_bytes().len() as u64) <= crate::field_cipher::MAX_PLAINTEXT_BYTES) {
            return Err(CipherError::Encryption);
        }
        let nonce = match fresh_nonce() {
            Some(n) => n,
            None => return Err(CipherError::Encryption),
        };
        match seal_with_nonce(password, key, nonce.as_slice()) {
            Ok((c, n)) => Ok((c, Some(n))),
            Err(e) => Err(e),
        }
    }

    /// Decrypts a base64 ciphertext with its base64 nonce under `key`. Every
    /// failure (wrong key, tampering, malformed text) is the same error.
    pub fn decrypt_password(ciphertext: &str, nonce: &str, key: &[u8]) -> (r: Result<String, CipherError>)
        ensures
            r is Ok <==> opened_field(ciphertext@, nonce@, key@) is Some,
            r matches Ok(p) ==> opened_field(ciphertext@, nonce@, key@) == Some(p@),
            r matches Err(e) ==> e == CipherError::Decryption,
    {
        open_field(ciphertext, nonce, key)
    }

    /// Validates the input of a new record.
    pub fn validate_new(title: &str, username: &Option<String>, password: &str, notes: &Option<String>) -> (r: Result<(), EntryError>)
        ensures
            r == input_check(title@.len() > 0, username is Some, password@.len() > 0, *notes),
    {
        if title.is_empty() || username.is_none() || password.is_empty() {
            return Err(EntryError::MissingField);
        }
        if !notes_within_limit(notes) {
            return Err(EntryError::NotesTooLong);
        }
        Ok(())
    }

    /// Validates the input of an update to a record.
    pub fn validate_update(title: &str, username: &str, password: &str, notes: &Option<String>) -> (r: Result<(), EntryError>)
        ensures
            r == input_check(title@.len() > 0, username@.len() > 0, password@.len() > 0, *notes),
    {
        if title.is_empty() || username.is_empty() || password.is_empty() {
            return Err(EntryError::MissingField);
        }
        if !notes_within_limit(notes) {
            return Err(EntryError::NotesTooLong);
        }
        Ok(())
    }

    /// Builds a new, live record whose password is encrypted under `key`,
    /// with a fresh random identifier and `created_at` as its creation time.
    pub fn create(
        title: String,
        username: Option<String>,
        password: &str,
        url: Option<String>,
        notes: Option<String>,
        key: &[u8],
        created_at: i64,
    ) -> (r: Result<PasswordEntry, EntryError>)
        ensures
            input_check(title@.len() > 0, username is Some, password@.len() > 0, notes) matches Err(e)
                ==> r == Err::<PasswordEntry, EntryError>(e),
            input_check(title@.len() > 0, username is Some, password@.len() > 0, notes) is Ok
                && !can_seal(password@, key@.len()) ==> r == Err::<PasswordEntry, EntryError>(EntryError::Encryption),
            input_check(title@.len() > 0, username is Some, password@.len() > 0, notes) is Ok
                ==> (r matches Err(e) ==> e == EntryError::Encryption || e == EntryError::IdGeneration),
            r matches Err(e) ==> e != EntryError::Decryption,
            r matches Ok(e) ==> exists|nb: Seq<u8>| nb.len() == NONCE_BYTES
                && #[trigger] sealed_field(password@, key@, nb) == (e.password@, e.nonce.unwrap()@),
            r matches Ok(e) ==> e.created_at == created_at && e.title == title && e.username == username && e.url == url
                && e.notes == notes && !e.deleted && e.updated_at is None && e.id@.len() == 36
                && e.nonce is Some && revealed_password(e, key@) == Some(password@),
    {
        match Self::validate_new(title.as_str(), &username, password, &notes) {
            Ok(()) => {},
            Err(e) => return Err(e),
        }
        let (ciphertext, nonce) = match Self::encrypt_password(password, key) {
            Ok(p) => p,
            Err(_) => return Err(EntryError::Encryption),
        };
        let id = match new_record_id() {
            Some(id) => id,
            None => return Err(EntryError::IdGeneration),
        };
        Ok(PasswordEntry {
            id,
            title,
            username,
            password: ciphertext,
            url,
            notes,
            created_at,
            updated_at: None,
            deleted: false,
            nonce,
        })
    }

    /// Prepares an update of a record: validates the input, encrypts the new
    /// password under `key` with a fresh nonce, and stamps it with
    /// `updated_at`. Returns the ciphertext, the nonce and the update time.
    pub fn sealed_update(title: &str, username: &str, password: &str, notes: &Option<String>, key: &[u8], updated_at: i64) -> (r: Result<(String, Option<String>, i64), EntryError>)
        ensures
            input_check(title@.len() > 0, username@.len() > 0, password@.len() > 0, *notes) matches Err(e)
                ==> r == Err::<(String, Option<String>, i64), EntryError>(e),
            input_check(title@.len() > 0, username@.len() > 0, password@.len() > 0, *notes) is Ok
                && !can_seal(password@, key@.len()) ==> r == Err::<(String, Option<String>, i64), EntryError>(EntryError::Encryption),
            r matches Err(e) ==> e != EntryError::Decryption,
            input_check(title@.len() > 0, username@.len() > 0, password@.len() > 0, *notes) is Ok
                ==> (r matches Err(e) ==> e == EntryError::Encryption),
            r matches Ok((c, n, t)) ==> n is Some && t == updated_at
                && opened_field(c@, n.unwrap()@, key@) == Some(password@),
            r matches Ok((c, n, t)) ==> exists|nb: Seq<u8>| nb.len() == NONCE_BYTES
                && #[trigger] sealed_field(password@, key@, nb) == (c@, n.unwrap()@),
    {
        match Self::validate_update(title, username, password, notes) {
            Ok(()) => {},
            Err(e) => return Err(e),
        }
        let (ciphertext, nonce) = match Self::encrypt_password(password, key) {
            Ok(p) => p,
            Err(_) => return Err(EntryError::Encryption),
        };
        Ok((ciphertext, nonce, updated_at))
    }

    /// Replaces an encrypted password with its plaintext under `key`; a
    /// record without a nonce is returned unchanged.
    pub fn revealed(self, key: &[u8]) -> (r: Result<PasswordEntry, CipherError>)
        ensures
            r is Ok <==> revealed_password(self, key@) is Some,
            r matches Ok(e) ==> with_password(self, e, revealed_password(self, key@).unwrap()),
            r matches Err(e) ==> e == CipherError::Decryption,
    {
        let plain = match &self.nonce {
            Some(n) => match Self::decrypt_password(self.password.as_str(), n.as_str(), key) {
                Ok(p) => p,
                Err(e) => return Err(e),
            },
            None => return Ok(self),
        };
        Ok(PasswordEntry { password: plain, ..self })
    }

    /// Reveals every record of a listing under `key`, keeping their order; the
    /// first record that cannot be decrypted fails the whole listing.
    pub fn reveal_all(entries: Vec<PasswordEntry>, key: &[u8]) -> (r: Result<Vec<PasswordEntry>, CipherError>)
        ensures
            r is Ok <==> forall|i: int| 0 <= i < entries@.len() ==> #[trigger] revealed_password(entries@[i], key@) is Some,
            r matches Ok(v) ==> v@.len() == entries@.len() && forall|i: int| 0 <= i < entries@.len()
                ==> with_password(entries@[i], #[trigger] v@[i], revealed_password(entries@[i], key@).unwrap()),
            r matches Err(e) ==> e == CipherError::Decryption,
    {
        let ghost orig = entries@;
        let mut rest = entries;
        let mut out: Vec<PasswordEntry> = Vec::new();
        while rest.len() > 0
            invariant
                orig == entries@,
                out@.len() + rest@.len() == orig.len(),
                rest@ == orig.subrange(out@.len() as int, orig.len() as int),
                forall|i: int| 0 <= i < out@.len() ==> #[trigger] revealed_password(orig[i], key@) is Some,
                forall|i: int| 0 <= i < out@.len()
                    ==> with_password(orig[i], #[trigger] out@[i], revealed_password(orig[i], key@).unwrap()),
            decreases rest@.len(),
        {
            let e = rest.remove(0);
            proof {
                assert(e == orig[out@.len() as int]);
            }
            match e.revealed(key) {
                Ok(shown) => out.push(shown),
                Err(err) => {
                    proof {
                        let k = out@.len() as int;
                        assert(revealed_password(orig[k], key@) is None);
                        assert(0 <= k < orig.len());
                        assert(!(forall|i: int| 0 <= i < orig.len() ==> #[trigger] revealed_password(orig[i], key@) is Some));
                    }
                    return Err(err);
                },
            }
            proof {
                assert(rest@ =~= orig.subrange(out@.len() as int, orig.len() as int));
            }
        }
        Ok(out)
    }
}

} // verus!
