use vstd::prelude::*;
use vstd::utf8::encode_utf8;
use rand::TryRngCore;

verus! {

/// Longest password, in bytes, that Argon2 accepts.
pub const MAX_PASSWORD_BYTES: usize = 0xFFFF_FFFF;

/// Shortest salt, in bytes, that Argon2 accepts.
pub const MIN_SALT_BYTES: usize = 8;

/// Longest salt, in bytes, that Argon2 accepts.
pub const MAX_SALT_BYTES: usize = 0xFFFF_FFFF;

#[verifier::external_type_specification]
#[verifier::external_body]
pub struct ExArgon2Error(argon2::Error);

/// The 32-byte output of Argon2id (version 0x13) over `password` and `salt`
/// with the given memory cost (KiB), iteration count and parallelism.
pub uninterp spec fn argon2id_digest(
    password: Seq<u8>,
    salt: Seq<u8>,
    m_cost: u32,
    t_cost: u32,
    p_cost: u32,
) -> Seq<u8>;

/// Relies on argon2's `Params::new` and `Argon2::hash_password_into`: with valid
/// cost parameters, hashing fails only on a password longer than
/// `MAX_PWD_LEN` or a salt outside `MIN_SALT_LEN..=MAX_SALT_LEN`, and
/// otherwise fills the 32-byte output as a function of its inputs.
#[verifier::external_body]
fn argon2id_hash(
    password: &[u8],
    salt: &[u8],
    m_cost: u32,
    t_cost: u32,
    p_cost: u32,
) -> (r: Result<[u8; 32], argon2::Error>)
    requires
        1 <= p_cost <= 0xFF_FFFF,
        8 * p_cost <= m_cost,
        1 <= t_cost,
    ensures
        r.is_ok() <==> (password@.len() <= MAX_PASSWORD_BYTES && MIN_SALT_BYTES <= salt@.len() <= MAX_SALT_BYTES),
        r matches Ok(k) ==> k@ == argon2id_digest(password@, salt@, m_cost, t_cost, p_cost),
{
    let params = argon2::Params::new(m_cost, t_cost, p_cost, Some(32))?;
    let argon = argon2::Argon2::new(argon2::Algorithm::Argon2id, argon2::Version::V0x13, params);
    let mut key = [0u8; 32];
    argon.hash_password_into(password, salt, &mut key)?;
    Ok(key)
}

/// Relies on rand's `OsRng::try_fill_bytes`: overwrites every byte of `buf` with
/// bytes from the operating system's generator and reports whether it could.
#[verifier::external_body]
pub(crate) fn fill_from_os_rng(buf: &mut Vec<u8>) -> (ok: bool)
    ensures
        final(buf)@.len() == old(buf)@.len(),
{
    rand::rngs::OsRng.try_fill_bytes(buf.as_mut_slice()).is_ok()
}

/// Failures of the key manager.
#[derive(Debug, Clone, Copy, PartialEq, Eq, Structural)]
pub enum KeyError {
    /// The operating system's random generator could not produce a salt.
    SaltGeneration,
    /// Argon2 refused its inputs (a salt of unusable length, an oversized password).
    KeyDerivation,
    /// The salt file exists but could not be read.
    Io,
}

/// What reading the salt file gave.
#[derive(Debug, Clone, PartialEq, Eq)]
pub enum SaltFile {
    /// There is no salt file yet.
    Absent,
    /// The salt file holds these bytes.
    Present(Vec<u8>),
    /// The salt file exists but could not be read.
    Unreadable,
}

/// Owner of the salt lifecycle and of the password-based key derivation.
pub struct KeyManager;

/// Whether Argon2 accepts a password of `pw_bytes` bytes and a salt of `salt_len` bytes.
pub open spec fn derivation_accepts(pw_bytes: nat, salt_len: nat) -> bool {
    pw_bytes <= MAX_PASSWORD_BYTES && MIN_SALT_BYTES <= salt_len <= MAX_SALT_BYTES
}

/// The session key for a master password and salt: Argon2id with the fixed
/// cost parameters over the password's UTF-8 bytes.
pub open spec fn session_key(master_password: Seq<char>, salt: Seq<u8>) -> Seq<u8> {
    argon2id_digest(
        encode_utf8(master_password),
        salt,
        KeyManager::MEMORY_COST,
        KeyManager::ITERATIONS,
        KeyManager::PARALLELISM,
    )
}

/// What `derive_encryption_key` returns for a password and salt.
pub open spec fn derivation_result(master_password: Seq<char>, salt: Seq<u8>) -> Result<Seq<u8>, KeyError> {
    if derivation_accepts(encode_utf8(master_password).len(), salt.len()) {
        Ok(session_key(master_password, salt))
    } else {
        Err(KeyError::KeyDerivation)
    }
}

/// Key derivation is a function of the password and the salt alone: the same
/// pair gives the same outcome, in every call and every process.
pub proof fn lemma_derivation_deterministic(p1: Seq<char>, s1: Seq<u8>, p2: Seq<char>, s2: Seq<u8>)
    requires
        p1 == p2,
        s1 == s2,
    ensures
        derivation_result(p1, s1) == derivation_result(p2, s2),
{
}

impl KeyManager {
    /// Memory cost of Argon2id, in KiB (19 MiB).
    pub const MEMORY_COST: u32 = 19456;
    /// Passes over memory.
    pub const ITERATIONS: u32 = 2;
    /// Degree of parallelism.
    pub const PARALLELISM: u32 = 1;
    /// Length of a salt, in bytes.
    pub const LEN_SALT: usize = 16;
    /// Length of a session key, in bytes.
    pub const LEN_ENCRYPTION_KEY: usize = 32;

    /// Derives the 32-byte session key from a master password and a salt.
    /// Pure: the result depends on the two arguments alone.
    pub fn derive_encryption_key(master_password: &str, salt: &[u8]) -> (r: Result<[u8; 32], KeyError>)
        ensures
            r is Ok <==> derivation_result(master_password@, salt@) is Ok,
            r matches Ok(k) ==> k@ == session_key(master_password@, salt@),
            r matches Err(e) ==> e == KeyError::KeyDerivation,
    {
        let pw = master_password.as_bytes();
        match argon2id_hash(pw, salt, Self::MEMORY_COST, Self::ITERATIONS, Self::PARALLELISM) {
            Ok(key) => Ok(key),
            Err(_) => Err(KeyError::KeyDerivation),
        }
    }

    /// Draws a fresh random salt of `LEN_SALT` bytes.
    pub fn create_salt() -> (r: Result<Vec<u8>, KeyError>)
        ensures
            r matches Ok(s) ==> s@.len() == KeyManager::LEN_SALT,
            r matches Err(e) ==> e == KeyError::SaltGeneration,
    {
        let mut salt: Vec<u8> = Vec::new();
        let mut i: usize = 0;
        while i < Self::LEN_SALT
            invariant
                i <= KeyManager::LEN_SALT,
                salt@.len() == i,
            decreases KeyManager::LEN_SALT - i,
        {
            salt.push(0u8);
            i = i + 1;
        }
        if fill_from_os_rng(&mut salt) {
            Ok(salt)
        } else {
            Err(KeyError::SaltGeneration)
        }
    }

    /// Resolves the installation's salt from what reading its file gave. A
    /// stored salt is used as it is and never regenerated; an unreadable file
    /// is an I/O error and is left alone; only when there is no file is a
    /// fresh salt drawn, and the second component then asks the caller to
    /// persist it before any key is derived from it.
    pub fn read_salt(stored: SaltFile) -> (r: Result<(Vec<u8>, bool), KeyError>)
        ensures
            stored matches SaltFile::Present(s) ==> r matches Ok((t, persist)) && t@ == s@ && !persist,
            stored is Unreadable ==> r == Err::<(Vec<u8>, bool), KeyError>(KeyError::Io),
            stored is Absent ==> (r matches Ok((t, persist)) ==> persist && t@.len() == KeyManager::LEN_SALT),
            stored is Absent ==> (r matches Err(e) ==> e == KeyError::SaltGeneration),
    {
        match stored {
            SaltFile::Present(s) => Ok((s, false)),
            SaltFile::Unreadable => Err(KeyError::Io),
            SaltFile::Absent => match Self::create_salt() {
                Ok(s) => Ok((s, true)),
                Err(e) => Err(e),
            },
        }
    }

    /// Derives the session key from a master password and the installation's
    /// salt as read from storage (see `read_salt`). Returns the key and, when
    /// the salt was created here, the salt that must be persisted.
    pub fn get_encryption_key(master_password: &str, stored_salt: SaltFile) -> (r: Result<([u8; 32], Option<Vec<u8>>), KeyError>)
        ensures
            stored_salt matches SaltFile::Present(s) ==> (
                (r is Ok <==> derivation_result(master_password@, s@) is Ok)
                && (r matches Ok((k, fresh)) ==> fresh is None && k@ == session_key(master_password@, s@))
                && (r matches Err(e) ==> e == KeyError::KeyDerivation)
            ),
            stored_salt is Unreadable ==> r == Err::<([u8; 32], Option<Vec<u8>>), KeyError>(KeyError::Io),
            stored_salt is Absent ==> (r matches Err(e) ==> (e == KeyError::SaltGeneration
                || encode_utf8(master_password@).len() > MAX_PASSWORD_BYTES)),
            stored_salt is Absent ==> (r matches Ok((k, fresh)) ==> (
                fresh matches Some(s) && s@.len() == KeyManager::LEN_SALT
                && derivation_result(master_password@, s@) is Ok
                && k@ == session_key(master_password@, s@)
            )),
    {
        let (salt, persist) = match Self::read_salt(stored_salt) {
            Ok(p) => p,
            Err(e) => return Err(e),
        };
        let key = match Self::derive_encryption_key(master_password, salt.as_slice()) {
            Ok(k) => k,
            Err(e) => return Err(e),
        };
        if persist {
            Ok((key, Some(salt)))
        } else {
            Ok((key, None))
        }
    }
}

} // verus!
