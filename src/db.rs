use vstd::prelude::*;
use crate::key_derivation::{derivation_result, session_key, KeyManager, SaltFile};

verus! {

/// How a vault is protected; fixed when it is registered.
#[derive(Debug, Clone, Copy, PartialEq, Eq, Structural)]
pub enum ProtectionMode {
    /// The store itself refuses to open without the session key.
    CipherProtected,
    /// The store opens freely; a verification row holding the key is checked.
    PlainVerified,
}

/// Where a session stands.
#[derive(Debug, Clone, Copy, PartialEq, Eq, Structural)]
pub enum VaultState {
    Unopened,
    Authenticating,
    Open,
    Closed,
}

/// Failures of registration and login; login failures are deliberately
/// undifferentiated.
#[derive(Debug, Clone, Copy, PartialEq, Eq, Structural)]
pub enum VaultError {
    /// Empty master password, or the store could not be created.
    Registration,
    /// Wrong password, or anything else that kept the vault from opening.
    Authentication,
    /// An operation that needs an open vault was asked of one that is not.
    NotOpen,
}

/// What the caller must do next with the backing store during a login.
#[derive(Debug, Clone, Copy, PartialEq, Eq, Structural)]
pub enum LoginStep {
    /// Open the store with the candidate key as its cipher key and run a
    /// cheap metadata read; report whether it succeeded.
    TryCipherOpen,
    /// Open the store in plain mode and read the verification row; report
    /// what it holds, or nothing.
    ReadVerificationRow,
    /// The vault is open; nothing more to do.
    Done,
}

/// The vault manager: decisions of registration and login over the backing
/// store, whose I/O the caller performs.
pub struct DBManager;

/// The session slot: the state, and the key and mode of an open vault.
pub struct VaultSession {
    pub state: VaultState,
    pub mode: Option<ProtectionMode>,
    pub key: Option<[u8; 32]>,
    pub candidate: Option<[u8; 32]>,
}

impl VaultSession {
    /// A key and a mode are held exactly while the vault is open, and a
    /// candidate key exactly while a login is being decided.
    pub open spec fn wf(&self) -> bool {
        &&& (self.state == VaultState::Open) == (self.key is Some)
        &&& (self.state == VaultState::Open) == (self.mode is Some)
        &&& (self.state == VaultState::Authenticating) == (self.candidate is Some)
    }

    /// The closed session: no key, no mode, no candidate.
    pub open spec fn is_closed(&self) -> bool {
        &&& self.state == VaultState::Closed
        &&& self.key is None
        &&& self.mode is None
        &&& self.candidate is None
    }

    /// A session in which no vault has been opened yet.
    pub fn new() -> (r: VaultSession)
        ensures
            r.wf(),
            r.state == VaultState::Unopened,
    {
        VaultSession { state: VaultState::Unopened, mode: None, key: None, candidate: None }
    }

    /// Records a completed registration: with the store created, the vault is
    /// open under `key` in `mode`; otherwise the session is closed and the
    /// registration fails.
    pub fn complete_registration(&mut self, key: [u8; 32], mode: ProtectionMode, store_created: bool) -> (r: Result<(), VaultError>)
        ensures
            final(self).wf(),
            store_created ==> r is Ok && final(self).state == VaultState::Open
                && final(self).key == Some(key) && final(self).mode == Some(mode),
            !store_created ==> r == Err::<(), VaultError>(VaultError::Registration) && final(self).is_closed(),
    {
        if store_created {
            self.state = VaultState::Open;
            self.key = Some(key);
            self.mode = Some(mode);
            self.candidate = None;
            Ok(())
        } else {
            self.logout();
            Err(VaultError::Registration)
        }
    }

    /// Starts a login with the key derived from the offered password. Any
    /// previously open vault is dropped. The store-level cipher is tried first.
    pub fn begin_login(&mut self, key: [u8; 32]) -> (r: LoginStep)
        ensures
            final(self).wf(),
            final(self).state == VaultState::Authenticating,
            final(self).candidate == Some(key),
            r == LoginStep::TryCipherOpen,
    {
        self.state = VaultState::Authenticating;
        self.key = None;
        self.mode = None;
        self.candidate = Some(key);
        LoginStep::TryCipherOpen
    }

    /// Takes the outcome of opening the store with the candidate key as its
    /// cipher key. A store that also reads with no key at all is not
    /// cipher-protected, so its acceptance proves nothing. Acceptance by a
    /// protected store opens the vault at once; otherwise the verification
    /// row is to be read.
    pub fn cipher_open_result(&mut self, readable_without_key: bool, accepted_key: bool) -> (r: LoginStep)
        requires
            old(self).wf(),
            old(self).state == VaultState::Authenticating,
        ensures
            final(self).wf(),
            (accepted_key && !readable_without_key) ==> r == LoginStep::Done && final(self).state == VaultState::Open
                && final(self).key == old(self).candidate
                && final(self).mode == Some(ProtectionMode::CipherProtected),
            !(accepted_key && !readable_without_key) ==> r == LoginStep::ReadVerificationRow && *final(self) == *old(self),
    {
        if accepted_key && !readable_without_key {
            self.key = self.candidate;
            self.candidate = None;
            self.mode = Some(ProtectionMode::CipherProtected);
            self.state = VaultState::Open;
            LoginStep::Done
        } else {
            LoginStep::ReadVerificationRow
        }
    }

    /// Takes what the plain store's verification row holds (nothing when the
    /// store or the row could not be read). The vault opens only when the row
    /// equals the candidate key byte for byte; otherwise the session closes.
    pub fn verification_row_result(&mut self, row: Option<Vec<u8>>) -> (r: Result<ProtectionMode, VaultError>)
        requires
            old(self).wf(),
            old(self).state == VaultState::Authenticating,
        ensures
            final(self).wf(),
            r is Ok <==> (row matches Some(v) && v@ == old(self).candidate.unwrap()@),
            r is Ok ==> r == Ok::<ProtectionMode, VaultError>(ProtectionMode::PlainVerified)
                && final(self).state == VaultState::Open && final(self).key == old(self).candidate
                && final(self).mode == Some(ProtectionMode::PlainVerified),
            r is Err ==> r == Err::<ProtectionMode, VaultError>(VaultError::Authentication) && final(self).is_closed(),
    {
        let candidate = match self.candidate {
            Some(k) => k,
            None => {
                self.logout();
                return Err(VaultError::Authentication);
            },
        };
        let matched = match &row {
            Some(v) => keys_match(v.as_slice(), &candidate),
            None => false,
        };
        if matched {
            self.key = Some(candidate);
            self.candidate = None;
            self.mode = Some(ProtectionMode::PlainVerified);
            self.state = VaultState::Open;
            Ok(ProtectionMode::PlainVerified)
        } else {
            self.logout();
            Err(VaultError::Authentication)
        }
    }

    /// Discards the key and closes the session; closing a closed session
    /// changes nothing.
    pub fn logout(&mut self)
        ensures
            final(self).wf(),
            final(self).is_closed(),
    {
        self.state = VaultState::Closed;
        self.key = None;
        self.mode = None;
        self.candidate = None;
    }

    /// The session key, available only while the vault is open.
    pub fn session_key(&self) -> (r: Result<[u8; 32], VaultError>)
        requires
            self.wf(),
        ensures
            self.state == VaultState::Open ==> r == Ok::<[u8; 32], VaultError>(self.key.unwrap()),
            self.state != VaultState::Open ==> r == Err::<[u8; 32], VaultError>(VaultError::NotOpen),
    {
        match self.key {
            Some(k) => Ok(k),
            None => Err(VaultError::NotOpen),
        }
    }
}

/// The lower-case hexadecimal digit for a value below 16.
pub open spec fn hex_digit(v: u8) -> u8 {
    if v < 10 { (48 + v) as u8 } else { (87 + v) as u8 }
}

/// Lower-case hexadecimal text of `bytes`, two digits per byte, high nibble first.
pub open spec fn hex_text(bytes: Seq<u8>) -> Seq<u8>
    decreases bytes.len(),
{
    if bytes.len() == 0 {
        Seq::empty()
    } else {
        hex_text(bytes.drop_last()) + seq![hex_digit(bytes.last() / 16), hex_digit(bytes.last() % 16)]
    }
}

fn hex_digit_of(v: u8) -> (r: u8)
    requires
        v < 16,
    ensures
        r == hex_digit(v),
{
    if v < 10 { 48 + v } else { 87 + v }
}

/// Byte-for-byte comparison of a stored row with a derived key.
pub fn keys_match(stored: &[u8], derived: &[u8; 32]) -> (r: bool)
    ensures
        r == (stored@ == derived@),
{
    if stored.len() != 32 {
        return false;
    }
    let mut i: usize = 0;
    while i < 32
        invariant
            stored@.len() == 32,
            derived@.len() == 32,
            i <= 32,
            forall|j: int| 0 <= j < i ==> stored@[j] == derived@[j],
        decreases 32 - i,
    {
        if stored[i] != derived[i] {
            return false;
        }
        i = i + 1;
    }
    assert(stored@ =~= derived@);
    true
}

/// What registering a vault asks the caller to do with the store: open it
/// in `mode` (with `key` as the store's cipher key when cipher-protected),
/// persist `new_salt` when present, and write `verification_row` when present.
pub struct RegistrationPlan {
    pub mode: ProtectionMode,
    pub key: [u8; 32],
    pub new_salt: Option<Vec<u8>>,
    pub verification_row: Option<Vec<u8>>,
}

/// The salt that a key was derived from: the stored one, else the new one.
pub open spec fn salt_used(stored_salt: SaltFile, new_salt: Option<Vec<u8>>) -> Seq<u8> {
    match stored_salt {
        SaltFile::Present(s) => s@,
        _ => new_salt.unwrap()@,
    }
}

impl DBManager {
    /// Plans the registration of a new vault with `master_password`. A vault
    /// that already exists at the target location is refused (removing it is
    /// the caller's decision). The key is derived from the installation's
    /// salt as read from storage (a new salt is drawn when there is no salt
    /// file). A plain vault stores the key as its verification row; a
    /// cipher-protected one stores none.
    pub fn register(master_password: &str, protect_with_cipher: bool, store_exists: bool, stored_salt: SaltFile) -> (r: Result<RegistrationPlan, VaultError>)
        ensures
            master_password@.len() == 0 || store_exists || stored_salt is Unreadable
                ==> r == Err::<RegistrationPlan, VaultError>(VaultError::Registration),
            r matches Err(e) ==> e == VaultError::Registration,
            stored_salt is Present && master_password@.len() > 0 && !store_exists ==> (
                r is Ok <==> derivation_result(master_password@, stored_salt->Present_0@) is Ok),
            r matches Ok(p) ==> (
                (stored_salt is Present <==> p.new_salt is None)
                && (p.new_salt matches Some(n) ==> n@.len() == KeyManager::LEN_SALT)
                && derivation_result(master_password@, salt_used(stored_salt, p.new_salt)) is Ok
                && p.key@ == session_key(master_password@, salt_used(stored_salt, p.new_salt))
                && (protect_with_cipher ==> p.mode == ProtectionMode::CipherProtected && p.verification_row is None)
                && (!protect_with_cipher ==> p.mode == ProtectionMode::PlainVerified
                    && p.verification_row is Some && p.verification_row.unwrap()@ == p.key@)),
    {
        let mode = match Self::registration_mode(master_password, protect_with_cipher) {
            Ok(m) => m,
            Err(e) => return Err(e),
        };
        if store_exists {
            return Err(VaultError::Registration);
        }
        let (key, new_salt) = match KeyManager::get_encryption_key(master_password, stored_salt) {
            Ok(p) => p,
            Err(_) => return Err(VaultError::Registration),
        };
        let verification_row = if protect_with_cipher {
            None
        } else {
            Some(Self::verification_row(&key))
        };
        Ok(RegistrationPlan { mode, key, new_salt, verification_row })
    }

    /// Derives the candidate key for a login from the offered password and
    /// the installation's salt as read from storage. Any failure is an
    /// authentication failure.
    pub fn login(master_password: &str, stored_salt: SaltFile) -> (r: Result<([u8; 32], Option<Vec<u8>>), VaultError>)
        ensures
            stored_salt is Present ==> (r is Ok <==> derivation_result(master_password@, stored_salt->Present_0@) is Ok),
            stored_salt is Unreadable ==> r is Err,
            r matches Ok((k, new_salt)) ==> (
                (stored_salt is Present <==> new_salt is None)
                && derivation_result(master_password@, salt_used(stored_salt, new_salt)) is Ok
                && k@ == session_key(master_password@, salt_used(stored_salt, new_salt))),
            r matches Err(e) ==> e == VaultError::Authentication,
    {
        match KeyManager::get_encryption_key(master_password, stored_salt) {
            Ok(p) => Ok(p),
            Err(_) => Err(VaultError::Authentication),
        }
    }

    /// Decides how a new vault is to be protected. An empty master password
    /// is refused.
    pub fn registration_mode(master_password: &str, protect_with_cipher: bool) -> (r: Result<ProtectionMode, VaultError>)
        ensures
            master_password@.len() == 0 ==> r == Err::<ProtectionMode, VaultError>(VaultError::Registration),
            master_password@.len() > 0 && protect_with_cipher ==> r == Ok::<ProtectionMode, VaultError>(ProtectionMode::CipherProtected),
            master_password@.len() > 0 && !protect_with_cipher ==> r == Ok::<ProtectionMode, VaultError>(ProtectionMode::PlainVerified),
    {
        if master_password.is_empty() {
            Err(VaultError::Registration)
        } else if protect_with_cipher {
            Ok(ProtectionMode::CipherProtected)
        } else {
            Ok(ProtectionMode::PlainVerified)
        }
    }

    /// The store's cipher key as the ASCII text `x'<64 hex digits>'`, the
    /// raw-key form of the store's key setting.
    pub fn cipher_key_text(key: &[u8; 32]) -> (r: Vec<u8>)
        ensures
            r@ == seq![120u8, 39u8] + hex_text(key@) + seq![39u8],
    {
        let mut v: Vec<u8> = Vec::new();
        v.push(120u8);
        v.push(39u8);
        let mut i: usize = 0;
        while i < 32
            invariant
                key@.len() == 32,
                i <= 32,
                v@ == seq![120u8, 39u8] + hex_text(key@.subrange(0, i as int)),
            decreases 32 - i,
        {
            let b = key[i];
            v.push(hex_digit_of(b / 16));
            v.push(hex_digit_of(b % 16));
            proof {
                let next = key@.subrange(0, i as int + 1);
                assert(next.drop_last() =~= key@.subrange(0, i as int));
                assert(next.last() == b);
            }
            i = i + 1;
            assert(v@ =~= seq![120u8, 39u8] + hex_text(key@.subrange(0, i as int)));
        }
        v.push(39u8);
        assert(key@.subrange(0, 32) =~= key@);
        v
    }

    /// The verification row that a plain vault stores: the derived key itself.
    pub fn verification_row(key: &[u8; 32]) -> (r: Vec<u8>)
        ensures
            r@ == key@,
            r@.len() == 32,
    {
        let mut v: Vec<u8> = Vec::new();
        let mut i: usize = 0;
        while i < 32
            invariant
                key@.len() == 32,
                i <= 32,
                v@ == key@.subrange(0, i as int),
            decreases 32 - i,
        {
            v.push(key[i]);
            i = i + 1;
            assert(v@ =~= key@.subrange(0, i as int));
        }
        assert(v@ =~= key@);
        v
    }
}

} // verus!
