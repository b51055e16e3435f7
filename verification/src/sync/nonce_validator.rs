//! Nonce checks between local and remote records.
//!
//! Each encrypted record carries the nonce it was encrypted with. A remote
//! record whose nonce differs from the local one was either re-encrypted or
//! belongs to another vault; the validator reports that and says how to recover.
use vstd::prelude::*;
use vstd::string::StringExecFns;
use crate::error::KeyringError;
use crate::sync::encoding::{base64_decode, base64_encode, base64_standard, base64_standard_decoded};
use crate::sync::records::{StoredRecord, SyncRecord};
use crate::text::{push_decimal, push_str, trim_chars, trimmed};

verus! {

/// Outcome of comparing two nonces.
#[derive(Debug, Clone, Copy, PartialEq, Eq, Structural)]
pub enum NonceStatus {
    /// The nonces are equal.
    Valid,
    /// The nonces differ.
    Mismatch,
}

impl NonceStatus {
    /// The text shown for this status.
    pub fn description(&self) -> (r: String)
        ensures
            r@ == (match self {
                NonceStatus::Valid => "Nonce is valid"@,
                NonceStatus::Mismatch => "Nonce mismatch detected"@,
            }),
    {
        match self {
            NonceStatus::Valid => String::from_str("Nonce is valid"),
            NonceStatus::Mismatch => String::from_str("Nonce mismatch detected"),
        }
    }
}

/// How to go on after a nonce check.
#[derive(Debug, Clone, Copy, PartialEq, Eq, Structural)]
pub enum RecoveryStrategy {
    /// Nothing to do.
    NoAction,
    /// Let the user choose between the local and the remote version.
    AskUser,
    /// Leave the record out of the sync.
    SkipRecord,
    /// Keep the local version and overwrite the remote one.
    UseLocal,
    /// Keep the remote version and overwrite the local one.
    UseRemote,
}

impl RecoveryStrategy {
    /// The text shown for this strategy.
    pub fn description(&self) -> (r: String)
        ensures
            r@ == (match self {
                RecoveryStrategy::NoAction => "No action needed"@,
                RecoveryStrategy::AskUser => "User resolution required"@,
                RecoveryStrategy::SkipRecord => "Skip this record"@,
                RecoveryStrategy::UseLocal => "Keep local version"@,
                RecoveryStrategy::UseRemote => "Use remote version"@,
            }),
    {
        match self {
            RecoveryStrategy::NoAction => String::from_str("No action needed"),
            RecoveryStrategy::AskUser => String::from_str("User resolution required"),
            RecoveryStrategy::SkipRecord => String::from_str("Skip this record"),
            RecoveryStrategy::UseLocal => String::from_str("Keep local version"),
            RecoveryStrategy::UseRemote => String::from_str("Use remote version"),
        }
    }
}

/// The outcome of checking a local nonce against a remote nonce in base64:
/// `None` where the remote text is not base64 of 12 bytes.
pub open spec fn nonce_check(local: Seq<u8>, remote_text: Seq<char>) -> Option<NonceStatus> {
    match base64_standard_decoded(remote_text) {
        Some(b) => if b.len() != 12 {
            None
        } else if b == local {
            Some(NonceStatus::Valid)
        } else {
            Some(NonceStatus::Mismatch)
        },
        None => None,
    }
}

/// The strategy recommended for a status.
pub open spec fn strategy_for(status: NonceStatus) -> RecoveryStrategy {
    match status {
        NonceStatus::Valid => RecoveryStrategy::NoAction,
        NonceStatus::Mismatch => RecoveryStrategy::AskUser,
    }
}

/// The lines shown when asking the user how to resolve a nonce mismatch.
pub open spec fn prompt_text(local: Seq<u8>, remote: Seq<u8>) -> Seq<Seq<char>> {
    seq![
        Seq::empty(),
        "⚠️  Nonce mismatch detected!"@,
        "Local nonce:  "@ + base64_standard(local),
        "Remote nonce: "@ + base64_standard(remote),
        Seq::empty(),
        "This usually means the cloud data belongs to a different vault."@,
        Seq::empty(),
        "Possible causes:"@,
        "  • Cloud is from a different vault (Passkey differs)"@,
        "  • Cloud data is corrupted"@,
        "  • Local file was modified"@,
        Seq::empty(),
        "How to handle?"@,
        "  [1] Use local nonce (overwrite cloud)"@,
        "  [2] Use remote nonce (overwrite local)"@,
        "  [3] Cancel"@,
    ]
}

/// The choice the user's answer stands for: `None` for "3" (cancel), the local
/// version for "1", for an empty answer and for anything else, the remote
/// version for "2". White space around the answer does not count.
pub open spec fn choice_of(answer: Seq<char>) -> Option<RecoveryStrategy> {
    let a = trimmed(answer);
    if a == seq!['2'] {
        Some(RecoveryStrategy::UseRemote)
    } else if a == seq!['3'] {
        None
    } else {
        Some(RecoveryStrategy::UseLocal)
    }
}

/// Compares nonces of local and remote records.
pub struct NonceValidator;

impl NonceValidator {
    /// A validator.
    pub fn new() -> (r: Self) {
        NonceValidator
    }

    /// Compares the local record's nonce with the remote record's nonce,
    /// which must be base64 of 12 bytes.
    pub fn validate(&self, local: &StoredRecord, remote: &SyncRecord) -> (r: Result<NonceStatus, KeyringError>)
        ensures
            r is Ok <==> nonce_check(local.nonce@, remote.nonce@) is Some,
            r is Ok ==> r->Ok_0 == nonce_check(local.nonce@, remote.nonce@)->0,
            r is Err ==> r->Err_0 is Crypto,
    {
        let bytes = match base64_decode(remote.nonce.as_str()) {
            Ok(b) => b,
            Err(e) => {
                let mut context = String::from_str("Invalid remote nonce encoding: ");
                push_str(&mut context, e.as_str());
                return Err(KeyringError::Crypto { context });
            },
        };
        if bytes.len() != 12 {
            let mut context = String::from_str("Invalid remote nonce length: ");
            push_decimal(&mut context, bytes.len());
            push_str(&mut context, " (expected 12)");
            return Err(KeyringError::Crypto { context });
        }
        let mut i: usize = 0;
        while i < 12
            invariant
                i <= 12,
                bytes@.len() == 12,
                local.nonce@.len() == 12,
                forall|k: int| 0 <= k < i ==> bytes@[k] == local.nonce@[k],
                base64_standard_decoded(remote.nonce@) == Some(bytes@),
            decreases 12 - i,
        {
            if bytes[i] != local.nonce[i] {
                assert(bytes@[i as int] != local.nonce@[i as int]);
                return Ok(NonceStatus::Mismatch);
            }
            i = i + 1;
        }
        assert(bytes@ =~= local.nonce@);
        Ok(NonceStatus::Valid)
    }

    /// The strategy recommended for a status: none for equal nonces, asking the
    /// user for different ones.
    pub fn get_recovery_strategy(&self, status: NonceStatus) -> (r: RecoveryStrategy)
        ensures
            r == strategy_for(status),
    {
        match status {
            NonceStatus::Valid => RecoveryStrategy::NoAction,
            NonceStatus::Mismatch => RecoveryStrategy::AskUser,
        }
    }

    /// The lines to show before asking the user how to resolve a mismatch.
    pub fn prompt_lines(&self, local_nonce: &[u8; 12], remote_nonce: &[u8; 12]) -> (r: Vec<String>)
        ensures
            r@.map_values(|s: String| s@) == prompt_text(local_nonce@, remote_nonce@),
    {
        let mut v: Vec<String> = Vec::new();
        v.push(String::new());
        v.push(String::from_str("⚠️  Nonce mismatch detected!"));
        let mut l = String::from_str("Local nonce:  ");
        let le = base64_encode(local_nonce);
        push_str(&mut l, le.as_str());
        v.push(l);
        let mut rm = String::from_str("Remote nonce: ");
        let re = base64_encode(remote_nonce);
        push_str(&mut rm, re.as_str());
        v.push(rm);
        v.push(String::new());
        v.push(String::from_str("This usually means the cloud data belongs to a different vault."));
        v.push(String::new());
        v.push(String::from_str("Possible causes:"));
        v.push(String::from_str("  • Cloud is from a different vault (Passkey differs)"));
        v.push(String::from_str("  • Cloud data is corrupted"));
        v.push(String::from_str("  • Local file was modified"));
        v.push(String::new());
        v.push(String::from_str("How to handle?"));
        v.push(String::from_str("  [1] Use local nonce (overwrite cloud)"));
        v.push(String::from_str("  [2] Use remote nonce (overwrite local)"));
        v.push(String::from_str("  [3] Cancel"));
        assert(v@.map_values(|s: String| s@) =~= prompt_text(local_nonce@, remote_nonce@));
        v
    }

    /// The strategy the user's answer to the prompt stands for; answering "3"
    /// cancels the sync.
    pub fn resolution_from_answer(&self, answer: &str) -> (r: Result<RecoveryStrategy, KeyringError>)
        ensures
            r is Ok <==> choice_of(answer@) is Some,
            r is Ok ==> r->Ok_0 == choice_of(answer@)->0,
            r is Err ==> (r->Err_0 matches KeyringError::AuthenticationFailed { reason } && reason@
                == "Sync cancelled by user"@),
    {
        let a = trim_chars(answer);
        if a.len() == 1 && a[0] == '2' {
            assert(a@ =~= seq!['2']);
            Ok(RecoveryStrategy::UseRemote)
        } else if a.len() == 1 && a[0] == '3' {
            assert(a@ =~= seq!['3']);
            Err(KeyringError::AuthenticationFailed { reason: String::from_str("Sync cancelled by user") })
        } else {
            assert(a@ != seq!['2'] && a@ != seq!['3']) by {
                if a@ == seq!['2'] || a@ == seq!['3'] {
                    assert(a@.len() == 1);
                }
            }
            Ok(RecoveryStrategy::UseLocal)
        }
    }
}

impl Default for NonceValidator {
    fn default() -> (r: Self) {
        NonceValidator::new()
    }
}

} // verus!
