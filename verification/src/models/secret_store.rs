//! Where secrets live, and whether one can be stored right now.
//!
//! These are two questions, and this module keeps them apart on purpose. One
//! sentence answering both is true when a keyring exists and is locked and
//! when none exists at all, so the owner could not tell which they were in,
//! and the next action it offered was wrong for both. A locked keyring
//! reported as an absent one is the same conflation one layer down, which is
//! why `StoreKind` and `Availability` are separate types rather than one enum
//! with four words.
//!
//! Everything here is a pure reading of what the engine published. Nothing
//! infers a state from a timeout or an exit code: the engine reads the
//! collection's `Locked` property and says so, and this module only routes
//! what it said.

use vstd::prelude::*;
use crate::copy::Key;
use crate::management::vocabulary::{refusal_of, Refusal};
use crate::models::settings_model::{opt_view, Sentence};
use crate::text::str_eq;

verus! {

/// Where values live, as the engine names it.
///
/// Two values, and deliberately not three. Nothing can answer "no store": a
/// refused save answers an error, which has no result to carry one, and a
/// machine with no keyring still saves to the keyring, the save simply
/// refuses. Whether a secret can be stored right now is [`Availability`], a
/// different question with a different field.
#[derive(Debug, Clone, Copy, PartialEq, Eq, Structural)]
pub enum StoreKind {
    /// The desktop keyring, through the Secret Service.
    Keyring,
    /// A private file under the Fermix home, which the owner consented to.
    File,
}

/// The store one published word names.
pub open spec fn store_kind_of(word: Seq<char>) -> Option<StoreKind> {
    if word == "keyring"@ {
        Some(StoreKind::Keyring)
    } else if word == "file"@ {
        Some(StoreKind::File)
    } else {
        None
    }
}

impl StoreKind {
    /// The kind the engine named, or nothing when it named something this
    /// build does not know.
    pub fn of(word: &str) -> (r: Option<Self>)
        ensures
            r == store_kind_of(word@),
    {
        if str_eq(word, "keyring") {
            Some(StoreKind::Keyring)
        } else if str_eq(word, "file") {
            Some(StoreKind::File)
        } else {
            None
        }
    }

    /// Whether there is anything here to move back to the keyring.
    ///
    /// Only the file store has values to migrate. Offering the return from
    /// the keyring would be a move to where the owner already is.
    pub fn offers_return_to_keyring(self) -> (r: bool)
        ensures
            r == (self == StoreKind::File),
    {
        match self {
            StoreKind::File => true,
            StoreKind::Keyring => false,
        }
    }

    /// The words for this store, as a person reads them.
    pub fn label(self) -> (k: Key)
        ensures
            k == match self {
                StoreKind::Keyring => Key::SecretStoreDesktopKeyring,
                StoreKind::File => Key::SecretStoreThisComputer,
            },
    {
        match self {
            StoreKind::Keyring => Key::SecretStoreDesktopKeyring,
            StoreKind::File => Key::SecretStoreThisComputer,
        }
    }
}

/// Whether a secret can be stored right now.
///
/// The same three words the refusal reasons use, so a locked keyring says it
/// is locked on the doctor row rather than reporting an absence that is not
/// true.
#[derive(Debug, Clone, Copy, PartialEq, Eq, Structural)]
pub enum Availability {
    /// A store is reachable and a write would land.
    Ready,
    /// A Secret Service is present and its default collection is locked.
    Locked,
    /// No Secret Service, or no way to ask one.
    Unavailable,
}

/// The word the engine publishes for each state.
pub open spec fn availability_word(a: Availability) -> Seq<char> {
    match a {
        Availability::Ready => "ready"@,
        Availability::Locked => "locked"@,
        Availability::Unavailable => "unavailable"@,
    }
}

/// The state one published word names.
pub open spec fn availability_of(word: Seq<char>) -> Option<Availability> {
    if word == "ready"@ {
        Some(Availability::Ready)
    } else if word == "locked"@ {
        Some(Availability::Locked)
    } else if word == "unavailable"@ {
        Some(Availability::Unavailable)
    } else {
        None
    }
}

impl Availability {
    /// The state the engine named, or nothing for a word this build does not
    /// know.
    pub fn of(word: &str) -> (r: Option<Self>)
        ensures
            r == availability_of(word@),
    {
        if str_eq(word, "ready") {
            Some(Availability::Ready)
        } else if str_eq(word, "locked") {
            Some(Availability::Locked)
        } else if str_eq(word, "unavailable") {
            Some(Availability::Unavailable)
        } else {
            None
        }
    }

    /// The word the engine publishes for this state.
    pub fn word(self) -> (r: &'static str)
        ensures
            r@ == availability_word(self),
    {
        match self {
            Availability::Ready => "ready",
            Availability::Locked => "locked",
            Availability::Unavailable => "unavailable",
        }
    }
}

/// Each state reads back as itself through its own word.
pub proof fn an_availability_reads_back_through_its_word(a: Availability)
    ensures
        availability_of(availability_word(a)) == Some(a),
{
    reveal_strlit("ready");
    reveal_strlit("locked");
    reveal_strlit("unavailable");
    assert("ready"@.len() == 5 && "locked"@.len() == 6 && "unavailable"@.len() == 11);
}

/// Which of the three store refusals the owner is looking at.
///
/// One variant per published reason, because each one wants a different
/// screen. Nothing falls back to a neighbour: a reason this build does not
/// recognise is `None` rather than the nearest guess.
#[derive(Debug, Clone, Copy, PartialEq, Eq, Structural)]
pub enum StoreRefusal {
    /// A keyring is there and locked. This is the only one with something to
    /// unlock.
    KeyringLocked,
    /// No keyring on this computer at all.
    NoKeyring,
    /// The helper did not answer while the collection was not locked, so
    /// there is nothing to unlock and retrying is the only honest offer.
    HelperDidNotAnswer,
}

/// The store refusal a code and a reason name.
pub open spec fn store_refusal_of(code: Option<Seq<char>>, reason: Option<Seq<char>>) -> Option<StoreRefusal> {
    match code {
        Some(c) => if refusal_of(c) != Refusal::SecretStoreFailed {
            None
        } else {
            match reason {
                Some(r) => if r == "locked"@ {
                    Some(StoreRefusal::KeyringLocked)
                } else if r == "unavailable"@ {
                    Some(StoreRefusal::NoKeyring)
                } else if r == "timeout"@ {
                    Some(StoreRefusal::HelperDidNotAnswer)
                } else {
                    None
                },
                None => None,
            }
        },
        None => None,
    }
}

impl StoreRefusal {
    /// The refusal this sentence names, or nothing when it is not a store
    /// refusal or carries a reason this build does not know.
    ///
    /// An unknown reason deliberately routes nowhere. A future engine may
    /// publish a fourth word, and sending it to the locked dialog would offer
    /// an unlock for a state nobody here understands.
    pub fn of(sentence: &Sentence) -> (r: Option<Self>)
        ensures
            r == store_refusal_of(opt_view(sentence.code), opt_view(sentence.reason)),
    {
        let code = match &sentence.code {
            Some(code) => code,
            None => {
                return None;
            },
        };
        if Refusal::of_code(code.as_str()) != Refusal::SecretStoreFailed {
            return None;
        }
        let reason = match &sentence.reason {
            Some(reason) => reason,
            None => {
                return None;
            },
        };
        if str_eq(reason.as_str(), "locked") {
            Some(StoreRefusal::KeyringLocked)
        } else if str_eq(reason.as_str(), "unavailable") {
            Some(StoreRefusal::NoKeyring)
        } else if str_eq(reason.as_str(), "timeout") {
            Some(StoreRefusal::HelperDidNotAnswer)
        } else {
            None
        }
    }

    /// Whether this refusal has something an unlock could act on.
    ///
    /// Only the locked keyring does. Offering the unlock anywhere else is a
    /// button that cannot work.
    pub fn offers_unlock(self) -> (r: bool)
        ensures
            r == (self == StoreRefusal::KeyringLocked),
    {
        match self {
            StoreRefusal::KeyringLocked => true,
            _ => false,
        }
    }
}

} // verus!
