//! Well-known development identities: the reserved names, the secret phrase
//! of each, and the public key derived from it.

use vstd::prelude::*;

verus! {

/// The reserved participant names of development and test networks.
#[derive(Clone, Copy, Debug, PartialEq, Eq)]
pub enum WellKnownName {
    Alice,
    Bob,
    Charlie,
    Dave,
    Eve,
    Ferdie,
}

/// A compressed secp256k1 public key.
#[derive(Clone, Copy, Debug, PartialEq, Eq)]
pub struct PublicKey {
    pub bytes: [u8; 33],
}

impl View for PublicKey {
    type V = Seq<u8>;

    open spec fn view(&self) -> Seq<u8> {
        self.bytes@
    }
}

/// The identifier of an account that may author blocks.
#[derive(Clone, Copy, Debug, PartialEq, Eq)]
pub struct AccountId {
    pub bytes: [u8; 20],
}

impl View for AccountId {
    type V = Seq<u8>;

    open spec fn view(&self) -> Seq<u8> {
        self.bytes@
    }
}

/// A secret phrase from which no key pair could be derived.
#[derive(Clone, Copy, Debug, PartialEq, Eq)]
pub struct DerivationError {
    pub name: WellKnownName,
}

impl WellKnownName {
    /// The name as it is written.
    pub open spec fn spec_label(self) -> Seq<char> {
        match self {
            WellKnownName::Alice => "Alice"@,
            WellKnownName::Bob => "Bob"@,
            WellKnownName::Charlie => "Charlie"@,
            WellKnownName::Dave => "Dave"@,
            WellKnownName::Eve => "Eve"@,
            WellKnownName::Ferdie => "Ferdie"@,
        }
    }

    /// The secret phrase of the name: a hard derivation junction made of the
    /// name, on the publicly known development phrase.
    pub open spec fn spec_phrase(self) -> Seq<char> {
        "//"@ + self.spec_label()
    }

    pub fn label(self) -> (text: &'static str)
        ensures
            text@ == self.spec_label(),
    {
        match self {
            WellKnownName::Alice => "Alice",
            WellKnownName::Bob => "Bob",
            WellKnownName::Charlie => "Charlie",
            WellKnownName::Dave => "Dave",
            WellKnownName::Eve => "Eve",
            WellKnownName::Ferdie => "Ferdie",
        }
    }

    pub fn phrase(self) -> (text: &'static str)
        ensures
            text@ == self.spec_phrase(),
    {
        proof {
            reveal_strlit("//");
            reveal_strlit("Alice");
            reveal_strlit("Bob");
            reveal_strlit("Charlie");
            reveal_strlit("Dave");
            reveal_strlit("Eve");
            reveal_strlit("Ferdie");
            reveal_strlit("//Alice");
            reveal_strlit("//Bob");
            reveal_strlit("//Charlie");
            reveal_strlit("//Dave");
            reveal_strlit("//Eve");
            reveal_strlit("//Ferdie");
        }
        match self {
            WellKnownName::Alice => {
                assert("//Alice"@ =~= "//"@ + "Alice"@);
                "//Alice"
            },
            WellKnownName::Bob => {
                assert("//Bob"@ =~= "//"@ + "Bob"@);
                "//Bob"
            },
            WellKnownName::Charlie => {
                assert("//Charlie"@ =~= "//"@ + "Charlie"@);
                "//Charlie"
            },
            WellKnownName::Dave => {
                assert("//Dave"@ =~= "//"@ + "Dave"@);
                "//Dave"
            },
            WellKnownName::Eve => {
                assert("//Eve"@ =~= "//"@ + "Eve"@);
                "//Eve"
            },
            WellKnownName::Ferdie => {
                assert("//Ferdie"@ =~= "//"@ + "Ferdie"@);
                "//Ferdie"
            },
        }
    }
}

/// Different names have different secret phrases.
pub proof fn law_phrases_are_distinct(a: WellKnownName, b: WellKnownName)
    requires
        a != b,
    ensures
        a.spec_phrase() != b.spec_phrase(),
{
    reveal_strlit("//");
    reveal_strlit("Alice");
    reveal_strlit("Bob");
    reveal_strlit("Charlie");
    reveal_strlit("Dave");
    reveal_strlit("Eve");
    reveal_strlit("Ferdie");
    assert(a.spec_phrase()[2] == a.spec_label()[0]);
    assert(b.spec_phrase()[2] == b.spec_label()[0]);
}

/// Whether a text is the secret phrase of one of the reserved names.
pub open spec fn is_well_known_phrase(text: Seq<char>) -> bool {
    exists|name: WellKnownName| text == #[trigger] name.spec_phrase()
}

/// The compressed public key of the ECDSA key pair that the secret phrase
/// yields, or `None` where the phrase yields no pair.
pub uninterp spec fn ecdsa_public_key(phrase: Seq<char>) -> Option<Seq<u8>>;

/// The error of `sp_core` for a secret phrase it cannot interpret. Only
/// carried from the derivation to the place that drops it.
#[verifier::external_type_specification]
#[verifier::external_body]
pub struct ExSecretStringError(sp_core::crypto::SecretStringError);

/// Calls `sp_core::ecdsa::Pair::from_string` with no password override and
/// takes the pair's `public()`. The contract claims that the outcome is a
/// function of the phrase alone, and names it: the 33 bytes of the public key
/// where a pair came back, nothing where the phrase was refused. It is asked
/// of the phrases of the reserved names only; on other texts, such as a hex
/// seed that is no valid secret key, the outside function may panic.
#[verifier::external_body]
fn ecdsa_public_from_phrase(phrase: &str) -> (outcome: Result<
    [u8; 33],
    sp_core::crypto::SecretStringError,
>)
    requires
        is_well_known_phrase(phrase@),
    ensures
        ecdsa_public_key(phrase@) == match outcome {
            Ok(bytes) => Some(bytes@),
            Err(_) => None,
        },
{
    match <sp_core::ecdsa::Pair as sp_core::Pair>::from_string(phrase, None) {
        Ok(pair) => Ok(sp_core::Pair::public(&pair).0),
        Err(error) => Err(error),
    }
}

impl WellKnownName {
    /// The public key of the name, where its phrase yields one.
    pub open spec fn spec_public_key(self) -> Option<Seq<u8>> {
        ecdsa_public_key(self.spec_phrase())
    }

    /// What a derivation means for the name: the bytes that came out are
    /// its public key, and where none came out the name could not be derived.
    pub fn key_from(self, derived: Option<[u8; 33]>) -> (outcome: Result<
        PublicKey,
        DerivationError,
    >)
        ensures
            outcome == match derived {
                Some(bytes) => Ok::<PublicKey, DerivationError>(PublicKey { bytes }),
                None => Err::<PublicKey, DerivationError>(DerivationError { name: self }),
            },
    {
        match derived {
            Some(bytes) => Ok(PublicKey { bytes }),
            None => Err(DerivationError { name: self }),
        }
    }

    /// Derives the public key of the name from its secret phrase. The same
    /// name always gives the same outcome.
    pub fn public_key(self) -> (outcome: Result<PublicKey, DerivationError>)
        ensures
            self.spec_public_key() == match outcome {
                Ok(key) => Some(key@),
                Err(_) => None,
            },
            outcome matches Err(error) ==> error.name == self,
    {
        match ecdsa_public_from_phrase(self.phrase()) {
            Ok(bytes) => self.key_from(Some(bytes)),
            Err(_) => self.key_from(None),
        }
    }
}

} // verus!
