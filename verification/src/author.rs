//! Which identity a node authors blocks with: the sources that can name
//! one, and the order in which they are consulted.

use vstd::prelude::*;
use crate::identity::{AccountId, WellKnownName};

verus! {

/// A command-line flag that selects a well-known identity. The variants
/// stand in order of precedence, highest first.
#[derive(Clone, Copy, Debug, PartialEq, Eq)]
pub enum AuthorFlag {
    Dev,
    Alice,
    Bob,
    Charlie,
    Dave,
    Eve,
    Ferdie,
}

/// The number of flags that select a well-known identity.
pub const AUTHOR_FLAG_COUNT: usize = 7;

impl AuthorFlag {
    /// The place of the flag in the order of precedence; 0 is consulted
    /// first.
    pub open spec fn spec_rank(self) -> nat {
        match self {
            AuthorFlag::Dev => 0,
            AuthorFlag::Alice => 1,
            AuthorFlag::Bob => 2,
            AuthorFlag::Charlie => 3,
            AuthorFlag::Dave => 4,
            AuthorFlag::Eve => 5,
            AuthorFlag::Ferdie => 6,
        }
    }

    /// The identity the flag selects. Development mode authors as Alice.
    pub open spec fn spec_name(self) -> WellKnownName {
        match self {
            AuthorFlag::Dev => WellKnownName::Alice,
            AuthorFlag::Alice => WellKnownName::Alice,
            AuthorFlag::Bob => WellKnownName::Bob,
            AuthorFlag::Charlie => WellKnownName::Charlie,
            AuthorFlag::Dave => WellKnownName::Dave,
            AuthorFlag::Eve => WellKnownName::Eve,
            AuthorFlag::Ferdie => WellKnownName::Ferdie,
        }
    }

    pub fn rank(self) -> (rank: usize)
        ensures
            rank == self.spec_rank(),
            rank < AUTHOR_FLAG_COUNT,
    {
        match self {
            AuthorFlag::Dev => 0,
            AuthorFlag::Alice => 1,
            AuthorFlag::Bob => 2,
            AuthorFlag::Charlie => 3,
            AuthorFlag::Dave => 4,
            AuthorFlag::Eve => 5,
            AuthorFlag::Ferdie => 6,
        }
    }

    /// The flag at a place in the order of precedence.
    pub fn at_rank(rank: usize) -> (flag: Option<AuthorFlag>)
        ensures
            rank < AUTHOR_FLAG_COUNT <==> flag is Some,
            flag matches Some(f) ==> f.spec_rank() == rank,
    {
        match rank {
            0 => Some(AuthorFlag::Dev),
            1 => Some(AuthorFlag::Alice),
            2 => Some(AuthorFlag::Bob),
            3 => Some(AuthorFlag::Charlie),
            4 => Some(AuthorFlag::Dave),
            5 => Some(AuthorFlag::Eve),
            6 => Some(AuthorFlag::Ferdie),
            _ => None,
        }
    }

    pub fn name(self) -> (name: WellKnownName)
        ensures
            name == self.spec_name(),
    {
        match self {
            AuthorFlag::Dev => WellKnownName::Alice,
            AuthorFlag::Alice => WellKnownName::Alice,
            AuthorFlag::Bob => WellKnownName::Bob,
            AuthorFlag::Charlie => WellKnownName::Charlie,
            AuthorFlag::Dave => WellKnownName::Dave,
            AuthorFlag::Eve => WellKnownName::Eve,
            AuthorFlag::Ferdie => WellKnownName::Ferdie,
        }
    }
}

/// The state of each flag that selects a well-known identity.
#[derive(Clone, Copy, Debug, PartialEq, Eq)]
pub struct AuthorFlags {
    pub dev: bool,
    pub alice: bool,
    pub bob: bool,
    pub charlie: bool,
    pub dave: bool,
    pub eve: bool,
    pub ferdie: bool,
}

/// The source that decides the author identity of a node.
#[derive(Clone, Copy, Debug, PartialEq, Eq)]
pub enum AuthorSource {
    /// A flag selected the identity derived for a reserved name.
    WellKnown(WellKnownName),
    /// No flag was set, and an account was configured explicitly.
    Configured(AccountId),
    /// Nothing names an author.
    Unset,
}

impl AuthorFlags {
    pub open spec fn is_set(self, flag: AuthorFlag) -> bool {
        match flag {
            AuthorFlag::Dev => self.dev,
            AuthorFlag::Alice => self.alice,
            AuthorFlag::Bob => self.bob,
            AuthorFlag::Charlie => self.charlie,
            AuthorFlag::Dave => self.dave,
            AuthorFlag::Eve => self.eve,
            AuthorFlag::Ferdie => self.ferdie,
        }
    }

    /// Whether `flag` is set and no flag of higher precedence is.
    pub open spec fn decides(self, flag: AuthorFlag) -> bool {
        &&& self.is_set(flag)
        &&& forall|other: AuthorFlag| #[trigger]
            self.is_set(other) ==> flag.spec_rank() <= other.spec_rank()
    }

    /// The flag that decides: the flags are consulted in order of
    /// precedence, and the first that is set is the one.
    pub open spec fn leading(self) -> Option<AuthorFlag> {
        if self.dev {
            Some(AuthorFlag::Dev)
        } else if self.alice {
            Some(AuthorFlag::Alice)
        } else if self.bob {
            Some(AuthorFlag::Bob)
        } else if self.charlie {
            Some(AuthorFlag::Charlie)
        } else if self.dave {
            Some(AuthorFlag::Dave)
        } else if self.eve {
            Some(AuthorFlag::Eve)
        } else if self.ferdie {
            Some(AuthorFlag::Ferdie)
        } else {
            None
        }
    }

    /// No flag set.
    pub fn none() -> (flags: AuthorFlags)
        ensures
            forall|flag: AuthorFlag| !flags.is_set(flag),
    {
        AuthorFlags {
            dev: false,
            alice: false,
            bob: false,
            charlie: false,
            dave: false,
            eve: false,
            ferdie: false,
        }
    }

    pub fn has(&self, flag: AuthorFlag) -> (set: bool)
        ensures
            set == self.is_set(flag),
    {
        match flag {
            AuthorFlag::Dev => self.dev,
            AuthorFlag::Alice => self.alice,
            AuthorFlag::Bob => self.bob,
            AuthorFlag::Charlie => self.charlie,
            AuthorFlag::Dave => self.dave,
            AuthorFlag::Eve => self.eve,
            AuthorFlag::Ferdie => self.ferdie,
        }
    }

    /// Finds the set flag of highest precedence by consulting the flags in
    /// order and stopping at the first that is set.
    pub fn first_set(&self) -> (found: Option<AuthorFlag>)
        ensures
            found == self.leading(),
    {
        let mut rank: usize = 0;
        while rank < AUTHOR_FLAG_COUNT
            invariant
                rank <= AUTHOR_FLAG_COUNT,
                forall|flag: AuthorFlag| #[trigger]
                    self.is_set(flag) ==> rank <= flag.spec_rank(),
            decreases AUTHOR_FLAG_COUNT - rank,
        {
            match AuthorFlag::at_rank(rank) {
                Some(flag) => {
                    if self.has(flag) {
                        proof {
                            assert(self.decides(flag));
                            lemma_decider_is_unique(*self, flag);
                        }
                        return Some(flag);
                    }
                    proof {
                        lemma_rank_is_injective();
                    }
                },
                None => {},
            }
            rank = rank + 1;
        }
        proof {
            assert forall|flag: AuthorFlag| !self.is_set(flag) by {
                if self.is_set(flag) {
                    assert(flag.spec_rank() < AUTHOR_FLAG_COUNT);
                }
            }
            law_leading_flag_decides(*self, AuthorFlag::Dev);
        }
        None
    }
}

/// Two flags at the same place in the order are the same flag.
pub proof fn lemma_rank_is_injective()
    ensures
        forall|a: AuthorFlag, b: AuthorFlag|
            a.spec_rank() == b.spec_rank() ==> a == b,
{
}

/// The leading flag is the one flag that decides: it is set, and no flag
/// of higher precedence is. Where no flag is set there is none.
pub proof fn law_leading_flag_decides(flags: AuthorFlags, flag: AuthorFlag)
    ensures
        flags.leading() == Some(flag) <==> flags.decides(flag),
        flags.leading() is None <==> forall|f: AuthorFlag| !flags.is_set(f),
{
    match flags.leading() {
        Some(first) => {
            assert(flags.is_set(first));
            assert(flags.decides(first));
            if flags.decides(flag) {
                assert(flags.is_set(flag));
                assert(first.spec_rank() == flag.spec_rank());
            }
        },
        None => {
            assert forall|f: AuthorFlag| !flags.is_set(f) by {}
        },
    }
}

/// At most one flag decides: a flag that decides is the leading one.
pub proof fn lemma_decider_is_unique(flags: AuthorFlags, flag: AuthorFlag)
    requires
        flags.decides(flag),
    ensures
        flags.leading() == Some(flag),
{
    law_leading_flag_decides(flags, flag);
}

/// The author of a node: the identity of the leading flag where a flag is
/// set, else the configured account, else none.
pub open spec fn author_source(flags: AuthorFlags, configured: Option<AccountId>) -> AuthorSource {
    match flags.leading() {
        Some(flag) => AuthorSource::WellKnown(flag.spec_name()),
        None => match configured {
            Some(account) => AuthorSource::Configured(account),
            None => AuthorSource::Unset,
        },
    }
}

/// Resolves the author identity of a node from its flags and its configured
/// account. Only the first source that matches is consulted.
pub fn resolve_author(flags: &AuthorFlags, configured: Option<AccountId>) -> (source: AuthorSource)
    ensures
        source == author_source(*flags, configured),
{
    match flags.first_set() {
        Some(flag) => AuthorSource::WellKnown(flag.name()),
        None => match configured {
            Some(account) => AuthorSource::Configured(account),
            None => AuthorSource::Unset,
        },
    }
}

/// Development mode decides the author whatever else is set or configured:
/// the node authors as Alice.
pub proof fn law_development_mode_wins(flags: AuthorFlags, configured: Option<AccountId>)
    requires
        flags.dev,
    ensures
        author_source(flags, configured) == AuthorSource::WellKnown(WellKnownName::Alice),
{
    assert(flags.is_set(AuthorFlag::Dev));
    assert(flags.decides(AuthorFlag::Dev));
    lemma_decider_is_unique(flags, AuthorFlag::Dev);
}

/// The first source that matches decides alone: two invocations that agree
/// on a set flag and on every flag of higher precedence resolve to the same
/// author, whatever their other flags and configured accounts are.
pub proof fn law_first_match_decides(
    flags: AuthorFlags,
    configured: Option<AccountId>,
    other_flags: AuthorFlags,
    other_configured: Option<AccountId>,
    flag: AuthorFlag,
)
    requires
        flags.decides(flag),
        forall|f: AuthorFlag|
            f.spec_rank() <= flag.spec_rank() ==> #[trigger] other_flags.is_set(f)
                == flags.is_set(f),
    ensures
        author_source(flags, configured) == AuthorSource::WellKnown(flag.spec_name()),
        author_source(other_flags, other_configured) == author_source(flags, configured),
{
    lemma_decider_is_unique(flags, flag);
    assert(other_flags.is_set(flag) == flags.is_set(flag));
    assert forall|f: AuthorFlag| #[trigger]
        other_flags.is_set(f) implies flag.spec_rank() <= f.spec_rank() by {
        if f.spec_rank() < flag.spec_rank() {
            assert(flags.is_set(f));
        }
    }
    assert(other_flags.decides(flag));
    lemma_decider_is_unique(other_flags, flag);
}

/// The configured account is the author exactly where no flag is set, and
/// no author is named exactly where neither a flag nor an account is given.
pub proof fn law_configured_account_comes_last(flags: AuthorFlags, configured: Option<AccountId>)
    ensures
        author_source(flags, configured) is Configured <==> (configured is Some && forall|
            flag: AuthorFlag,
        |
            !flags.is_set(flag)),
        author_source(flags, configured) is Configured ==> configured == Some(
            author_source(flags, configured)->Configured_0,
        ),
        author_source(flags, configured) is Unset <==> (configured is None && forall|
            flag: AuthorFlag,
        |
            !flags.is_set(flag)),
{
    law_leading_flag_decides(flags, AuthorFlag::Dev);
    if flags.leading() is Some {
        assert(flags.is_set(flags.leading()->Some_0));
    }
}

impl AuthorSource {
    /// Whether some source named an author.
    pub fn is_present(&self) -> (present: bool)
        ensures
            present == !(*self is Unset),
    {
        match self {
            AuthorSource::Unset => false,
            _ => true,
        }
    }
}

} // verus!
