//! The start method of Python's `multiprocessing` module.

use crate::text::{is_token, occurs_in, rejection_message, str_eq};
use std::str::FromStr;
use vstd::prelude::*;
use vstd::std_specs::convert::{FromSpecImpl, TryFromSpecImpl};
use vstd::string::*;

verus! {

/// What follows the input in the message that turns it down as a start method.
pub const INVALID_MULTIPROCESSING_START_METHOD: &'static str =
    " is not a valid multiprocessing start method; use 'none', 'fork', 'forkserver', 'spawn' or 'auto'";

/// Defines how to call `multiprocessing.set_start_method()` when `multiprocessing` is imported.
#[derive(Debug, PartialEq, Eq, Structural)]
pub enum MultiprocessingStartMethod {
    /// Do not call `multiprocessing.set_start_method()`.
    Off,
    /// Call with value `fork`.
    Fork,
    /// Call with value `forkserver`.
    ForkServer,
    /// Call with value `spawn`.
    Spawn,
    /// Call with a value appropriate for the given environment.
    Auto,
}

impl MultiprocessingStartMethod {
    /// The canonical token of a start method.
    pub open spec fn token(self) -> Seq<char> {
        match self {
            MultiprocessingStartMethod::Off => "none"@,
            MultiprocessingStartMethod::Fork => "fork"@,
            MultiprocessingStartMethod::ForkServer => "forkserver"@,
            MultiprocessingStartMethod::Spawn => "spawn"@,
            MultiprocessingStartMethod::Auto => "auto"@,
        }
    }

    /// The value that a token names: the one whose canonical token it is.
    /// Matching is exact and case-sensitive.
    pub open spec fn spec_parse(s: Seq<char>) -> Option<Self> {
        if s == MultiprocessingStartMethod::Off.token() {
            Some(MultiprocessingStartMethod::Off)
        } else if s == MultiprocessingStartMethod::Fork.token() {
            Some(MultiprocessingStartMethod::Fork)
        } else if s == MultiprocessingStartMethod::ForkServer.token() {
            Some(MultiprocessingStartMethod::ForkServer)
        } else if s == MultiprocessingStartMethod::Spawn.token() {
            Some(MultiprocessingStartMethod::Spawn)
        } else if s == MultiprocessingStartMethod::Auto.token() {
            Some(MultiprocessingStartMethod::Auto)
        } else {
            None
        }
    }

    /// The message that turns `s` down: the input, then the accepted tokens.
    pub open spec fn rejection(s: Seq<char>) -> Seq<char> {
        s + INVALID_MULTIPROCESSING_START_METHOD@
    }

    /// The canonical token, borrowed.
    pub fn as_str(&self) -> (s: &'static str)
        ensures
            s@ == self.token(),
    {
        match self {
            MultiprocessingStartMethod::Off => "none",
            MultiprocessingStartMethod::Fork => "fork",
            MultiprocessingStartMethod::ForkServer => "forkserver",
            MultiprocessingStartMethod::Spawn => "spawn",
            MultiprocessingStartMethod::Auto => "auto",
        }
    }

    /// Reads a token. Succeeds exactly on the canonical tokens; any other
    /// input comes back inside the rejection message.
    pub fn parse(value: &str) -> (r: Result<Self, String>)
        ensures
            match r {
                Ok(v) => Self::spec_parse(value@) == Some(v),
                Err(e) => Self::spec_parse(value@) is None && e@ == Self::rejection(value@),
            },
    {
        if str_eq(value, "none") {
            Ok(MultiprocessingStartMethod::Off)
        } else if str_eq(value, "fork") {
            Ok(MultiprocessingStartMethod::Fork)
        } else if str_eq(value, "forkserver") {
            Ok(MultiprocessingStartMethod::ForkServer)
        } else if str_eq(value, "spawn") {
            Ok(MultiprocessingStartMethod::Spawn)
        } else if str_eq(value, "auto") {
            Ok(MultiprocessingStartMethod::Auto)
        } else {
            Err(rejection_message(value, INVALID_MULTIPROCESSING_START_METHOD))
        }
    }

    /// Every token is lowercase: it is made of lowercase letters, hyphens and
    /// underscores, and is not empty.
    pub proof fn lemma_token_shape(v: Self)
        ensures
            is_token(v.token()),
    {
        match v {
            MultiprocessingStartMethod::Off => {
                reveal_strlit("none");
                assert("none"@.len() == 4);
            },
            MultiprocessingStartMethod::Fork => {
                reveal_strlit("fork");
                assert("fork"@.len() == 4);
            },
            MultiprocessingStartMethod::ForkServer => {
                reveal_strlit("forkserver");
                assert("forkserver"@.len() == 10);
            },
            MultiprocessingStartMethod::Spawn => {
                reveal_strlit("spawn");
                assert("spawn"@.len() == 5);
            },
            MultiprocessingStartMethod::Auto => {
                reveal_strlit("auto");
                assert("auto"@.len() == 4);
            },
        }
    }

    /// No two values share a token.
    pub proof fn lemma_token_injective(a: Self, b: Self)
        requires
            a.token() == b.token(),
        ensures
            a == b,
    {
        reveal_strlit("none");
        reveal_strlit("fork");
        reveal_strlit("forkserver");
        reveal_strlit("spawn");
        reveal_strlit("auto");
        assert("none"@.len() == 4);
        assert("fork"@.len() == 4);
        assert("forkserver"@.len() == 10);
        assert("spawn"@.len() == 5);
        assert("auto"@.len() == 4);
        assert("none"@[0] == 'n' && "fork"@[0] == 'f');
        assert("none"@[0] == 'n' && "auto"@[0] == 'a');
        assert("fork"@[0] == 'f' && "auto"@[0] == 'a');
    }

    /// Round trip: the token of a value parses back to that value.
    pub proof fn lemma_parse_token(v: Self)
        ensures
            Self::spec_parse(v.token()) == Some(v),
    {
        if v.token() == MultiprocessingStartMethod::Off.token() {
            Self::lemma_token_injective(v, MultiprocessingStartMethod::Off);
        }
        if v.token() == MultiprocessingStartMethod::Fork.token() {
            Self::lemma_token_injective(v, MultiprocessingStartMethod::Fork);
        }
        if v.token() == MultiprocessingStartMethod::ForkServer.token() {
            Self::lemma_token_injective(v, MultiprocessingStartMethod::ForkServer);
        }
        if v.token() == MultiprocessingStartMethod::Spawn.token() {
            Self::lemma_token_injective(v, MultiprocessingStartMethod::Spawn);
        }
        if v.token() == MultiprocessingStartMethod::Auto.token() {
            Self::lemma_token_injective(v, MultiprocessingStartMethod::Auto);
        }
    }

    /// Round trip, the other way: what parses to a value is that value's token.
    pub proof fn lemma_token_parse(s: Seq<char>, v: Self)
        requires
            Self::spec_parse(s) == Some(v),
        ensures
            v.token() == s,
    {
    }

    /// A rejection carries what it rejects and what it would accept: it
    /// begins with the input, and every accepted token occurs in it.
    pub proof fn lemma_rejection_names(s: Seq<char>, v: Self)
        ensures
            s.is_prefix_of(Self::rejection(s)),
            occurs_in(v.token(), Self::rejection(s)),
    {
        let m = Self::rejection(s);
        let n = s.len() as int;
        reveal_strlit(
            " is not a valid multiprocessing start method; use 'none', 'fork', 'forkserver', 'spawn' or 'auto'",
        );
        assert(INVALID_MULTIPROCESSING_START_METHOD@.len() == 97);
        match v {
            MultiprocessingStartMethod::Off => {
                reveal_strlit("none");
                assert(m.subrange(n + 51, n + 51 + 4) =~= "none"@);
            },
            MultiprocessingStartMethod::Fork => {
                reveal_strlit("fork");
                assert(m.subrange(n + 59, n + 59 + 4) =~= "fork"@);
            },
            MultiprocessingStartMethod::ForkServer => {
                reveal_strlit("forkserver");
                assert(m.subrange(n + 67, n + 67 + 10) =~= "forkserver"@);
            },
            MultiprocessingStartMethod::Spawn => {
                reveal_strlit("spawn");
                assert(m.subrange(n + 81, n + 81 + 5) =~= "spawn"@);
            },
            MultiprocessingStartMethod::Auto => {
                reveal_strlit("auto");
                assert(m.subrange(n + 92, n + 92 + 4) =~= "auto"@);
            },
        }
    }

    /// Total rejection: a string is turned down exactly when it is no value's token.
    pub proof fn lemma_parse_rejects(s: Seq<char>)
        ensures
            Self::spec_parse(s) is None <==> forall|v: Self| v.token() != s,
    {
        if Self::spec_parse(s) is None {
            assert forall|v: Self| v.token() != s by {
                Self::lemma_parse_token(v);
            }
        } else {
            assert(Self::spec_parse(s)->0.token() == s);
        }
    }
}

impl Clone for MultiprocessingStartMethod {
    fn clone(&self) -> (r: Self)
        ensures
            r == *self,
    {
        match self {
            MultiprocessingStartMethod::Off => MultiprocessingStartMethod::Off,
            MultiprocessingStartMethod::Fork => MultiprocessingStartMethod::Fork,
            MultiprocessingStartMethod::ForkServer => MultiprocessingStartMethod::ForkServer,
            MultiprocessingStartMethod::Spawn => MultiprocessingStartMethod::Spawn,
            MultiprocessingStartMethod::Auto => MultiprocessingStartMethod::Auto,
        }
    }
}

impl FromStr for MultiprocessingStartMethod {
    type Err = String;

    fn from_str(s: &str) -> (r: Result<Self, String>)
        ensures
            match r {
                Ok(v) => Self::spec_parse(s@) == Some(v),
                Err(e) => Self::spec_parse(s@) is None && e@ == Self::rejection(s@),
            },
    {
        Self::parse(s)
    }
}

impl ToString for MultiprocessingStartMethod {
    /// The canonical token, owned.
    fn to_string(&self) -> (s: String)
        ensures
            s@ == self.token(),
    {
        self.as_str().to_owned()
    }
}

impl From<MultiprocessingStartMethod> for String {
    fn from(v: MultiprocessingStartMethod) -> (s: String)
        ensures
            s@ == v.token(),
    {
        v.to_string()
    }
}

/// `from` states its contract itself: ghost code cannot build the string
/// that a token makes, so `from_spec` says nothing.
impl FromSpecImpl<MultiprocessingStartMethod> for String {
    open spec fn obeys_from_spec() -> bool {
        false
    }

    open spec fn from_spec(v: MultiprocessingStartMethod) -> String {
        arbitrary()
    }
}

impl<'a> TryFrom<&'a str> for MultiprocessingStartMethod {
    type Error = String;

    fn try_from(value: &'a str) -> (r: Result<Self, String>)
        ensures
            match r {
                Ok(v) => Self::spec_parse(value@) == Some(v),
                Err(e) => Self::spec_parse(value@) is None && e@ == Self::rejection(value@),
            },
    {
        Self::parse(value)
    }
}

/// `try_from` states its contract itself: ghost code cannot build the
/// string of a rejection, so `try_from_spec` says nothing.
impl<'a> TryFromSpecImpl<&'a str> for MultiprocessingStartMethod {
    open spec fn obeys_try_from_spec() -> bool {
        false
    }

    open spec fn try_from_spec(v: &'a str) -> Result<Self, String> {
        arbitrary()
    }
}

impl TryFrom<String> for MultiprocessingStartMethod {
    type Error = String;

    fn try_from(value: String) -> (r: Result<Self, String>)
        ensures
            match r {
                Ok(v) => Self::spec_parse(value@) == Some(v),
                Err(e) => Self::spec_parse(value@) is None && e@ == Self::rejection(value@),
            },
    {
        Self::parse(value.as_str())
    }
}

/// `try_from` states its contract itself: ghost code cannot build the
/// string of a rejection, so `try_from_spec` says nothing.
impl TryFromSpecImpl<String> for MultiprocessingStartMethod {
    open spec fn obeys_try_from_spec() -> bool {
        false
    }

    open spec fn try_from_spec(v: String) -> Result<Self, String> {
        arbitrary()
    }
}

} // verus!
