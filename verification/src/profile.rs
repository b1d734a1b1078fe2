//! The profile that seeds an interpreter's configuration.

use crate::text::{is_token, occurs_in, rejection_message, str_eq};
use vstd::prelude::*;
use vstd::std_specs::convert::{FromSpecImpl, TryFromSpecImpl};
use vstd::string::*;

verus! {

/// What follows the input in the message that turns it down as a profile.
pub const INVALID_PROFILE: &'static str =
    " is not a valid profile; use 'isolated' or 'python'";

/// Defines the profile to use to configure a Python interpreter.
#[derive(Clone, Copy, Debug, PartialEq, Eq, Structural)]
pub enum PythonInterpreterProfile {
    /// Python is isolated from the system.
    ///
    /// See <https://docs.python.org/3/c-api/init_config.html#isolated-configuration>.
    Isolated,
    /// Python interpreter behaves like `python`.
    ///
    /// See <https://docs.python.org/3/c-api/init_config.html#python-configuration>.
    Python,
}

impl PythonInterpreterProfile {
    /// The canonical token of a profile.
    pub open spec fn token(self) -> Seq<char> {
        match self {
            PythonInterpreterProfile::Isolated => "isolated"@,
            PythonInterpreterProfile::Python => "python"@,
        }
    }

    /// The value that a token names: the one whose canonical token it is.
    /// Matching is exact and case-sensitive.
    pub open spec fn spec_parse(s: Seq<char>) -> Option<Self> {
        if s == PythonInterpreterProfile::Isolated.token() {
            Some(PythonInterpreterProfile::Isolated)
        } else if s == PythonInterpreterProfile::Python.token() {
            Some(PythonInterpreterProfile::Python)
        } else {
            None
        }
    }

    /// The message that turns `s` down: the input, then the accepted tokens.
    pub open spec fn rejection(s: Seq<char>) -> Seq<char> {
        s + INVALID_PROFILE@
    }

    /// The canonical token, borrowed.
    pub fn as_str(&self) -> (s: &'static str)
        ensures
            s@ == self.token(),
    {
        match self {
            PythonInterpreterProfile::Isolated => "isolated",
            PythonInterpreterProfile::Python => "python",
        }
    }

    /// Reads a token. Succeeds exactly on the canonical tokens; any other
    /// input comes back inside the rejection message.
    pub fn parse(value: &str) -> (r: Result<Self, String>)
        ensures
            match r {
                Ok(v) => Self::spec_parse(value@) == Some(v),
                Err(e) => Self::spec_parse(value@) is None && e@ == Self::rejection(value@),
            },
    {
        if str_eq(value, "isolated") {
            Ok(PythonInterpreterProfile::Isolated)
        } else if str_eq(value, "python") {
            Ok(PythonInterpreterProfile::Python)
        } else {
            Err(rejection_message(value, INVALID_PROFILE))
        }
    }

    /// Every token is lowercase: it is made of lowercase letters, hyphens and
    /// underscores, and is not empty.
    pub proof fn lemma_token_shape(v: Self)
        ensures
            is_token(v.token()),
    {
        match v {
            PythonInterpreterProfile::Isolated => {
                reveal_strlit("isolated");
                assert("isolated"@.len() == 8);
            },
            PythonInterpreterProfile::Python => {
                reveal_strlit("python");
                assert("python"@.len() == 6);
            },
        }
    }

    /// No two values share a token.
    pub proof fn lemma_token_injective(a: Self, b: Self)
        requires
            a.token() == b.token(),
        ensures
            a == b,
    {
        reveal_strlit("isolated");
        reveal_strlit("python");
        assert("isolated"@.len() == 8);
        assert("python"@.len() == 6);
    }

    /// Round trip: the token of a value parses back to that value.
    pub proof fn lemma_parse_token(v: Self)
        ensures
            Self::spec_parse(v.token()) == Some(v),
    {
        if v.token() == PythonInterpreterProfile::Isolated.token() {
            Self::lemma_token_injective(v, PythonInterpreterProfile::Isolated);
        }
        if v.token() == PythonInterpreterProfile::Python.token() {
            Self::lemma_token_injective(v, PythonInterpreterProfile::Python);
        }
    }

    /// Round trip, the other way: what parses to a value is that value's token.
    pub proof fn lemma_token_parse(s: Seq<char>, v: Self)
        requires
            Self::spec_parse(s) == Some(v),
        ensures
            v.token() == s,
    {
    }

    /// A rejection carries what it rejects and what it would accept: it
    /// begins with the input, and every accepted token occurs in it.
    pub proof fn lemma_rejection_names(s: Seq<char>, v: Self)
        ensures
            s.is_prefix_of(Self::rejection(s)),
            occurs_in(v.token(), Self::rejection(s)),
    {
        let m = Self::rejection(s);
        let n = s.len() as int;
        reveal_strlit(
            " is not a valid profile; use 'isolated' or 'python'",
        );
        assert(INVALID_PROFILE@.len() == 51);
        match v {
            PythonInterpreterProfile::Isolated => {
                reveal_strlit("isolated");
                assert(m.subrange(n + 30, n + 30 + 8) =~= "isolated"@);
            },
            PythonInterpreterProfile::Python => {
                reveal_strlit("python");
                assert(m.subrange(n + 44, n + 44 + 6) =~= "python"@);
            },
        }
    }

    /// Total rejection: a string is turned down exactly when it is no value's token.
    pub proof fn lemma_parse_rejects(s: Seq<char>)
        ensures
            Self::spec_parse(s) is None <==> forall|v: Self| v.token() != s,
    {
        if Self::spec_parse(s) is None {
            assert forall|v: Self| v.token() != s by {
                Self::lemma_parse_token(v);
            }
        } else {
            assert(Self::spec_parse(s)->0.token() == s);
        }
    }
}

impl Default for PythonInterpreterProfile {
    /// The isolated profile.
    fn default() -> (r: Self)
        ensures
            r == PythonInterpreterProfile::Isolated,
    {
        PythonInterpreterProfile::Isolated
    }
}

impl ToString for PythonInterpreterProfile {
    /// The canonical token, owned.
    fn to_string(&self) -> (s: String)
        ensures
            s@ == self.token(),
    {
        self.as_str().to_owned()
    }
}

impl From<PythonInterpreterProfile> for String {
    fn from(v: PythonInterpreterProfile) -> (s: String)
        ensures
            s@ == v.token(),
    {
        v.to_string()
    }
}

/// `from` states its contract itself: ghost code cannot build the string
/// that a token makes, so `from_spec` says nothing.
impl FromSpecImpl<PythonInterpreterProfile> for String {
    open spec fn obeys_from_spec() -> bool {
        false
    }

    open spec fn from_spec(v: PythonInterpreterProfile) -> String {
        arbitrary()
    }
}

impl<'a> TryFrom<&'a str> for PythonInterpreterProfile {
    type Error = String;

    fn try_from(value: &'a str) -> (r: Result<Self, String>)
        ensures
            match r {
                Ok(v) => Self::spec_parse(value@) == Some(v),
                Err(e) => Self::spec_parse(value@) is None && e@ == Self::rejection(value@),
            },
    {
        Self::parse(value)
    }
}

/// `try_from` states its contract itself: ghost code cannot build the
/// string of a rejection, so `try_from_spec` says nothing.
impl<'a> TryFromSpecImpl<&'a str> for PythonInterpreterProfile {
    open spec fn obeys_try_from_spec() -> bool {
        false
    }

    open spec fn try_from_spec(v: &'a str) -> Result<Self, String> {
        arbitrary()
    }
}

impl TryFrom<String> for PythonInterpreterProfile {
    type Error = String;

    fn try_from(value: String) -> (r: Result<Self, String>)
        ensures
            match r {
                Ok(v) => Self::spec_parse(value@) == Some(v),
                Err(e) => Self::spec_parse(value@) is None && e@ == Self::rejection(value@),
            },
    {
        Self::parse(value.as_str())
    }
}

/// `try_from` states its contract itself: ghost code cannot build the
/// string of a rejection, so `try_from_spec` says nothing.
impl TryFromSpecImpl<String> for PythonInterpreterProfile {
    open spec fn obeys_try_from_spec() -> bool {
        false
    }

    open spec fn try_from_spec(v: String) -> Result<Self, String> {
        arbitrary()
    }
}

} // verus!
