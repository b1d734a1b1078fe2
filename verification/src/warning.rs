//! What comparing bytes with str does.

use crate::text::{is_token, occurs_in, rejection_message, str_eq};
use vstd::prelude::*;
use vstd::std_specs::convert::{FromSpecImpl, TryFromSpecImpl};
use vstd::string::*;

verus! {

/// What follows the input in the message that turns it down as a warning level.
pub const INVALID_BYTES_WARNING: &'static str =
    " is not a valid bytes warning value; use 'none', 'warn' or 'raise'";

/// Defines what to do when comparing bytes with str.
///
/// See <https://docs.python.org/3/c-api/init_config.html#c.PyConfig.bytes_warning>.
#[derive(Clone, Copy, Debug, PartialEq, Eq, Structural)]
pub enum BytesWarning {
    /// Do nothing.
    Off,
    /// Issue a warning.
    Warn,
    /// Raise an exception.
    Raise,
}

impl BytesWarning {
    /// The canonical token of a warning level.
    pub open spec fn token(self) -> Seq<char> {
        match self {
            BytesWarning::Off => "none"@,
            BytesWarning::Warn => "warn"@,
            BytesWarning::Raise => "raise"@,
        }
    }

    /// The value that a token names: the one whose canonical token it is.
    /// Matching is exact and case-sensitive.
    pub open spec fn spec_parse(s: Seq<char>) -> Option<Self> {
        if s == BytesWarning::Off.token() {
            Some(BytesWarning::Off)
        } else if s == BytesWarning::Warn.token() {
            Some(BytesWarning::Warn)
        } else if s == BytesWarning::Raise.token() {
            Some(BytesWarning::Raise)
        } else {
            None
        }
    }

    /// The message that turns `s` down: the input, then the accepted tokens.
    pub open spec fn rejection(s: Seq<char>) -> Seq<char> {
        s + INVALID_BYTES_WARNING@
    }

    /// The canonical token, borrowed.
    pub fn as_str(&self) -> (s: &'static str)
        ensures
            s@ == self.token(),
    {
        match self {
            BytesWarning::Off => "none",
            BytesWarning::Warn => "warn",
            BytesWarning::Raise => "raise",
        }
    }

    /// Reads a token. Succeeds exactly on the canonical tokens; any other
    /// input comes back inside the rejection message.
    pub fn parse(value: &str) -> (r: Result<Self, String>)
        ensures
            match r {
                Ok(v) => Self::spec_parse(value@) == Some(v),
                Err(e) => Self::spec_parse(value@) is None && e@ == Self::rejection(value@),
            },
    {
        if str_eq(value, "none") {
            Ok(BytesWarning::Off)
        } else if str_eq(value, "warn") {
            Ok(BytesWarning::Warn)
        } else if str_eq(value, "raise") {
            Ok(BytesWarning::Raise)
        } else {
            Err(rejection_message(value, INVALID_BYTES_WARNING))
        }
    }

    /// Every token is lowercase: it is made of lowercase letters, hyphens and
    /// underscores, and is not empty.
    pub proof fn lemma_token_shape(v: Self)
        ensures
            is_token(v.token()),
    {
        match v {
            BytesWarning::Off => {
                reveal_strlit("none");
                assert("none"@.len() == 4);
            },
            BytesWarning::Warn => {
                reveal_strlit("warn");
                assert("warn"@.len() == 4);
            },
            BytesWarning::Raise => {
                reveal_strlit("raise");
                assert("raise"@.len() == 5);
            },
        }
    }

    /// No two values share a token.
    pub proof fn lemma_token_injective(a: Self, b: Self)
        requires
            a.token() == b.token(),
        ensures
            a == b,
    {
        reveal_strlit("none");
        reveal_strlit("warn");
        reveal_strlit("raise");
        assert("none"@.len() == 4);
        assert("warn"@.len() == 4);
        assert("raise"@.len() == 5);
        assert("none"@[0] == 'n' && "warn"@[0] == 'w');
    }

    /// Round trip: the token of a value parses back to that value.
    pub proof fn lemma_parse_token(v: Self)
        ensures
            Self::spec_parse(v.token()) == Some(v),
    {
        if v.token() == BytesWarning::Off.token() {
            Self::lemma_token_injective(v, BytesWarning::Off);
        }
        if v.token() == BytesWarning::Warn.token() {
            Self::lemma_token_injective(v, BytesWarning::Warn);
        }
        if v.token() == BytesWarning::Raise.token() {
            Self::lemma_token_injective(v, BytesWarning::Raise);
        }
    }

    /// Round trip, the other way: what parses to a value is that value's token.
    pub proof fn lemma_token_parse(s: Seq<char>, v: Self)
        requires
            Self::spec_parse(s) == Some(v),
        ensures
            v.token() == s,
    {
    }

    /// A rejection carries what it rejects and what it would accept: it
    /// begins with the input, and every accepted token occurs in it.
    pub proof fn lemma_rejection_names(s: Seq<char>, v: Self)
        ensures
            s.is_prefix_of(Self::rejection(s)),
            occurs_in(v.token(), Self::rejection(s)),
    {
        let m = Self::rejection(s);
        let n = s.len() as int;
        reveal_strlit(
            " is not a valid bytes warning value; use 'none', 'warn' or 'raise'",
        );
        assert(INVALID_BYTES_WARNING@.len() == 66);
        match v {
            BytesWarning::Off => {
                reveal_strlit("none");
                assert(m.subrange(n + 42, n + 42 + 4) =~= "none"@);
            },
            BytesWarning::Warn => {
                reveal_strlit("warn");
                assert(m.subrange(n + 50, n + 50 + 4) =~= "warn"@);
            },
            BytesWarning::Raise => {
                reveal_strlit("raise");
                assert(m.subrange(n + 60, n + 60 + 5) =~= "raise"@);
            },
        }
    }

    /// Total rejection: a string is turned down exactly when it is no value's token.
    pub proof fn lemma_parse_rejects(s: Seq<char>)
        ensures
            Self::spec_parse(s) is None <==> forall|v: Self| v.token() != s,
    {
        if Self::spec_parse(s) is None {
            assert forall|v: Self| v.token() != s by {
                Self::lemma_parse_token(v);
            }
        } else {
            assert(Self::spec_parse(s)->0.token() == s);
        }
    }
}

impl BytesWarning {
    /// The integer code that the native API gives this value.
    pub open spec fn code(self) -> int {
        match self {
            BytesWarning::Off => 0,
            BytesWarning::Warn => 1,
            BytesWarning::Raise => 2,
        }
    }

    /// The integer code that the native API gives this value.
    pub fn to_code(&self) -> (c: i32)
        ensures
            c == self.code(),
    {
        match self {
            BytesWarning::Off => 0,
            BytesWarning::Warn => 1,
            BytesWarning::Raise => 2,
        }
    }

    /// No two values share a code.
    pub proof fn lemma_code_injective(a: Self, b: Self)
        requires
            a.code() == b.code(),
        ensures
            a == b,
    {
    }
}

impl BytesWarning {
    /// The value that a native code stands for. The rule saturates: 0 is
    /// `Off`, 1 is `Warn`, and every other code, negative ones included, is
    /// `Raise`.
    pub open spec fn spec_from_code(code: int) -> Self {
        if code == 0 {
            BytesWarning::Off
        } else if code == 1 {
            BytesWarning::Warn
        } else {
            BytesWarning::Raise
        }
    }

    /// Reads a native code by the saturating rule. It never fails.
    pub fn from_code(code: i32) -> (r: Self)
        ensures
            r == Self::spec_from_code(code as int),
    {
        if code == 0 {
            BytesWarning::Off
        } else if code == 1 {
            BytesWarning::Warn
        } else {
            BytesWarning::Raise
        }
    }

    /// Reading the code of a value gives the value back.
    pub proof fn lemma_from_code_of_code(v: Self)
        ensures
            Self::spec_from_code(v.code()) == v,
    {
    }

    /// Saturation: every code other than 0 and 1 reads as `Raise`.
    pub proof fn lemma_from_code_saturates(code: int)
        requires
            code != 0,
            code != 1,
        ensures
            Self::spec_from_code(code) == BytesWarning::Raise,
    {
    }
}

impl From<i32> for BytesWarning {
    fn from(value: i32) -> (r: BytesWarning)
        ensures
            r == BytesWarning::spec_from_code(value as int),
    {
        BytesWarning::from_code(value)
    }
}

impl FromSpecImpl<i32> for BytesWarning {
    open spec fn obeys_from_spec() -> bool {
        true
    }

    open spec fn from_spec(v: i32) -> BytesWarning {
        BytesWarning::spec_from_code(v as int)
    }
}

impl ToString for BytesWarning {
    /// The canonical token, owned.
    fn to_string(&self) -> (s: String)
        ensures
            s@ == self.token(),
    {
        self.as_str().to_owned()
    }
}

impl From<BytesWarning> for String {
    fn from(v: BytesWarning) -> (s: String)
        ensures
            s@ == v.token(),
    {
        v.to_string()
    }
}

/// `from` states its contract itself: ghost code cannot build the string
/// that a token makes, so `from_spec` says nothing.
impl FromSpecImpl<BytesWarning> for String {
    open spec fn obeys_from_spec() -> bool {
        false
    }

    open spec fn from_spec(v: BytesWarning) -> String {
        arbitrary()
    }
}

impl<'a> TryFrom<&'a str> for BytesWarning {
    type Error = String;

    fn try_from(value: &'a str) -> (r: Result<Self, String>)
        ensures
            match r {
                Ok(v) => Self::spec_parse(value@) == Some(v),
                Err(e) => Self::spec_parse(value@) is None && e@ == Self::rejection(value@),
            },
    {
        Self::parse(value)
    }
}

/// `try_from` states its contract itself: ghost code cannot build the
/// string of a rejection, so `try_from_spec` says nothing.
impl<'a> TryFromSpecImpl<&'a str> for BytesWarning {
    open spec fn obeys_try_from_spec() -> bool {
        false
    }

    open spec fn try_from_spec(v: &'a str) -> Result<Self, String> {
        arbitrary()
    }
}

impl TryFrom<String> for BytesWarning {
    type Error = String;

    fn try_from(value: String) -> (r: Result<Self, String>)
        ensures
            match r {
                Ok(v) => Self::spec_parse(value@) == Some(v),
                Err(e) => Self::spec_parse(value@) is None && e@ == Self::rejection(value@),
            },
    {
        Self::parse(value.as_str())
    }
}

/// `try_from` states its contract itself: ghost code cannot build the
/// string of a rejection, so `try_from_spec` says nothing.
impl TryFromSpecImpl<String> for BytesWarning {
    open spec fn obeys_try_from_spec() -> bool {
        false
    }

    open spec fn try_from_spec(v: String) -> Result<Self, String> {
        arbitrary()
    }
}

} // verus!
