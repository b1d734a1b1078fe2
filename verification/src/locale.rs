//! Coercion of the C locale.

use crate::text::{decimal, i32_to_string, is_token, occurs_in, rejection_message, str_eq};
use vstd::prelude::*;
use vstd::std_specs::convert::{FromSpecImpl, TryFromSpecImpl};
use vstd::string::*;

verus! {

/// What follows the input in the message that turns it down as a coercion mode.
pub const INVALID_COERCE_C_LOCALE: &'static str =
    " is not a valid C locale coercion value; use 'lc_ctype' or 'c'";

/// What follows the number in the message that turns it down as the code
/// of a C locale coercion.
pub const INVALID_COERCE_C_LOCALE_CODE: &'static str =
    " is not a valid code of a C locale coercion; use 1 or 2";

/// Holds values for coerce_c_locale.
///
/// The native API numbers the two values 1 and 2. Take the number from
/// [`CoerceCLocale::to_code`], never from a cast: a cast counts the variants
/// from 0.
///
/// See <https://docs.python.org/3/c-api/init_config.html#c.PyPreConfig.coerce_c_locale>.
#[derive(Clone, Copy, Debug, PartialEq, Eq, Structural)]
pub enum CoerceCLocale {
    /// Read the `LC_CTYPE` locale to decide whether to coerce.
    LCCtype,
    /// Coerce the C locale.
    C,
}

impl CoerceCLocale {
    /// The canonical token of a coercion mode.
    pub open spec fn token(self) -> Seq<char> {
        match self {
            CoerceCLocale::LCCtype => "lc_ctype"@,
            CoerceCLocale::C => "c"@,
        }
    }

    /// The value that a token names: the one whose canonical token it is.
    /// Matching is exact and case-sensitive.
    pub open spec fn spec_parse(s: Seq<char>) -> Option<Self> {
        if s == CoerceCLocale::LCCtype.token() {
            Some(CoerceCLocale::LCCtype)
        } else if s == CoerceCLocale::C.token() {
            Some(CoerceCLocale::C)
        } else {
            None
        }
    }

    /// The message that turns `s` down: the input, then the accepted tokens.
    pub open spec fn rejection(s: Seq<char>) -> Seq<char> {
        s + INVALID_COERCE_C_LOCALE@
    }

    /// The canonical token, borrowed.
    pub fn as_str(&self) -> (s: &'static str)
        ensures
            s@ == self.token(),
    {
        match self {
            CoerceCLocale::LCCtype => "lc_ctype",
            CoerceCLocale::C => "c",
        }
    }

    /// Reads a token. Succeeds exactly on the canonical tokens; any other
    /// input comes back inside the rejection message.
    pub fn parse(value: &str) -> (r: Result<Self, String>)
        ensures
            match r {
                Ok(v) => Self::spec_parse(value@) == Some(v),
                Err(e) => Self::spec_parse(value@) is None && e@ == Self::rejection(value@),
            },
    {
        if str_eq(value, "lc_ctype") {
            Ok(CoerceCLocale::LCCtype)
        } else if str_eq(value, "c") {
            Ok(CoerceCLocale::C)
        } else {
            Err(rejection_message(value, INVALID_COERCE_C_LOCALE))
        }
    }

    /// Every token is lowercase: it is made of lowercase letters, hyphens and
    /// underscores, and is not empty.
    pub proof fn lemma_token_shape(v: Self)
        ensures
            is_token(v.token()),
    {
        match v {
            CoerceCLocale::LCCtype => {
                reveal_strlit("lc_ctype");
                assert("lc_ctype"@.len() == 8);
            },
            CoerceCLocale::C => {
                reveal_strlit("c");
                assert("c"@.len() == 1);
            },
        }
    }

    /// No two values share a token.
    pub proof fn lemma_token_injective(a: Self, b: Self)
        requires
            a.token() == b.token(),
        ensures
            a == b,
    {
        reveal_strlit("lc_ctype");
        reveal_strlit("c");
        assert("lc_ctype"@.len() == 8);
        assert("c"@.len() == 1);
    }

    /// Round trip: the token of a value parses back to that value.
    pub proof fn lemma_parse_token(v: Self)
        ensures
            Self::spec_parse(v.token()) == Some(v),
    {
        if v.token() == CoerceCLocale::LCCtype.token() {
            Self::lemma_token_injective(v, CoerceCLocale::LCCtype);
        }
        if v.token() == CoerceCLocale::C.token() {
            Self::lemma_token_injective(v, CoerceCLocale::C);
        }
    }

    /// Round trip, the other way: what parses to a value is that value's token.
    pub proof fn lemma_token_parse(s: Seq<char>, v: Self)
        requires
            Self::spec_parse(s) == Some(v),
        ensures
            v.token() == s,
    {
    }

    /// A rejection carries what it rejects and what it would accept: it
    /// begins with the input, and every accepted token occurs in it.
    pub proof fn lemma_rejection_names(s: Seq<char>, v: Self)
        ensures
            s.is_prefix_of(Self::rejection(s)),
            occurs_in(v.token(), Self::rejection(s)),
    {
        let m = Self::rejection(s);
        let n = s.len() as int;
        reveal_strlit(
            " is not a valid C locale coercion value; use 'lc_ctype' or 'c'",
        );
        assert(INVALID_COERCE_C_LOCALE@.len() == 62);
        match v {
            CoerceCLocale::LCCtype => {
                reveal_strlit("lc_ctype");
                assert(m.subrange(n + 46, n + 46 + 8) =~= "lc_ctype"@);
            },
            CoerceCLocale::C => {
                reveal_strlit("c");
                assert(m.subrange(n + 60, n + 60 + 1) =~= "c"@);
            },
        }
    }

    /// Total rejection: a string is turned down exactly when it is no value's token.
    pub proof fn lemma_parse_rejects(s: Seq<char>)
        ensures
            Self::spec_parse(s) is None <==> forall|v: Self| v.token() != s,
    {
        if Self::spec_parse(s) is None {
            assert forall|v: Self| v.token() != s by {
                Self::lemma_parse_token(v);
            }
        } else {
            assert(Self::spec_parse(s)->0.token() == s);
        }
    }
}

impl CoerceCLocale {
    /// The integer code that the native API gives this value.
    pub open spec fn code(self) -> int {
        match self {
            CoerceCLocale::LCCtype => 1,
            CoerceCLocale::C => 2,
        }
    }

    /// The value with a given code. Only the codes above stand for a value.
    pub open spec fn spec_from_code(code: int) -> Option<Self> {
        if code == 1 {
            Some(CoerceCLocale::LCCtype)
        } else if code == 2 {
            Some(CoerceCLocale::C)
        } else {
            None
        }
    }

    /// The message that turns a code down: the code in decimal, then the
    /// accepted codes.
    pub open spec fn code_rejection(code: int) -> Seq<char> {
        decimal(code) + INVALID_COERCE_C_LOCALE_CODE@
    }

    /// The integer code that the native API gives this value.
    pub fn to_code(&self) -> (c: i32)
        ensures
            c == self.code(),
    {
        match self {
            CoerceCLocale::LCCtype => 1,
            CoerceCLocale::C => 2,
        }
    }

    /// Reads a native code. This is exact: a code that stands for no value
    /// is turned down, and comes back inside the rejection message.
    pub fn from_code(code: i32) -> (r: Result<Self, String>)
        ensures
            match r {
                Ok(v) => Self::spec_from_code(code as int) == Some(v),
                Err(e) => Self::spec_from_code(code as int) is None
                    && e@ == Self::code_rejection(code as int),
            },
    {
        if code == 1 {
            Ok(CoerceCLocale::LCCtype)
        } else if code == 2 {
            Ok(CoerceCLocale::C)
        } else {
            let mut e = i32_to_string(code);
            e.append(INVALID_COERCE_C_LOCALE_CODE);
            Err(e)
        }
    }

    /// No two values share a code.
    pub proof fn lemma_code_injective(a: Self, b: Self)
        requires
            a.code() == b.code(),
        ensures
            a == b,
    {
    }

    /// Round trip: the code of a value reads back as that value.
    pub proof fn lemma_from_code_of_code(v: Self)
        ensures
            Self::spec_from_code(v.code()) == Some(v),
    {
    }

    /// A code is turned down exactly when it is no value's code, and the
    /// rejection begins with the code.
    pub proof fn lemma_from_code_rejects(code: int)
        ensures
            Self::spec_from_code(code) is None <==> forall|v: Self| v.code() != code,
            decimal(code).is_prefix_of(Self::code_rejection(code)),
    {
        if Self::spec_from_code(code) is Some {
            assert(Self::spec_from_code(code)->0.code() == code);
        }
    }
}

impl ToString for CoerceCLocale {
    /// The canonical token, owned.
    fn to_string(&self) -> (s: String)
        ensures
            s@ == self.token(),
    {
        self.as_str().to_owned()
    }
}

impl From<CoerceCLocale> for String {
    fn from(v: CoerceCLocale) -> (s: String)
        ensures
            s@ == v.token(),
    {
        v.to_string()
    }
}

/// `from` states its contract itself: ghost code cannot build the string
/// that a token makes, so `from_spec` says nothing.
impl FromSpecImpl<CoerceCLocale> for String {
    open spec fn obeys_from_spec() -> bool {
        false
    }

    open spec fn from_spec(v: CoerceCLocale) -> String {
        arbitrary()
    }
}

impl<'a> TryFrom<&'a str> for CoerceCLocale {
    type Error = String;

    fn try_from(value: &'a str) -> (r: Result<Self, String>)
        ensures
            match r {
                Ok(v) => Self::spec_parse(value@) == Some(v),
                Err(e) => Self::spec_parse(value@) is None && e@ == Self::rejection(value@),
            },
    {
        Self::parse(value)
    }
}

/// `try_from` states its contract itself: ghost code cannot build the
/// string of a rejection, so `try_from_spec` says nothing.
impl<'a> TryFromSpecImpl<&'a str> for CoerceCLocale {
    open spec fn obeys_try_from_spec() -> bool {
        false
    }

    open spec fn try_from_spec(v: &'a str) -> Result<Self, String> {
        arbitrary()
    }
}

impl TryFrom<String> for CoerceCLocale {
    type Error = String;

    fn try_from(value: String) -> (r: Result<Self, String>)
        ensures
            match r {
                Ok(v) => Self::spec_parse(value@) == Some(v),
                Err(e) => Self::spec_parse(value@) is None && e@ == Self::rejection(value@),
            },
    {
        Self::parse(value.as_str())
    }
}

/// `try_from` states its contract itself: ghost code cannot build the
/// string of a rejection, so `try_from_spec` says nothing.
impl TryFromSpecImpl<String> for CoerceCLocale {
    open spec fn obeys_try_from_spec() -> bool {
        false
    }

    open spec fn try_from_spec(v: String) -> Result<Self, String> {
        arbitrary()
    }
}

} // verus!
