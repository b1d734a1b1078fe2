//! Bytecode: how cached `.pyc` files are validated, and how far the
//! compiler optimizes.

use crate::text::{decimal, i32_to_string, is_token, occurs_in, rejection_message, str_eq};
use vstd::prelude::*;
use vstd::std_specs::convert::{FromSpecImpl, TryFromSpecImpl};
use vstd::string::*;

verus! {

/// What follows the input in the message that turns it down as a validation mode.
pub const INVALID_CHECK_HASH_PYCS_MODE: &'static str =
    " is not a valid check hash pycs mode value; use 'always', 'never' or 'default'";

/// What follows the number in the message that turns it down as the code
/// of a check hash pycs mode.
pub const INVALID_CHECK_HASH_PYCS_MODE_CODE: &'static str =
    " is not a valid code of a check hash pycs mode; use 0, 1 or 2";

/// Validation mode for hash-based `.pyc` files.
///
/// See <https://docs.python.org/3/c-api/init_config.html#c.PyConfig.check_hash_pycs_mode>.
#[derive(Clone, Copy, Debug, PartialEq, Eq, Structural)]
pub enum CheckHashPycsMode {
    /// Hash the source file for invalidation, whatever the `.pyc` says.
    Always,
    /// Assume that hash-based `.pyc` files are valid.
    Never,
    /// Let the flag in each `.pyc` file decide.
    Default,
}

impl CheckHashPycsMode {
    /// The canonical token of a validation mode.
    pub open spec fn token(self) -> Seq<char> {
        match self {
            CheckHashPycsMode::Always => "always"@,
            CheckHashPycsMode::Never => "never"@,
            CheckHashPycsMode::Default => "default"@,
        }
    }

    /// The value that a token names: the one whose canonical token it is.
    /// Matching is exact and case-sensitive.
    pub open spec fn spec_parse(s: Seq<char>) -> Option<Self> {
        if s == CheckHashPycsMode::Always.token() {
            Some(CheckHashPycsMode::Always)
        } else if s == CheckHashPycsMode::Never.token() {
            Some(CheckHashPycsMode::Never)
        } else if s == CheckHashPycsMode::Default.token() {
            Some(CheckHashPycsMode::Default)
        } else {
            None
        }
    }

    /// The message that turns `s` down: the input, then the accepted tokens.
    pub open spec fn rejection(s: Seq<char>) -> Seq<char> {
        s + INVALID_CHECK_HASH_PYCS_MODE@
    }

    /// The canonical token, borrowed.
    pub fn as_str(&self) -> (s: &'static str)
        ensures
            s@ == self.token(),
    {
        match self {
            CheckHashPycsMode::Always => "always",
            CheckHashPycsMode::Never => "never",
            CheckHashPycsMode::Default => "default",
        }
    }

    /// Reads a token. Succeeds exactly on the canonical tokens; any other
    /// input comes back inside the rejection message.
    pub fn parse(value: &str) -> (r: Result<Self, String>)
        ensures
            match r {
                Ok(v) => Self::spec_parse(value@) == Some(v),
                Err(e) => Self::spec_parse(value@) is None && e@ == Self::rejection(value@),
            },
    {
        if str_eq(value, "always") {
            Ok(CheckHashPycsMode::Always)
        } else if str_eq(value, "never") {
            Ok(CheckHashPycsMode::Never)
        } else if str_eq(value, "default") {
            Ok(CheckHashPycsMode::Default)
        } else {
            Err(rejection_message(value, INVALID_CHECK_HASH_PYCS_MODE))
        }
    }

    /// Every token is lowercase: it is made of lowercase letters, hyphens and
    /// underscores, and is not empty.
    pub proof fn lemma_token_shape(v: Self)
        ensures
            is_token(v.token()),
    {
        match v {
            CheckHashPycsMode::Always => {
                reveal_strlit("always");
                assert("always"@.len() == 6);
            },
            CheckHashPycsMode::Never => {
                reveal_strlit("never");
                assert("never"@.len() == 5);
            },
            CheckHashPycsMode::Default => {
                reveal_strlit("default");
                assert("default"@.len() == 7);
            },
        }
    }

    /// No two values share a token.
    pub proof fn lemma_token_injective(a: Self, b: Self)
        requires
            a.token() == b.token(),
        ensures
            a == b,
    {
        reveal_strlit("always");
        reveal_strlit("never");
        reveal_strlit("default");
        assert("always"@.len() == 6);
        assert("never"@.len() == 5);
        assert("default"@.len() == 7);
    }

    /// Round trip: the token of a value parses back to that value.
    pub proof fn lemma_parse_token(v: Self)
        ensures
            Self::spec_parse(v.token()) == Some(v),
    {
        if v.token() == CheckHashPycsMode::Always.token() {
            Self::lemma_token_injective(v, CheckHashPycsMode::Always);
        }
        if v.token() == CheckHashPycsMode::Never.token() {
            Self::lemma_token_injective(v, CheckHashPycsMode::Never);
        }
        if v.token() == CheckHashPycsMode::Default.token() {
            Self::lemma_token_injective(v, CheckHashPycsMode::Default);
        }
    }

    /// Round trip, the other way: what parses to a value is that value's token.
    pub proof fn lemma_token_parse(s: Seq<char>, v: Self)
        requires
            Self::spec_parse(s) == Some(v),
        ensures
            v.token() == s,
    {
    }

    /// A rejection carries what it rejects and what it would accept: it
    /// begins with the input, and every accepted token occurs in it.
    pub proof fn lemma_rejection_names(s: Seq<char>, v: Self)
        ensures
            s.is_prefix_of(Self::rejection(s)),
            occurs_in(v.token(), Self::rejection(s)),
    {
        let m = Self::rejection(s);
        let n = s.len() as int;
        reveal_strlit(
            " is not a valid check hash pycs mode value; use 'always', 'never' or 'default'",
        );
        assert(INVALID_CHECK_HASH_PYCS_MODE@.len() == 78);
        match v {
            CheckHashPycsMode::Always => {
                reveal_strlit("always");
                assert(m.subrange(n + 49, n + 49 + 6) =~= "always"@);
            },
            CheckHashPycsMode::Never => {
                reveal_strlit("never");
                assert(m.subrange(n + 59, n + 59 + 5) =~= "never"@);
            },
            CheckHashPycsMode::Default => {
                reveal_strlit("default");
                assert(m.subrange(n + 70, n + 70 + 7) =~= "default"@);
            },
        }
    }

    /// Total rejection: a string is turned down exactly when it is no value's token.
    pub proof fn lemma_parse_rejects(s: Seq<char>)
        ensures
            Self::spec_parse(s) is None <==> forall|v: Self| v.token() != s,
    {
        if Self::spec_parse(s) is None {
            assert forall|v: Self| v.token() != s by {
                Self::lemma_parse_token(v);
            }
        } else {
            assert(Self::spec_parse(s)->0.token() == s);
        }
    }
}

impl CheckHashPycsMode {
    /// The integer code that the native API gives this value.
    pub open spec fn code(self) -> int {
        match self {
            CheckHashPycsMode::Always => 0,
            CheckHashPycsMode::Never => 1,
            CheckHashPycsMode::Default => 2,
        }
    }

    /// The value with a given code. Only the codes above stand for a value.
    pub open spec fn spec_from_code(code: int) -> Option<Self> {
        if code == 0 {
            Some(CheckHashPycsMode::Always)
        } else if code == 1 {
            Some(CheckHashPycsMode::Never)
        } else if code == 2 {
            Some(CheckHashPycsMode::Default)
        } else {
            None
        }
    }

    /// The message that turns a code down: the code in decimal, then the
    /// accepted codes.
    pub open spec fn code_rejection(code: int) -> Seq<char> {
        decimal(code) + INVALID_CHECK_HASH_PYCS_MODE_CODE@
    }

    /// The integer code that the native API gives this value.
    pub fn to_code(&self) -> (c: i32)
        ensures
            c == self.code(),
    {
        match self {
            CheckHashPycsMode::Always => 0,
            CheckHashPycsMode::Never => 1,
            CheckHashPycsMode::Default => 2,
        }
    }

    /// Reads a native code. This is exact: a code that stands for no value
    /// is turned down, and comes back inside the rejection message.
    pub fn from_code(code: i32) -> (r: Result<Self, String>)
        ensures
            match r {
                Ok(v) => Self::spec_from_code(code as int) == Some(v),
                Err(e) => Self::spec_from_code(code as int) is None
                    && e@ == Self::code_rejection(code as int),
            },
    {
        if code == 0 {
            Ok(CheckHashPycsMode::Always)
        } else if code == 1 {
            Ok(CheckHashPycsMode::Never)
        } else if code == 2 {
            Ok(CheckHashPycsMode::Default)
        } else {
            let mut e = i32_to_string(code);
            e.append(INVALID_CHECK_HASH_PYCS_MODE_CODE);
            Err(e)
        }
    }

    /// No two values share a code.
    pub proof fn lemma_code_injective(a: Self, b: Self)
        requires
            a.code() == b.code(),
        ensures
            a == b,
    {
    }

    /// Round trip: the code of a value reads back as that value.
    pub proof fn lemma_from_code_of_code(v: Self)
        ensures
            Self::spec_from_code(v.code()) == Some(v),
    {
    }

    /// A code is turned down exactly when it is no value's code, and the
    /// rejection begins with the code.
    pub proof fn lemma_from_code_rejects(code: int)
        ensures
            Self::spec_from_code(code) is None <==> forall|v: Self| v.code() != code,
            decimal(code).is_prefix_of(Self::code_rejection(code)),
    {
        if Self::spec_from_code(code) is Some {
            assert(Self::spec_from_code(code)->0.code() == code);
        }
    }
}

impl ToString for CheckHashPycsMode {
    /// The canonical token, owned.
    fn to_string(&self) -> (s: String)
        ensures
            s@ == self.token(),
    {
        self.as_str().to_owned()
    }
}

impl From<CheckHashPycsMode> for String {
    fn from(v: CheckHashPycsMode) -> (s: String)
        ensures
            s@ == v.token(),
    {
        v.to_string()
    }
}

/// `from` states its contract itself: ghost code cannot build the string
/// that a token makes, so `from_spec` says nothing.
impl FromSpecImpl<CheckHashPycsMode> for String {
    open spec fn obeys_from_spec() -> bool {
        false
    }

    open spec fn from_spec(v: CheckHashPycsMode) -> String {
        arbitrary()
    }
}

impl<'a> TryFrom<&'a str> for CheckHashPycsMode {
    type Error = String;

    fn try_from(value: &'a str) -> (r: Result<Self, String>)
        ensures
            match r {
                Ok(v) => Self::spec_parse(value@) == Some(v),
                Err(e) => Self::spec_parse(value@) is None && e@ == Self::rejection(value@),
            },
    {
        Self::parse(value)
    }
}

/// `try_from` states its contract itself: ghost code cannot build the
/// string of a rejection, so `try_from_spec` says nothing.
impl<'a> TryFromSpecImpl<&'a str> for CheckHashPycsMode {
    open spec fn obeys_try_from_spec() -> bool {
        false
    }

    open spec fn try_from_spec(v: &'a str) -> Result<Self, String> {
        arbitrary()
    }
}

impl TryFrom<String> for CheckHashPycsMode {
    type Error = String;

    fn try_from(value: String) -> (r: Result<Self, String>)
        ensures
            match r {
                Ok(v) => Self::spec_parse(value@) == Some(v),
                Err(e) => Self::spec_parse(value@) is None && e@ == Self::rejection(value@),
            },
    {
        Self::parse(value.as_str())
    }
}

/// `try_from` states its contract itself: ghost code cannot build the
/// string of a rejection, so `try_from_spec` says nothing.
impl TryFromSpecImpl<String> for CheckHashPycsMode {
    open spec fn obeys_try_from_spec() -> bool {
        false
    }

    open spec fn try_from_spec(v: String) -> Result<Self, String> {
        arbitrary()
    }
}

/// What follows the number in the message that turns it down as an
/// optimization level.
pub const INVALID_OPTIMIZATION_LEVEL: &'static str =
    " is not a valid bytecode optimization level; use 0, 1 or 2";

/// An optimization level for Python bytecode.
#[derive(Clone, Copy, Debug, PartialEq, Eq, Structural)]
pub enum BytecodeOptimizationLevel {
    /// Optimization level 0.
    Zero,
    /// Optimization level 1.
    One,
    /// Optimization level 2.
    Two,
}

impl BytecodeOptimizationLevel {
    /// The number of the level.
    pub open spec fn code(self) -> int {
        match self {
            BytecodeOptimizationLevel::Zero => 0,
            BytecodeOptimizationLevel::One => 1,
            BytecodeOptimizationLevel::Two => 2,
        }
    }

    /// The level with a given number. Only 0, 1 and 2 number a level.
    pub open spec fn spec_from_code(code: int) -> Option<Self> {
        if code == 0 {
            Some(BytecodeOptimizationLevel::Zero)
        } else if code == 1 {
            Some(BytecodeOptimizationLevel::One)
        } else if code == 2 {
            Some(BytecodeOptimizationLevel::Two)
        } else {
            None
        }
    }

    /// The message that turns a number down: the number in decimal, then
    /// the accepted numbers.
    pub open spec fn rejection(code: int) -> Seq<char> {
        decimal(code) + INVALID_OPTIMIZATION_LEVEL@
    }

    /// The number of the level.
    pub fn to_code(&self) -> (c: i32)
        ensures
            c == self.code(),
    {
        match self {
            BytecodeOptimizationLevel::Zero => 0,
            BytecodeOptimizationLevel::One => 1,
            BytecodeOptimizationLevel::Two => 2,
        }
    }

    /// Reads the number of a level. This is exact: a number that names no
    /// level is turned down, and comes back inside the rejection message.
    pub fn from_code(code: i32) -> (r: Result<Self, String>)
        ensures
            match r {
                Ok(v) => Self::spec_from_code(code as int) == Some(v),
                Err(e) => Self::spec_from_code(code as int) is None
                    && e@ == Self::rejection(code as int),
            },
    {
        if code == 0 {
            Ok(BytecodeOptimizationLevel::Zero)
        } else if code == 1 {
            Ok(BytecodeOptimizationLevel::One)
        } else if code == 2 {
            Ok(BytecodeOptimizationLevel::Two)
        } else {
            let mut e = i32_to_string(code);
            e.append(INVALID_OPTIMIZATION_LEVEL);
            Err(e)
        }
    }

    /// A rejection begins with the number that it rejects.
    pub proof fn lemma_rejection_names(code: int)
        ensures
            decimal(code).is_prefix_of(Self::rejection(code)),
    {
    }

    /// Round trip: the number of a level reads back as that level.
    pub proof fn lemma_from_code_of_code(v: Self)
        ensures
            Self::spec_from_code(v.code()) == Some(v),
    {
    }

    /// A number is turned down exactly when it is no level's number.
    pub proof fn lemma_from_code_rejects(code: int)
        ensures
            Self::spec_from_code(code) is None <==> forall|v: Self| v.code() != code,
    {
        if Self::spec_from_code(code) is Some {
            assert(Self::spec_from_code(code)->0.code() == code);
        }
    }
}

impl TryFrom<i32> for BytecodeOptimizationLevel {
    type Error = String;

    fn try_from(value: i32) -> (r: Result<Self, String>)
        ensures
            match r {
                Ok(v) => Self::spec_from_code(value as int) == Some(v),
                Err(e) => Self::spec_from_code(value as int) is None
                    && e@ == Self::rejection(value as int),
            },
    {
        Self::from_code(value)
    }
}

/// `try_from` states its contract itself: ghost code cannot build the
/// string of a rejection, so `try_from_spec` says nothing.
impl TryFromSpecImpl<i32> for BytecodeOptimizationLevel {
    open spec fn obeys_try_from_spec() -> bool {
        false
    }

    open spec fn try_from_spec(v: i32) -> Result<Self, String> {
        arbitrary()
    }
}

impl From<BytecodeOptimizationLevel> for i32 {
    fn from(level: BytecodeOptimizationLevel) -> (c: i32)
        ensures
            c == level.code(),
    {
        level.to_code()
    }
}

impl FromSpecImpl<BytecodeOptimizationLevel> for i32 {
    open spec fn obeys_from_spec() -> bool {
        true
    }

    open spec fn from_spec(level: BytecodeOptimizationLevel) -> i32 {
        level.code() as i32
    }
}

} // verus!
