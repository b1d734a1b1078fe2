//! Memory allocators: the backend that an embedding application installs,
//! and the allocator that the interpreter's pre-configuration names.

use crate::text::{decimal, i32_to_string, is_token, occurs_in, rejection_message, str_eq};
use vstd::prelude::*;
use vstd::std_specs::convert::{FromSpecImpl, TryFromSpecImpl};
use vstd::string::*;

verus! {

/// The family of platforms that a build targets.
#[derive(Clone, Copy, Debug, PartialEq, Eq, Structural)]
pub enum PlatformFamily {
    /// Windows.
    Windows,
    /// Unix and its relatives.
    Unix,
    /// Any other target.
    Other,
}

/// What follows the input in the message that turns it down as a backend.
pub const INVALID_MEMORY_ALLOCATOR_BACKEND: &'static str =
    " is not a valid memory allocator backend; use 'default', 'jemalloc', 'mimalloc', 'snmalloc' or 'rust'";

/// Defines a backend for a memory allocator.
#[derive(Clone, Copy, Debug, PartialEq, Eq, Structural)]
pub enum MemoryAllocatorBackend {
    /// The default allocator as configured by Python.
    Default,
    /// Use jemalloc.
    Jemalloc,
    /// Use Mimalloc.
    Mimalloc,
    /// Use Snmalloc.
    Snmalloc,
    /// Use Rust's global allocator.
    Rust,
}

impl MemoryAllocatorBackend {
    /// The canonical token of a backend.
    pub open spec fn token(self) -> Seq<char> {
        match self {
            MemoryAllocatorBackend::Default => "default"@,
            MemoryAllocatorBackend::Jemalloc => "jemalloc"@,
            MemoryAllocatorBackend::Mimalloc => "mimalloc"@,
            MemoryAllocatorBackend::Snmalloc => "snmalloc"@,
            MemoryAllocatorBackend::Rust => "rust"@,
        }
    }

    /// The value that a token names: the one whose canonical token it is.
    /// Matching is exact and case-sensitive.
    pub open spec fn spec_parse(s: Seq<char>) -> Option<Self> {
        if s == MemoryAllocatorBackend::Default.token() {
            Some(MemoryAllocatorBackend::Default)
        } else if s == MemoryAllocatorBackend::Jemalloc.token() {
            Some(MemoryAllocatorBackend::Jemalloc)
        } else if s == MemoryAllocatorBackend::Mimalloc.token() {
            Some(MemoryAllocatorBackend::Mimalloc)
        } else if s == MemoryAllocatorBackend::Snmalloc.token() {
            Some(MemoryAllocatorBackend::Snmalloc)
        } else if s == MemoryAllocatorBackend::Rust.token() {
            Some(MemoryAllocatorBackend::Rust)
        } else {
            None
        }
    }

    /// The message that turns `s` down: the input, then the accepted tokens.
    pub open spec fn rejection(s: Seq<char>) -> Seq<char> {
        s + INVALID_MEMORY_ALLOCATOR_BACKEND@
    }

    /// The canonical token, borrowed.
    pub fn as_str(&self) -> (s: &'static str)
        ensures
            s@ == self.token(),
    {
        match self {
            MemoryAllocatorBackend::Default => "default",
            MemoryAllocatorBackend::Jemalloc => "jemalloc",
            MemoryAllocatorBackend::Mimalloc => "mimalloc",
            MemoryAllocatorBackend::Snmalloc => "snmalloc",
            MemoryAllocatorBackend::Rust => "rust",
        }
    }

    /// Reads a token. Succeeds exactly on the canonical tokens; any other
    /// input comes back inside the rejection message.
    pub fn parse(value: &str) -> (r: Result<Self, String>)
        ensures
            match r {
                Ok(v) => Self::spec_parse(value@) == Some(v),
                Err(e) => Self::spec_parse(value@) is None && e@ == Self::rejection(value@),
            },
    {
        if str_eq(value, "default") {
            Ok(MemoryAllocatorBackend::Default)
        } else if str_eq(value, "jemalloc") {
            Ok(MemoryAllocatorBackend::Jemalloc)
        } else if str_eq(value, "mimalloc") {
            Ok(MemoryAllocatorBackend::Mimalloc)
        } else if str_eq(value, "snmalloc") {
            Ok(MemoryAllocatorBackend::Snmalloc)
        } else if str_eq(value, "rust") {
            Ok(MemoryAllocatorBackend::Rust)
        } else {
            Err(rejection_message(value, INVALID_MEMORY_ALLOCATOR_BACKEND))
        }
    }

    /// Every token is lowercase: it is made of lowercase letters, hyphens and
    /// underscores, and is not empty.
    pub proof fn lemma_token_shape(v: Self)
        ensures
            is_token(v.token()),
    {
        match v {
            MemoryAllocatorBackend::Default => {
                reveal_strlit("default");
                assert("default"@.len() == 7);
            },
            MemoryAllocatorBackend::Jemalloc => {
                reveal_strlit("jemalloc");
                assert("jemalloc"@.len() == 8);
            },
            MemoryAllocatorBackend::Mimalloc => {
                reveal_strlit("mimalloc");
                assert("mimalloc"@.len() == 8);
            },
            MemoryAllocatorBackend::Snmalloc => {
                reveal_strlit("snmalloc");
                assert("snmalloc"@.len() == 8);
            },
            MemoryAllocatorBackend::Rust => {
                reveal_strlit("rust");
                assert("rust"@.len() == 4);
            },
        }
    }

    /// No two values share a token.
    pub proof fn lemma_token_injective(a: Self, b: Self)
        requires
            a.token() == b.token(),
        ensures
            a == b,
    {
        reveal_strlit("default");
        reveal_strlit("jemalloc");
        reveal_strlit("mimalloc");
        reveal_strlit("snmalloc");
        reveal_strlit("rust");
        assert("default"@.len() == 7);
        assert("jemalloc"@.len() == 8);
        assert("mimalloc"@.len() == 8);
        assert("snmalloc"@.len() == 8);
        assert("rust"@.len() == 4);
        assert("jemalloc"@[0] == 'j' && "mimalloc"@[0] == 'm');
        assert("jemalloc"@[0] == 'j' && "snmalloc"@[0] == 's');
        assert("mimalloc"@[0] == 'm' && "snmalloc"@[0] == 's');
    }

    /// Round trip: the token of a value parses back to that value.
    pub proof fn lemma_parse_token(v: Self)
        ensures
            Self::spec_parse(v.token()) == Some(v),
    {
        if v.token() == MemoryAllocatorBackend::Default.token() {
            Self::lemma_token_injective(v, MemoryAllocatorBackend::Default);
        }
        if v.token() == MemoryAllocatorBackend::Jemalloc.token() {
            Self::lemma_token_injective(v, MemoryAllocatorBackend::Jemalloc);
        }
        if v.token() == MemoryAllocatorBackend::Mimalloc.token() {
            Self::lemma_token_injective(v, MemoryAllocatorBackend::Mimalloc);
        }
        if v.token() == MemoryAllocatorBackend::Snmalloc.token() {
            Self::lemma_token_injective(v, MemoryAllocatorBackend::Snmalloc);
        }
        if v.token() == MemoryAllocatorBackend::Rust.token() {
            Self::lemma_token_injective(v, MemoryAllocatorBackend::Rust);
        }
    }

    /// Round trip, the other way: what parses to a value is that value's token.
    pub proof fn lemma_token_parse(s: Seq<char>, v: Self)
        requires
            Self::spec_parse(s) == Some(v),
        ensures
            v.token() == s,
    {
    }

    /// A rejection carries what it rejects and what it would accept: it
    /// begins with the input, and every accepted token occurs in it.
    pub proof fn lemma_rejection_names(s: Seq<char>, v: Self)
        ensures
            s.is_prefix_of(Self::rejection(s)),
            occurs_in(v.token(), Self::rejection(s)),
    {
        let m = Self::rejection(s);
        let n = s.len() as int;
        reveal_strlit(
            " is not a valid memory allocator backend; use 'default', 'jemalloc', 'mimalloc', 'snmalloc' or 'rust'",
        );
        assert(INVALID_MEMORY_ALLOCATOR_BACKEND@.len() == 101);
        match v {
            MemoryAllocatorBackend::Default => {
                reveal_strlit("default");
                assert(m.subrange(n + 47, n + 47 + 7) =~= "default"@);
            },
            MemoryAllocatorBackend::Jemalloc => {
                reveal_strlit("jemalloc");
                assert(m.subrange(n + 58, n + 58 + 8) =~= "jemalloc"@);
            },
            MemoryAllocatorBackend::Mimalloc => {
                reveal_strlit("mimalloc");
                assert(m.subrange(n + 70, n + 70 + 8) =~= "mimalloc"@);
            },
            MemoryAllocatorBackend::Snmalloc => {
                reveal_strlit("snmalloc");
                assert(m.subrange(n + 82, n + 82 + 8) =~= "snmalloc"@);
            },
            MemoryAllocatorBackend::Rust => {
                reveal_strlit("rust");
                assert(m.subrange(n + 96, n + 96 + 4) =~= "rust"@);
            },
        }
    }

    /// Total rejection: a string is turned down exactly when it is no value's token.
    pub proof fn lemma_parse_rejects(s: Seq<char>)
        ensures
            Self::spec_parse(s) is None <==> forall|v: Self| v.token() != s,
    {
        if Self::spec_parse(s) is None {
            assert forall|v: Self| v.token() != s by {
                Self::lemma_parse_token(v);
            }
        } else {
            assert(Self::spec_parse(s)->0.token() == s);
        }
    }
}

impl MemoryAllocatorBackend {
    /// The backend that a platform family starts from: the allocator that
    /// Python configures on Windows, jemalloc on every other family.
    pub open spec fn spec_default_for(family: PlatformFamily) -> Self {
        if family == PlatformFamily::Windows {
            MemoryAllocatorBackend::Default
        } else {
            MemoryAllocatorBackend::Jemalloc
        }
    }

    /// The default backend for a platform family. It depends on the family
    /// alone.
    pub fn default_for(family: PlatformFamily) -> (r: Self)
        ensures
            r == Self::spec_default_for(family),
            family == PlatformFamily::Windows ==> r == MemoryAllocatorBackend::Default,
            family != PlatformFamily::Windows ==> r == MemoryAllocatorBackend::Jemalloc,
    {
        match family {
            PlatformFamily::Windows => MemoryAllocatorBackend::Default,
            _ => MemoryAllocatorBackend::Jemalloc,
        }
    }

    /// Platform default: the default backend is the allocator that Python
    /// configures on the Windows family, and jemalloc on every other family.
    /// It is never one of the other backends.
    pub proof fn lemma_default_for_platform(family: PlatformFamily)
        ensures
            family == PlatformFamily::Windows ==> Self::spec_default_for(family)
                == MemoryAllocatorBackend::Default,
            family != PlatformFamily::Windows ==> Self::spec_default_for(family)
                == MemoryAllocatorBackend::Jemalloc,
    {
    }
}

impl ToString for MemoryAllocatorBackend {
    /// The canonical token, owned.
    fn to_string(&self) -> (s: String)
        ensures
            s@ == self.token(),
    {
        self.as_str().to_owned()
    }
}

impl From<MemoryAllocatorBackend> for String {
    fn from(v: MemoryAllocatorBackend) -> (s: String)
        ensures
            s@ == v.token(),
    {
        v.to_string()
    }
}

/// `from` states its contract itself: ghost code cannot build the string
/// that a token makes, so `from_spec` says nothing.
impl FromSpecImpl<MemoryAllocatorBackend> for String {
    open spec fn obeys_from_spec() -> bool {
        false
    }

    open spec fn from_spec(v: MemoryAllocatorBackend) -> String {
        arbitrary()
    }
}

impl<'a> TryFrom<&'a str> for MemoryAllocatorBackend {
    type Error = String;

    fn try_from(value: &'a str) -> (r: Result<Self, String>)
        ensures
            match r {
                Ok(v) => Self::spec_parse(value@) == Some(v),
                Err(e) => Self::spec_parse(value@) is None && e@ == Self::rejection(value@),
            },
    {
        Self::parse(value)
    }
}

/// `try_from` states its contract itself: ghost code cannot build the
/// string of a rejection, so `try_from_spec` says nothing.
impl<'a> TryFromSpecImpl<&'a str> for MemoryAllocatorBackend {
    open spec fn obeys_try_from_spec() -> bool {
        false
    }

    open spec fn try_from_spec(v: &'a str) -> Result<Self, String> {
        arbitrary()
    }
}

impl TryFrom<String> for MemoryAllocatorBackend {
    type Error = String;

    fn try_from(value: String) -> (r: Result<Self, String>)
        ensures
            match r {
                Ok(v) => Self::spec_parse(value@) == Some(v),
                Err(e) => Self::spec_parse(value@) is None && e@ == Self::rejection(value@),
            },
    {
        Self::parse(value.as_str())
    }
}

/// `try_from` states its contract itself: ghost code cannot build the
/// string of a rejection, so `try_from_spec` says nothing.
impl TryFromSpecImpl<String> for MemoryAllocatorBackend {
    open spec fn obeys_try_from_spec() -> bool {
        false
    }

    open spec fn try_from_spec(v: String) -> Result<Self, String> {
        arbitrary()
    }
}

/// What follows the input in the message that turns it down as an allocator.
pub const INVALID_ALLOCATOR: &'static str =
    " is not a valid allocator value; use 'not-set', 'default', 'debug', 'malloc', 'malloc-debug', 'py-malloc' or 'py-malloc-debug'";

/// What follows the number in the message that turns it down as the code
/// of an allocator.
pub const INVALID_ALLOCATOR_CODE: &'static str =
    " is not a valid code of an allocator; use 0, 1, 2, 3, 4, 5 or 6";

/// Name of the memory allocator that the interpreter's pre-configuration selects.
///
/// See <https://docs.python.org/3/c-api/init_config.html#c.PyPreConfig.allocator>.
#[derive(Clone, Copy, Debug, PartialEq, Eq, Structural)]
pub enum Allocator {
    /// Leave the allocators as they are.
    NotSet,
    /// The default allocators.
    Default,
    /// The default allocators, with debug hooks.
    Debug,
    /// The C library's `malloc`.
    Malloc,
    /// The C library's `malloc`, with debug hooks.
    MallocDebug,
    /// Python's `pymalloc`.
    PyMalloc,
    /// Python's `pymalloc`, with debug hooks.
    PyMallocDebug,
}

impl Allocator {
    /// The canonical token of an allocator.
    pub open spec fn token(self) -> Seq<char> {
        match self {
            Allocator::NotSet => "not-set"@,
            Allocator::Default => "default"@,
            Allocator::Debug => "debug"@,
            Allocator::Malloc => "malloc"@,
            Allocator::MallocDebug => "malloc-debug"@,
            Allocator::PyMalloc => "py-malloc"@,
            Allocator::PyMallocDebug => "py-malloc-debug"@,
        }
    }

    /// The value that a token names: the one whose canonical token it is.
    /// Matching is exact and case-sensitive.
    pub open spec fn spec_parse(s: Seq<char>) -> Option<Self> {
        if s == Allocator::NotSet.token() {
            Some(Allocator::NotSet)
        } else if s == Allocator::Default.token() {
            Some(Allocator::Default)
        } else if s == Allocator::Debug.token() {
            Some(Allocator::Debug)
        } else if s == Allocator::Malloc.token() {
            Some(Allocator::Malloc)
        } else if s == Allocator::MallocDebug.token() {
            Some(Allocator::MallocDebug)
        } else if s == Allocator::PyMalloc.token() {
            Some(Allocator::PyMalloc)
        } else if s == Allocator::PyMallocDebug.token() {
            Some(Allocator::PyMallocDebug)
        } else {
            None
        }
    }

    /// The message that turns `s` down: the input, then the accepted tokens.
    pub open spec fn rejection(s: Seq<char>) -> Seq<char> {
        s + INVALID_ALLOCATOR@
    }

    /// The canonical token, borrowed.
    pub fn as_str(&self) -> (s: &'static str)
        ensures
            s@ == self.token(),
    {
        match self {
            Allocator::NotSet => "not-set",
            Allocator::Default => "default",
            Allocator::Debug => "debug",
            Allocator::Malloc => "malloc",
            Allocator::MallocDebug => "malloc-debug",
            Allocator::PyMalloc => "py-malloc",
            Allocator::PyMallocDebug => "py-malloc-debug",
        }
    }

    /// Reads a token. Succeeds exactly on the canonical tokens; any other
    /// input comes back inside the rejection message.
    pub fn parse(value: &str) -> (r: Result<Self, String>)
        ensures
            match r {
                Ok(v) => Self::spec_parse(value@) == Some(v),
                Err(e) => Self::spec_parse(value@) is None && e@ == Self::rejection(value@),
            },
    {
        if str_eq(value, "not-set") {
            Ok(Allocator::NotSet)
        } else if str_eq(value, "default") {
            Ok(Allocator::Default)
        } else if str_eq(value, "debug") {
            Ok(Allocator::Debug)
        } else if str_eq(value, "malloc") {
            Ok(Allocator::Malloc)
        } else if str_eq(value, "malloc-debug") {
            Ok(Allocator::MallocDebug)
        } else if str_eq(value, "py-malloc") {
            Ok(Allocator::PyMalloc)
        } else if str_eq(value, "py-malloc-debug") {
            Ok(Allocator::PyMallocDebug)
        } else {
            Err(rejection_message(value, INVALID_ALLOCATOR))
        }
    }

    /// Every token is lowercase: it is made of lowercase letters, hyphens and
    /// underscores, and is not empty.
    pub proof fn lemma_token_shape(v: Self)
        ensures
            is_token(v.token()),
    {
        match v {
            Allocator::NotSet => {
                reveal_strlit("not-set");
                assert("not-set"@.len() == 7);
            },
            Allocator::Default => {
                reveal_strlit("default");
                assert("default"@.len() == 7);
            },
            Allocator::Debug => {
                reveal_strlit("debug");
                assert("debug"@.len() == 5);
            },
            Allocator::Malloc => {
                reveal_strlit("malloc");
                assert("malloc"@.len() == 6);
            },
            Allocator::MallocDebug => {
                reveal_strlit("malloc-debug");
                assert("malloc-debug"@.len() == 12);
            },
            Allocator::PyMalloc => {
                reveal_strlit("py-malloc");
                assert("py-malloc"@.len() == 9);
            },
            Allocator::PyMallocDebug => {
                reveal_strlit("py-malloc-debug");
                assert("py-malloc-debug"@.len() == 15);
            },
        }
    }

    /// No two values share a token.
    pub proof fn lemma_token_injective(a: Self, b: Self)
        requires
            a.token() == b.token(),
        ensures
            a == b,
    {
        reveal_strlit("not-set");
        reveal_strlit("default");
        reveal_strlit("debug");
        reveal_strlit("malloc");
        reveal_strlit("malloc-debug");
        reveal_strlit("py-malloc");
        reveal_strlit("py-malloc-debug");
        assert("not-set"@.len() == 7);
        assert("default"@.len() == 7);
        assert("debug"@.len() == 5);
        assert("malloc"@.len() == 6);
        assert("malloc-debug"@.len() == 12);
        assert("py-malloc"@.len() == 9);
        assert("py-malloc-debug"@.len() == 15);
        assert("not-set"@[0] == 'n' && "default"@[0] == 'd');
    }

    /// Round trip: the token of a value parses back to that value.
    pub proof fn lemma_parse_token(v: Self)
        ensures
            Self::spec_parse(v.token()) == Some(v),
    {
        if v.token() == Allocator::NotSet.token() {
            Self::lemma_token_injective(v, Allocator::NotSet);
        }
        if v.token() == Allocator::Default.token() {
            Self::lemma_token_injective(v, Allocator::Default);
        }
        if v.token() == Allocator::Debug.token() {
            Self::lemma_token_injective(v, Allocator::Debug);
        }
        if v.token() == Allocator::Malloc.token() {
            Self::lemma_token_injective(v, Allocator::Malloc);
        }
        if v.token() == Allocator::MallocDebug.token() {
            Self::lemma_token_injective(v, Allocator::MallocDebug);
        }
        if v.token() == Allocator::PyMalloc.token() {
            Self::lemma_token_injective(v, Allocator::PyMalloc);
        }
        if v.token() == Allocator::PyMallocDebug.token() {
            Self::lemma_token_injective(v, Allocator::PyMallocDebug);
        }
    }

    /// Round trip, the other way: what parses to a value is that value's token.
    pub proof fn lemma_token_parse(s: Seq<char>, v: Self)
        requires
            Self::spec_parse(s) == Some(v),
        ensures
            v.token() == s,
    {
    }

    /// A rejection carries what it rejects and what it would accept: it
    /// begins with the input, and every accepted token occurs in it.
    pub proof fn lemma_rejection_names(s: Seq<char>, v: Self)
        ensures
            s.is_prefix_of(Self::rejection(s)),
            occurs_in(v.token(), Self::rejection(s)),
    {
        let m = Self::rejection(s);
        let n = s.len() as int;
        reveal_strlit(
            " is not a valid allocator value; use 'not-set', 'default', 'debug', 'malloc', 'malloc-debug', 'py-malloc' or 'py-malloc-debug'",
        );
        assert(INVALID_ALLOCATOR@.len() == 126);
        match v {
            Allocator::NotSet => {
                reveal_strlit("not-set");
                assert(m.subrange(n + 38, n + 38 + 7) =~= "not-set"@);
            },
            Allocator::Default => {
                reveal_strlit("default");
                assert(m.subrange(n + 49, n + 49 + 7) =~= "default"@);
            },
            Allocator::Debug => {
                reveal_strlit("debug");
                assert(m.subrange(n + 60, n + 60 + 5) =~= "debug"@);
            },
            Allocator::Malloc => {
                reveal_strlit("malloc");
                assert(m.subrange(n + 69, n + 69 + 6) =~= "malloc"@);
            },
            Allocator::MallocDebug => {
                reveal_strlit("malloc-debug");
                assert(m.subrange(n + 79, n + 79 + 12) =~= "malloc-debug"@);
            },
            Allocator::PyMalloc => {
                reveal_strlit("py-malloc");
                assert(m.subrange(n + 95, n + 95 + 9) =~= "py-malloc"@);
            },
            Allocator::PyMallocDebug => {
                reveal_strlit("py-malloc-debug");
                assert(m.subrange(n + 110, n + 110 + 15) =~= "py-malloc-debug"@);
            },
        }
    }

    /// Total rejection: a string is turned down exactly when it is no value's token.
    pub proof fn lemma_parse_rejects(s: Seq<char>)
        ensures
            Self::spec_parse(s) is None <==> forall|v: Self| v.token() != s,
    {
        if Self::spec_parse(s) is None {
            assert forall|v: Self| v.token() != s by {
                Self::lemma_parse_token(v);
            }
        } else {
            assert(Self::spec_parse(s)->0.token() == s);
        }
    }
}

impl Allocator {
    /// The integer code that the native API gives this value.
    pub open spec fn code(self) -> int {
        match self {
            Allocator::NotSet => 0,
            Allocator::Default => 1,
            Allocator::Debug => 2,
            Allocator::Malloc => 3,
            Allocator::MallocDebug => 4,
            Allocator::PyMalloc => 5,
            Allocator::PyMallocDebug => 6,
        }
    }

    /// The value with a given code. Only the codes above stand for a value.
    pub open spec fn spec_from_code(code: int) -> Option<Self> {
        if code == 0 {
            Some(Allocator::NotSet)
        } else if code == 1 {
            Some(Allocator::Default)
        } else if code == 2 {
            Some(Allocator::Debug)
        } else if code == 3 {
            Some(Allocator::Malloc)
        } else if code == 4 {
            Some(Allocator::MallocDebug)
        } else if code == 5 {
            Some(Allocator::PyMalloc)
        } else if code == 6 {
            Some(Allocator::PyMallocDebug)
        } else {
            None
        }
    }

    /// The message that turns a code down: the code in decimal, then the
    /// accepted codes.
    pub open spec fn code_rejection(code: int) -> Seq<char> {
        decimal(code) + INVALID_ALLOCATOR_CODE@
    }

    /// The integer code that the native API gives this value.
    pub fn to_code(&self) -> (c: i32)
        ensures
            c == self.code(),
    {
        match self {
            Allocator::NotSet => 0,
            Allocator::Default => 1,
            Allocator::Debug => 2,
            Allocator::Malloc => 3,
            Allocator::MallocDebug => 4,
            Allocator::PyMalloc => 5,
            Allocator::PyMallocDebug => 6,
        }
    }

    /// Reads a native code. This is exact: a code that stands for no value
    /// is turned down, and comes back inside the rejection message.
    pub fn from_code(code: i32) -> (r: Result<Self, String>)
        ensures
            match r {
                Ok(v) => Self::spec_from_code(code as int) == Some(v),
                Err(e) => Self::spec_from_code(code as int) is None
                    && e@ == Self::code_rejection(code as int),
            },
    {
        if code == 0 {
            Ok(Allocator::NotSet)
        } else if code == 1 {
            Ok(Allocator::Default)
        } else if code == 2 {
            Ok(Allocator::Debug)
        } else if code == 3 {
            Ok(Allocator::Malloc)
        } else if code == 4 {
            Ok(Allocator::MallocDebug)
        } else if code == 5 {
            Ok(Allocator::PyMalloc)
        } else if code == 6 {
            Ok(Allocator::PyMallocDebug)
        } else {
            let mut e = i32_to_string(code);
            e.append(INVALID_ALLOCATOR_CODE);
            Err(e)
        }
    }

    /// No two values share a code.
    pub proof fn lemma_code_injective(a: Self, b: Self)
        requires
            a.code() == b.code(),
        ensures
            a == b,
    {
    }

    /// Round trip: the code of a value reads back as that value.
    pub proof fn lemma_from_code_of_code(v: Self)
        ensures
            Self::spec_from_code(v.code()) == Some(v),
    {
    }

    /// A code is turned down exactly when it is no value's code, and the
    /// rejection begins with the code.
    pub proof fn lemma_from_code_rejects(code: int)
        ensures
            Self::spec_from_code(code) is None <==> forall|v: Self| v.code() != code,
            decimal(code).is_prefix_of(Self::code_rejection(code)),
    {
        if Self::spec_from_code(code) is Some {
            assert(Self::spec_from_code(code)->0.code() == code);
        }
    }
}

impl ToString for Allocator {
    /// The canonical token, owned.
    fn to_string(&self) -> (s: String)
        ensures
            s@ == self.token(),
    {
        self.as_str().to_owned()
    }
}

impl From<Allocator> for String {
    fn from(v: Allocator) -> (s: String)
        ensures
            s@ == v.token(),
    {
        v.to_string()
    }
}

/// `from` states its contract itself: ghost code cannot build the string
/// that a token makes, so `from_spec` says nothing.
impl FromSpecImpl<Allocator> for String {
    open spec fn obeys_from_spec() -> bool {
        false
    }

    open spec fn from_spec(v: Allocator) -> String {
        arbitrary()
    }
}

impl<'a> TryFrom<&'a str> for Allocator {
    type Error = String;

    fn try_from(value: &'a str) -> (r: Result<Self, String>)
        ensures
            match r {
                Ok(v) => Self::spec_parse(value@) == Some(v),
                Err(e) => Self::spec_parse(value@) is None && e@ == Self::rejection(value@),
            },
    {
        Self::parse(value)
    }
}

/// `try_from` states its contract itself: ghost code cannot build the
/// string of a rejection, so `try_from_spec` says nothing.
impl<'a> TryFromSpecImpl<&'a str> for Allocator {
    open spec fn obeys_try_from_spec() -> bool {
        false
    }

    open spec fn try_from_spec(v: &'a str) -> Result<Self, String> {
        arbitrary()
    }
}

impl TryFrom<String> for Allocator {
    type Error = String;

    fn try_from(value: String) -> (r: Result<Self, String>)
        ensures
            match r {
                Ok(v) => Self::spec_parse(value@) == Some(v),
                Err(e) => Self::spec_parse(value@) is None && e@ == Self::rejection(value@),
            },
    {
        Self::parse(value.as_str())
    }
}

/// `try_from` states its contract itself: ghost code cannot build the
/// string of a rejection, so `try_from_spec` says nothing.
impl TryFromSpecImpl<String> for Allocator {
    open spec fn obeys_try_from_spec() -> bool {
        false
    }

    open spec fn try_from_spec(v: String) -> Result<Self, String> {
        arbitrary()
    }
}

} // verus!
