//! Resolution of the `terminfo` database.

use crate::text::{is_token, occurs_in, rejection_message, str_eq, strip_prefix};
use vstd::prelude::*;
use vstd::std_specs::cmp::PartialEqSpecImpl;
use vstd::std_specs::convert::{FromSpecImpl, TryFromSpecImpl};
use vstd::string::*;

verus! {

/// What follows the input in the message that turns it down as a
/// resolution.
pub const INVALID_TERMINFO_RESOLUTION: &'static str =
    " is not a valid terminfo resolution value; use 'dynamic', 'none' or 'static:<value>'";

/// Defines `terminfo` database resolution semantics.
#[derive(Debug)]
pub enum TerminfoResolution {
    /// Resolve `terminfo` database using appropriate behavior for current OS.
    Dynamic,
    /// Do not attempt to resolve the `terminfo` database. Basically a no-op.
    Off,
    /// Use a specified string as the `TERMINFO_DIRS` value.
    Static(String),
}

/// The view of a [`TerminfoResolution`]: the same three shapes, with the
/// payload as a sequence of characters.
pub enum TerminfoShape {
    /// Resolution at run time.
    Dynamic,
    /// No resolution.
    Off,
    /// A fixed `TERMINFO_DIRS` value.
    Static(Seq<char>),
}

impl View for TerminfoResolution {
    type V = TerminfoShape;

    open spec fn view(&self) -> TerminfoShape {
        match self {
            TerminfoResolution::Dynamic => TerminfoShape::Dynamic,
            TerminfoResolution::Off => TerminfoShape::Off,
            TerminfoResolution::Static(payload) => TerminfoShape::Static(payload@),
        }
    }
}

impl TerminfoShape {
    /// The canonical token of a shape. A payload follows the prefix
    /// `static:` as it is, whatever it holds.
    pub open spec fn token(self) -> Seq<char> {
        match self {
            TerminfoShape::Dynamic => "dynamic"@,
            TerminfoShape::Off => "none"@,
            TerminfoShape::Static(payload) => "static:"@ + payload,
        }
    }
}

impl TerminfoResolution {
    /// The shape that a string names. `dynamic` and `none` match exactly;
    /// after the prefix `static:` the rest of the string is the payload,
    /// taken as it is.
    pub open spec fn spec_parse(s: Seq<char>) -> Option<TerminfoShape> {
        if s == "dynamic"@ {
            Some(TerminfoShape::Dynamic)
        } else if s == "none"@ {
            Some(TerminfoShape::Off)
        } else if "static:"@.is_prefix_of(s) {
            Some(TerminfoShape::Static(s.skip("static:"@.len() as int)))
        } else {
            None
        }
    }

    /// The message that turns `s` down: the input, then the accepted shapes.
    pub open spec fn rejection(s: Seq<char>) -> Seq<char> {
        s + INVALID_TERMINFO_RESOLUTION@
    }

    /// Reads a token. Succeeds exactly on the three shapes; any other input
    /// comes back inside the rejection message.
    pub fn parse(value: &str) -> (r: Result<Self, String>)
        ensures
            match r {
                Ok(v) => Self::spec_parse(value@) == Some(v@),
                Err(e) => Self::spec_parse(value@) is None && e@ == Self::rejection(value@),
            },
    {
        if str_eq(value, "dynamic") {
            Ok(TerminfoResolution::Dynamic)
        } else if str_eq(value, "none") {
            Ok(TerminfoResolution::Off)
        } else {
            match strip_prefix(value, "static:") {
                Some(payload) => {
                    assert(value@.skip("static:"@.len() as int) =~= payload@);
                    assert(value@.subrange(0, "static:"@.len() as int) =~= "static:"@);
                    Ok(TerminfoResolution::Static(payload.to_owned()))
                },
                None => Err(rejection_message(value, INVALID_TERMINFO_RESOLUTION)),
            }
        }
    }

    /// The two fixed tokens are lowercase, and so is the name that the third
    /// shape puts before its colon and its payload.
    pub proof fn lemma_token_shape(v: TerminfoShape)
        ensures
            match v {
                TerminfoShape::Static(payload) => is_token("static"@) && v.token() == "static"@
                    + ":"@ + payload,
                _ => is_token(v.token()),
            },
    {
        reveal_strlit("dynamic");
        reveal_strlit("none");
        reveal_strlit("static");
        reveal_strlit("static:");
        reveal_strlit(":");
        assert("dynamic"@.len() == 7);
        assert("none"@.len() == 4);
        assert("static"@.len() == 6);
        assert("static:"@ =~= "static"@ + ":"@);
    }

    /// Payload law: `static:` followed by any payload, an empty one or one
    /// with colons included, names the static shape with that payload.
    pub proof fn lemma_parse_static(payload: Seq<char>)
        ensures
            Self::spec_parse("static:"@ + payload) == Some(TerminfoShape::Static(payload)),
    {
        let s = "static:"@ + payload;
        reveal_strlit("static:");
        reveal_strlit("dynamic");
        reveal_strlit("none");
        assert("static:"@.len() == 7);
        assert(s[0] == "static:"@[0]);
        assert("static:"@[0] == 's' && "dynamic"@[0] == 'd' && "none"@[0] == 'n');
        assert(s.subrange(0, 7) =~= "static:"@);
        assert(s.skip(7) =~= payload);
    }

    /// Round trip: the token of a shape parses back to that shape.
    pub proof fn lemma_parse_token(v: TerminfoShape)
        ensures
            Self::spec_parse(v.token()) == Some(v),
    {
        reveal_strlit("dynamic");
        reveal_strlit("none");
        reveal_strlit("static:");
        assert("dynamic"@.len() == 7 && "none"@.len() == 4 && "static:"@.len() == 7);
        match v {
            TerminfoShape::Dynamic => {},
            TerminfoShape::Off => {},
            TerminfoShape::Static(payload) => {
                Self::lemma_parse_static(payload);
            },
        }
    }

    /// Round trip, the other way: what parses to a shape is that shape's token.
    pub proof fn lemma_token_parse(s: Seq<char>, v: TerminfoShape)
        requires
            Self::spec_parse(s) == Some(v),
        ensures
            v.token() == s,
    {
        if s != "dynamic"@ && s != "none"@ {
            let n = "static:"@.len() as int;
            assert(s =~= s.subrange(0, n) + s.skip(n));
        }
    }

    /// A rejection carries what it rejects and what it would accept: it
    /// begins with the input, and the two fixed tokens and the prefix of the
    /// third shape occur in it.
    pub proof fn lemma_rejection_names(s: Seq<char>)
        ensures
            s.is_prefix_of(Self::rejection(s)),
            occurs_in("dynamic"@, Self::rejection(s)),
            occurs_in("none"@, Self::rejection(s)),
            occurs_in("static:"@, Self::rejection(s)),
    {
        let m = Self::rejection(s);
        let n = s.len() as int;
        reveal_strlit(
            " is not a valid terminfo resolution value; use 'dynamic', 'none' or 'static:<value>'",
        );
        reveal_strlit("dynamic");
        reveal_strlit("none");
        reveal_strlit("static:");
        assert(INVALID_TERMINFO_RESOLUTION@.len() == 84);
        assert(m.subrange(n + 48, n + 48 + 7) =~= "dynamic"@);
        assert(m.subrange(n + 59, n + 59 + 4) =~= "none"@);
        assert(m.subrange(n + 69, n + 69 + 7) =~= "static:"@);
    }

    /// Total rejection: a string is turned down exactly when it is no shape's token.
    pub proof fn lemma_parse_rejects(s: Seq<char>)
        ensures
            Self::spec_parse(s) is None <==> forall|v: TerminfoShape| v.token() != s,
    {
        if Self::spec_parse(s) is None {
            assert forall|v: TerminfoShape| v.token() != s by {
                Self::lemma_parse_token(v);
            }
        } else {
            Self::lemma_token_parse(s, Self::spec_parse(s)->0);
        }
    }
}

impl Clone for TerminfoResolution {
    fn clone(&self) -> (r: Self)
        ensures
            r == *self,
    {
        match self {
            TerminfoResolution::Dynamic => TerminfoResolution::Dynamic,
            TerminfoResolution::Off => TerminfoResolution::Off,
            TerminfoResolution::Static(payload) => TerminfoResolution::Static(payload.clone()),
        }
    }
}

impl PartialEq for TerminfoResolution {
    fn eq(&self, other: &Self) -> (r: bool) {
        match self {
            TerminfoResolution::Dynamic => matches!(other, TerminfoResolution::Dynamic),
            TerminfoResolution::Off => matches!(other, TerminfoResolution::Off),
            TerminfoResolution::Static(a) => match other {
                TerminfoResolution::Static(b) => *a == *b,
                _ => false,
            },
        }
    }
}

impl PartialEqSpecImpl for TerminfoResolution {
    open spec fn obeys_eq_spec() -> bool {
        true
    }

    open spec fn eq_spec(&self, other: &Self) -> bool {
        self@ == other@
    }
}

impl ToString for TerminfoResolution {
    /// The canonical token, owned.
    fn to_string(&self) -> (s: String)
        ensures
            s@ == self@.token(),
    {
        match self {
            TerminfoResolution::Dynamic => "dynamic".to_owned(),
            TerminfoResolution::Off => "none".to_owned(),
            TerminfoResolution::Static(payload) => {
                let mut s = "static:".to_owned();
                s.append(payload.as_str());
                s
            },
        }
    }
}

impl From<TerminfoResolution> for String {
    fn from(t: TerminfoResolution) -> (s: String)
        ensures
            s@ == t@.token(),
    {
        t.to_string()
    }
}

/// `from` states its contract itself: ghost code cannot build the string
/// that a token makes, so `from_spec` says nothing.
impl FromSpecImpl<TerminfoResolution> for String {
    open spec fn obeys_from_spec() -> bool {
        false
    }

    open spec fn from_spec(t: TerminfoResolution) -> String {
        arbitrary()
    }
}

impl<'a> TryFrom<&'a str> for TerminfoResolution {
    type Error = String;

    fn try_from(value: &'a str) -> (r: Result<Self, String>)
        ensures
            match r {
                Ok(v) => Self::spec_parse(value@) == Some(v@),
                Err(e) => Self::spec_parse(value@) is None && e@ == Self::rejection(value@),
            },
    {
        Self::parse(value)
    }
}

/// `try_from` states its contract itself: ghost code cannot build the
/// string of a rejection, so `try_from_spec` says nothing.
impl<'a> TryFromSpecImpl<&'a str> for TerminfoResolution {
    open spec fn obeys_try_from_spec() -> bool {
        false
    }

    open spec fn try_from_spec(v: &'a str) -> Result<Self, String> {
        arbitrary()
    }
}

impl TryFrom<String> for TerminfoResolution {
    type Error = String;

    fn try_from(value: String) -> (r: Result<Self, String>)
        ensures
            match r {
                Ok(v) => Self::spec_parse(value@) == Some(v@),
                Err(e) => Self::spec_parse(value@) is None && e@ == Self::rejection(value@),
            },
    {
        Self::parse(value.as_str())
    }
}

/// `try_from` states its contract itself: ghost code cannot build the
/// string of a rejection, so `try_from_spec` says nothing.
impl TryFromSpecImpl<String> for TerminfoResolution {
    open spec fn obeys_try_from_spec() -> bool {
        false
    }

    open spec fn try_from_spec(v: String) -> Result<Self, String> {
        arbitrary()
    }
}

} // verus!
