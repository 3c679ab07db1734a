//! Rich-value coercion: generic, bidirectional conversion between a textual
//! representation and a strongly typed value (network address, public key),
//! plus the caseless text comparison used for enumerated tags.

use vstd::prelude::*;

verus! {

// ---------------------------------------------------------------------------
// Caseless comparison for enumerated tags
// ---------------------------------------------------------------------------

/// Lower-cases one ASCII capital letter; every other character is unchanged.
pub open spec fn ascii_lower_char(c: char) -> char {
    if 65 <= c as u32 && c as u32 <= 90 {
        ((c as u8) + 32) as char
    } else {
        c
    }
}

/// Equality of two character sequences up to ASCII case folding.
pub open spec fn ascii_eq(a: Seq<char>, b: Seq<char>) -> bool {
    a.map_values(|c: char| ascii_lower_char(c)) == b.map_values(|c: char| ascii_lower_char(c))
}

/// Relies on str::eq_ignore_ascii_case: equality in which ASCII capital
/// letters match their lower-case forms and all other characters match
/// exactly.
#[verifier::external_body]
pub fn eq_ignore_case(a: &str, b: &str) -> (r: bool)
    ensures
        r == ascii_eq(a@, b@),
{
    a.eq_ignore_ascii_case(b)
}

// ---------------------------------------------------------------------------
// Rich values
// ---------------------------------------------------------------------------

/// A rich value: a validated typed value that the document stores as a plain
/// string. The view of a rich value is its canonical text. Implementations
/// supply one parse/format capability pair; everything else is generic.
pub trait RichValue: Sized + View<V = Seq<char>> {
    /// Whether `s` is a well-formed text for this type.
    spec fn text_ok(s: Seq<char>) -> bool;

    /// The canonical text of the value that `s` denotes.
    spec fn canon(s: Seq<char>) -> Seq<char>;

    /// Parses a textual representation into a validated value. The parsed
    /// value's text is itself well formed and a fixed point of `canon`.
    fn from_text(s: &str) -> (r: Option<Self>)
        ensures
            r is Some <==> Self::text_ok(s@),
            r is Some ==> r.unwrap()@ == Self::canon(s@),
            r is Some ==> Self::text_ok(r.unwrap()@) && Self::canon(r.unwrap()@) == r.unwrap()@;

    /// Formats a value back to its canonical text. Every value holds a
    /// well-formed text in canonical form, so the formatted text parses
    /// again and is a fixed point of `canon`.
    fn to_text(&self) -> (r: String)
        ensures
            r@ == self@,
            Self::text_ok(r@) && Self::canon(r@) == r@;
}

/// Whether `s` parses as a network address under the URI grammar.
pub uninterp spec fn uri_ok(s: Seq<char>) -> bool;

/// The canonical text of the network address that `s` denotes.
pub uninterp spec fn uri_canon(s: Seq<char>) -> Seq<char>;

/// Relies on http::uri::Uri: its `FromStr` accepts exactly the texts of the
/// URI grammar, and its `Display` renders the parsed address canonically,
/// both depending on the input text alone. The rendering preserves the
/// parsed components, so it parses again and renders to itself.
#[verifier::external_body]
fn uri_parse_canon(s: &str) -> (r: Option<String>)
    ensures
        r is Some <==> uri_ok(s@),
        r is Some ==> r.unwrap()@ == uri_canon(s@),
        r is Some ==> uri_ok(r.unwrap()@) && uri_canon(r.unwrap()@) == r.unwrap()@,
{
    s.parse::<http::uri::Uri>().ok().map(|u| u.to_string())
}

/// Whether `s` is a valid encoded account public key.
pub uninterp spec fn strkey_ok(s: Seq<char>) -> bool;

/// The canonical encoded text of the account public key that `s` denotes.
pub uninterp spec fn strkey_canon(s: Seq<char>) -> Seq<char>;

/// Relies on stellar_base::PublicKey: `from_account_id` accepts exactly the
/// well-formed encoded account ids, and `account_id` re-encodes the decoded
/// key, both depending on the input text alone. The re-encoding decodes to
/// the same key, so it is itself well formed and re-encodes to itself.
#[verifier::external_body]
fn strkey_parse_canon(s: &str) -> (r: Option<String>)
    ensures
        r is Some <==> strkey_ok(s@),
        r is Some ==> r.unwrap()@ == strkey_canon(s@),
        r is Some ==> strkey_ok(r.unwrap()@) && strkey_canon(r.unwrap()@) == r.unwrap()@,
{
    stellar_base::PublicKey::from_account_id(s).ok().map(|k| k.account_id())
}

/// A validated network address held in canonical textual form.
#[derive(Debug)]
pub struct NetAddress {
    text: String,
}

impl Clone for NetAddress {
    fn clone(&self) -> (r: Self)
        ensures
            r@ == self@,
    {
        proof {
            use_type_invariant(self);
        }
        NetAddress { text: self.text.clone() }
    }
}

impl NetAddress {
    #[verifier::type_invariant]
    closed spec fn wf(self) -> bool {
        uri_ok(self.text@) && uri_canon(self.text@) == self.text@
    }
}

impl View for NetAddress {
    type V = Seq<char>;

    closed spec fn view(&self) -> Seq<char> {
        self.text@
    }
}

impl DeepView for NetAddress {
    type V = Seq<char>;

    open spec fn deep_view(&self) -> Seq<char> {
        self@
    }
}

impl RichValue for NetAddress {
    open spec fn text_ok(s: Seq<char>) -> bool {
        uri_ok(s)
    }

    open spec fn canon(s: Seq<char>) -> Seq<char> {
        uri_canon(s)
    }

    fn from_text(s: &str) -> (r: Option<Self>) {
        match uri_parse_canon(s) {
            Some(text) => Some(NetAddress { text }),
            None => None,
        }
    }

    fn to_text(&self) -> (r: String) {
        proof {
            use_type_invariant(self);
        }
        self.text.clone()
    }
}

/// A validated account public key held in canonical encoded form.
#[derive(Debug)]
pub struct AccountKey {
    text: String,
}

impl Clone for AccountKey {
    fn clone(&self) -> (r: Self)
        ensures
            r@ == self@,
    {
        proof {
            use_type_invariant(self);
        }
        AccountKey { text: self.text.clone() }
    }
}

impl AccountKey {
    #[verifier::type_invariant]
    closed spec fn wf(self) -> bool {
        strkey_ok(self.text@) && strkey_canon(self.text@) == self.text@
    }
}

impl View for AccountKey {
    type V = Seq<char>;

    closed spec fn view(&self) -> Seq<char> {
        self.text@
    }
}

impl DeepView for AccountKey {
    type V = Seq<char>;

    open spec fn deep_view(&self) -> Seq<char> {
        self@
    }
}

impl RichValue for AccountKey {
    open spec fn text_ok(s: Seq<char>) -> bool {
        strkey_ok(s)
    }

    open spec fn canon(s: Seq<char>) -> Seq<char> {
        strkey_canon(s)
    }

    fn from_text(s: &str) -> (r: Option<Self>) {
        match strkey_parse_canon(s) {
            Some(text) => Some(AccountKey { text }),
            None => None,
        }
    }

    fn to_text(&self) -> (r: String) {
        proof {
            use_type_invariant(self);
        }
        self.text.clone()
    }
}

// ---------------------------------------------------------------------------
// The generic optional-value adapter
// ---------------------------------------------------------------------------

/// Coerces an optional textual value into an optional rich value: an absent
/// value stays absent without invoking the parser; a present text must be
/// well formed, and a malformed one is an error.
pub fn deserialize<T: RichValue>(v: Option<&str>) -> (r: Result<Option<T>, ()>)
    ensures
        v is None ==> r is Ok && r.unwrap() is None,
        v is Some && T::text_ok(v.unwrap()@) ==> r is Ok && r.unwrap() is Some
            && r.unwrap().unwrap()@ == T::canon(v.unwrap()@),
        v is Some && !T::text_ok(v.unwrap()@) ==> r is Err,
{
    match v {
        None => Ok(None),
        Some(s) => match T::from_text(s) {
            Some(value) => Ok(Some(value)),
            None => Err(()),
        },
    }
}

/// Formats an optional rich value back to its canonical text; an absent
/// value stays absent.
pub fn serialize<T: RichValue>(v: &Option<T>) -> (r: Option<String>)
    ensures
        r is Some <==> v is Some,
        r is Some ==> r.unwrap()@ == v.unwrap()@,
{
    match v {
        None => None,
        Some(value) => Some(value.to_text()),
    }
}

/// Round trip: parsing a well-formed text and formatting the parsed value
/// gives the canonical form of the input — which is itself well formed and
/// a fixed point of `canon`, so coercion canonicalizes in one step.
pub fn canonical_text<T: RichValue>(s: &str) -> (r: Option<String>)
    ensures
        r is Some <==> T::text_ok(s@),
        r is Some ==> r.unwrap()@ == T::canon(s@),
        r is Some ==> T::text_ok(r.unwrap()@) && T::canon(r.unwrap()@) == r.unwrap()@,
{
    match T::from_text(s) {
        Some(value) => Some(value.to_text()),
        None => None,
    }
}

/// Parse after format is the identity: formatting an optional rich value and
/// coercing the text back never fails and yields a value with the same
/// canonical text as the original.
pub fn reserialize<T: RichValue>(v: &Option<T>) -> (r: Result<Option<T>, ()>)
    ensures
        r is Ok,
        r.unwrap() is Some <==> v is Some,
        v is Some ==> r.unwrap().unwrap()@ == v.unwrap()@,
{
    match v {
        None => Ok(None),
        Some(value) => {
            let text = value.to_text();
            match T::from_text(text.as_str()) {
                Some(again) => Ok(Some(again)),
                None => Err(()),
            }
        },
    }
}

} // verus!
