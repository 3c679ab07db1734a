//! The decoded document tree and the generic field lookup: a table maps
//! string keys to values, a field is looked up under its canonical key first
//! and then under its historical alias, and the first match wins.

use vstd::prelude::*;

use crate::coerce::RichValue;
use crate::errors::{Error, ErrorV};

verus! {

/// One decoded document value: a scalar, an ordered sequence, or a table of
/// key/value pairs. `Other` stands for the scalar kinds that no schema field
/// accepts (dates, fractional numbers): binding one to a field is an error.
pub enum DocValue {
    Text(String),
    Integer(i64),
    Boolean(bool),
    Array(Vec<DocValue>),
    Table(Vec<(String, DocValue)>),
    Other,
}

/// The value under key `k` among the entries of `t` from index `i` on,
/// earliest entry first.
pub open spec fn spec_lookup_from(t: Seq<(String, DocValue)>, k: Seq<char>, i: int) -> Option<
    DocValue,
>
    decreases t.len() - i,
{
    if i < 0 || i >= t.len() {
        None
    } else if t[i].0@ == k {
        Some(t[i].1)
    } else {
        spec_lookup_from(t, k, i + 1)
    }
}

/// The value under key `k` in table `t`: the earliest entry wins.
pub open spec fn spec_lookup(t: Seq<(String, DocValue)>, k: Seq<char>) -> Option<DocValue> {
    spec_lookup_from(t, k, 0)
}

/// The value of the field with canonical key `k1` and alias `k2`: the
/// canonical key is preferred, the alias serves where it is absent.
pub open spec fn spec_find(t: Seq<(String, DocValue)>, k1: Seq<char>, k2: Seq<char>) -> Option<
    DocValue,
> {
    match spec_lookup(t, k1) {
        Some(v) => Some(v),
        None => spec_lookup(t, k2),
    }
}

fn lookup_from<'a>(t: &'a Vec<(String, DocValue)>, k: &String, i: usize) -> (r: Option<
    &'a DocValue,
>)
    requires
        i <= t@.len(),
    ensures
        match r {
            Some(v) => spec_lookup_from(t@, k@, i as int) == Some(*v),
            None => spec_lookup_from(t@, k@, i as int) is None,
        },
    decreases t@.len() - i,
{
    if i >= t.len() {
        None
    } else if t[i].0 == *k {
        Some(&t[i].1)
    } else {
        lookup_from(t, k, i + 1)
    }
}

/// Finds the field with canonical key `k1` and alias `k2` in table `t`.
pub fn find_field<'a>(t: &'a Vec<(String, DocValue)>, k1: &str, k2: &str) -> (r: Option<
    &'a DocValue,
>)
    ensures
        match r {
            Some(v) => spec_find(t@, k1@, k2@) == Some(*v),
            None => spec_find(t@, k1@, k2@) is None,
        },
{
    let k1s = k1.to_owned();
    match lookup_from(t, &k1s, 0) {
        Some(v) => Some(v),
        None => {
            let k2s = k2.to_owned();
            lookup_from(t, &k2s, 0)
        },
    }
}

/// The view of an optional rich value: its canonical text, if present.
pub open spec fn opt_text_view<T: View<V = Seq<char>>>(o: Option<T>) -> Option<Seq<char>> {
    match o {
        Some(v) => Some(v@),
        None => None,
    }
}

/// The decoding error naming the field at `path`.
pub open spec fn fderr(path: Seq<char>) -> ErrorV {
    ErrorV::FieldDecodingError { path }
}

fn fderr_at(path: &str) -> (r: Error)
    ensures
        r.deep_view() == fderr(path@),
{
    Error::FieldDecodingError { path: path.to_owned() }
}

// ---------------------------------------------------------------------------
// Plain string fields
// ---------------------------------------------------------------------------

/// Whether the field binds as an optional string: absent, or a text value.
pub open spec fn str_ok(t: Seq<(String, DocValue)>, k1: Seq<char>, k2: Seq<char>) -> bool {
    match spec_find(t, k1, k2) {
        None => true,
        Some(DocValue::Text(_)) => true,
        Some(_) => false,
    }
}

/// The bound optional string value of the field.
pub open spec fn str_val(t: Seq<(String, DocValue)>, k1: Seq<char>, k2: Seq<char>) -> Option<
    Seq<char>,
> {
    match spec_find(t, k1, k2) {
        Some(DocValue::Text(s)) => Some(s@),
        _ => None,
    }
}

/// Binds an optional plain string field.
pub fn get_str(t: &Vec<(String, DocValue)>, k1: &str, k2: &str, path: &str) -> (r: Result<
    Option<String>,
    Error,
>)
    ensures
        r is Ok <==> str_ok(t@, k1@, k2@),
        r is Ok ==> r.unwrap().deep_view() == str_val(t@, k1@, k2@),
        r is Err ==> r.unwrap_err().deep_view() == fderr(path@),
{
    match find_field(t, k1, k2) {
        None => Ok(None),
        Some(DocValue::Text(s)) => Ok(Some(s.clone())),
        Some(_) => Err(fderr_at(path)),
    }
}

// ---------------------------------------------------------------------------
// Boolean fields
// ---------------------------------------------------------------------------

/// Whether the field binds as an optional boolean.
pub open spec fn bool_ok(t: Seq<(String, DocValue)>, k1: Seq<char>, k2: Seq<char>) -> bool {
    match spec_find(t, k1, k2) {
        None => true,
        Some(DocValue::Boolean(_)) => true,
        Some(_) => false,
    }
}

/// The bound optional boolean value of the field.
pub open spec fn bool_val(t: Seq<(String, DocValue)>, k1: Seq<char>, k2: Seq<char>) -> Option<
    bool,
> {
    match spec_find(t, k1, k2) {
        Some(DocValue::Boolean(b)) => Some(b),
        _ => None,
    }
}

/// Binds an optional boolean field.
pub fn get_bool(t: &Vec<(String, DocValue)>, k1: &str, k2: &str, path: &str) -> (r: Result<
    Option<bool>,
    Error,
>)
    ensures
        r is Ok <==> bool_ok(t@, k1@, k2@),
        r is Ok ==> r.unwrap() == bool_val(t@, k1@, k2@),
        r is Err ==> r.unwrap_err().deep_view() == fderr(path@),
{
    match find_field(t, k1, k2) {
        None => Ok(None),
        Some(DocValue::Boolean(b)) => Ok(Some(*b)),
        Some(_) => Err(fderr_at(path)),
    }
}

// ---------------------------------------------------------------------------
// Integer fields
// ---------------------------------------------------------------------------

/// Whether the field binds as an optional signed count.
pub open spec fn i64_ok(t: Seq<(String, DocValue)>, k1: Seq<char>, k2: Seq<char>) -> bool {
    match spec_find(t, k1, k2) {
        None => true,
        Some(DocValue::Integer(_)) => true,
        Some(_) => false,
    }
}

/// The bound optional signed count of the field.
pub open spec fn i64_val(t: Seq<(String, DocValue)>, k1: Seq<char>, k2: Seq<char>) -> Option<
    i64,
> {
    match spec_find(t, k1, k2) {
        Some(DocValue::Integer(i)) => Some(i),
        _ => None,
    }
}

/// Binds an optional signed count field.
pub fn get_i64(t: &Vec<(String, DocValue)>, k1: &str, k2: &str, path: &str) -> (r: Result<
    Option<i64>,
    Error,
>)
    ensures
        r is Ok <==> i64_ok(t@, k1@, k2@),
        r is Ok ==> r.unwrap() == i64_val(t@, k1@, k2@),
        r is Err ==> r.unwrap_err().deep_view() == fderr(path@),
{
    match find_field(t, k1, k2) {
        None => Ok(None),
        Some(DocValue::Integer(i)) => Ok(Some(*i)),
        Some(_) => Err(fderr_at(path)),
    }
}

/// Whether the field binds as an optional small count: absent, or an integer
/// within the display-decimal range.
pub open spec fn u8_ok(t: Seq<(String, DocValue)>, k1: Seq<char>, k2: Seq<char>) -> bool {
    match spec_find(t, k1, k2) {
        None => true,
        Some(DocValue::Integer(i)) => 0 <= i <= 255,
        Some(_) => false,
    }
}

/// The bound optional small count of the field.
pub open spec fn u8_val(t: Seq<(String, DocValue)>, k1: Seq<char>, k2: Seq<char>) -> Option<u8> {
    match spec_find(t, k1, k2) {
        Some(DocValue::Integer(i)) => Some(i as u8),
        _ => None,
    }
}

/// Binds an optional small count field.
pub fn get_u8(t: &Vec<(String, DocValue)>, k1: &str, k2: &str, path: &str) -> (r: Result<
    Option<u8>,
    Error,
>)
    ensures
        r is Ok <==> u8_ok(t@, k1@, k2@),
        r is Ok ==> r.unwrap() == u8_val(t@, k1@, k2@),
        r is Err ==> r.unwrap_err().deep_view() == fderr(path@),
{
    match find_field(t, k1, k2) {
        None => Ok(None),
        Some(DocValue::Integer(i)) => {
            if 0 <= *i && *i <= 255 {
                Ok(Some(*i as u8))
            } else {
                Err(fderr_at(path))
            }
        },
        Some(_) => Err(fderr_at(path)),
    }
}

// ---------------------------------------------------------------------------
// Rich-value fields
// ---------------------------------------------------------------------------

/// Whether the field binds as an optional rich value: absent, or a text value
/// that is well formed for `T`.
pub open spec fn rich_ok<T: RichValue>(
    t: Seq<(String, DocValue)>,
    k1: Seq<char>,
    k2: Seq<char>,
) -> bool {
    match spec_find(t, k1, k2) {
        None => true,
        Some(DocValue::Text(s)) => T::text_ok(s@),
        Some(_) => false,
    }
}

/// The canonical text of the bound optional rich value of the field.
pub open spec fn rich_val<T: RichValue>(
    t: Seq<(String, DocValue)>,
    k1: Seq<char>,
    k2: Seq<char>,
) -> Option<Seq<char>> {
    match spec_find(t, k1, k2) {
        Some(DocValue::Text(s)) => Some(T::canon(s@)),
        _ => None,
    }
}

/// Binds an optional rich-value field through the generic coercion.
pub fn get_rich<T: RichValue>(t: &Vec<(String, DocValue)>, k1: &str, k2: &str, path: &str) -> (r:
    Result<Option<T>, Error>)
    ensures
        r is Ok <==> rich_ok::<T>(t@, k1@, k2@),
        r is Ok ==> opt_text_view(r->Ok_0) == rich_val::<T>(t@, k1@, k2@),
        r is Err ==> r->Err_0.deep_view() == fderr(path@),
{
    match find_field(t, k1, k2) {
        None => Ok(None),
        Some(DocValue::Text(s)) => match T::from_text(s.as_str()) {
            Some(v) => Ok(Some(v)),
            None => Err(fderr_at(path)),
        },
        Some(_) => Err(fderr_at(path)),
    }
}

// ---------------------------------------------------------------------------
// Sequences of strings
// ---------------------------------------------------------------------------

/// The text of a document value, where it is one.
pub open spec fn text_of(v: DocValue) -> Seq<char> {
    match v {
        DocValue::Text(s) => s@,
        _ => Seq::empty(),
    }
}

/// Whether the field binds as a sequence of strings: absent, or an array
/// whose elements are all text values.
pub open spec fn str_seq_ok(t: Seq<(String, DocValue)>, k1: Seq<char>, k2: Seq<char>) -> bool {
    match spec_find(t, k1, k2) {
        None => true,
        Some(DocValue::Array(items)) => forall|i: int|
            0 <= i < items@.len() ==> items@[i] is Text,
        Some(_) => false,
    }
}

/// The bound sequence of the field: an absent field binds to the empty
/// sequence, never to an absent value.
pub open spec fn str_seq_val(t: Seq<(String, DocValue)>, k1: Seq<char>, k2: Seq<char>) -> Seq<
    Seq<char>,
> {
    match spec_find(t, k1, k2) {
        Some(DocValue::Array(items)) => Seq::new(items@.len(), |i: int| text_of(items@[i])),
        _ => Seq::empty(),
    }
}

/// Binds a sequence-of-strings field; an absent field gives the empty vector.
pub fn get_str_seq(t: &Vec<(String, DocValue)>, k1: &str, k2: &str, path: &str) -> (r: Result<
    Vec<String>,
    Error,
>)
    ensures
        r is Ok <==> str_seq_ok(t@, k1@, k2@),
        r is Ok ==> r.unwrap().deep_view() == str_seq_val(t@, k1@, k2@),
        r is Err ==> r.unwrap_err().deep_view() == fderr(path@),
{
    match find_field(t, k1, k2) {
        None => {
            let out: Vec<String> = Vec::new();
            proof {
                assert(out.deep_view() =~= str_seq_val(t@, k1@, k2@));
            }
            Ok(out)
        },
        Some(DocValue::Array(items)) => {
            let mut out: Vec<String> = Vec::new();
            let mut i: usize = 0;
            while i < items.len()
                invariant
                    i <= items@.len(),
                    out@.len() == i,
                    spec_find(t@, k1@, k2@) == Some(DocValue::Array(*items)),
                    forall|j: int| 0 <= j < i ==> items@[j] is Text,
                    forall|j: int| 0 <= j < i ==> out@[j]@ == text_of(#[trigger] items@[j]),
                decreases items@.len() - i,
            {
                match &items[i] {
                    DocValue::Text(s) => {
                        out.push(s.clone());
                    },
                    _ => {
                        return Err(fderr_at(path));
                    },
                }
                i = i + 1;
            }
            proof {
                assert forall|j: int| 0 <= j < out.deep_view().len() implies out.deep_view()[j]
                    == str_seq_val(t@, k1@, k2@)[j] by {
                    assert(out.deep_view()[j] == out@[j]@);
                    assert(str_seq_val(t@, k1@, k2@)[j] == text_of(items@[j]));
                }
                assert(out.deep_view() =~= str_seq_val(t@, k1@, k2@));
            }
            Ok(out)
        },
        Some(_) => Err(fderr_at(path)),
    }
}

} // verus!
