//! Laws of the binder, stated and proved over the spec functions that the
//! binding contracts use.

use vstd::prelude::*;

use crate::coerce::strkey_ok;
use crate::schema::{
    ValidatorV, spec_currency_err, spec_currency_ok, spec_status_of, spec_validator_err,
    spec_validator_ok, validators_field_ok, validators_field_val,
};
use crate::tree::{DocValue, fderr, spec_find, spec_lookup, spec_lookup_from, str_ok, str_val};

verus! {

/// A single-entry table misses every key other than its own.
pub proof fn lemma_singleton_miss(p: (String, DocValue), k: Seq<char>)
    requires
        p.0@ != k,
    ensures
        spec_lookup(seq![p], k) is None,
{
    let t = seq![p];
    assert(spec_lookup_from(t, k, 1) is None);
    assert(spec_lookup_from(t, k, 0) is None);
}

/// A single-entry table yields its value under its own key.
pub proof fn lemma_singleton_hit(p: (String, DocValue), k: Seq<char>)
    requires
        p.0@ == k,
    ensures
        spec_lookup(seq![p], k) == Some(p.1),
{
    let t = seq![p];
    assert(spec_lookup_from(t, k, 0) == Some(p.1));
}

/// Alias equivalence: for a field with canonical key `k1` and alias `k2`, a
/// document holding the field only under the alias finds the same value, and
/// binds it to the same field value, as one holding it only under the
/// canonical key.
pub proof fn lemma_alias_equivalent(ka: String, kb: String, v: DocValue, k1: Seq<char>, k2: Seq<
    char,
>)
    requires
        ka@ == k1,
        kb@ == k2,
    ensures
        spec_find(seq![(ka, v)], k1, k2) == Some(v),
        spec_find(seq![(kb, v)], k1, k2) == Some(v),
        str_val(seq![(ka, v)], k1, k2) == str_val(seq![(kb, v)], k1, k2),
        str_ok(seq![(ka, v)], k1, k2) == str_ok(seq![(kb, v)], k1, k2),
{
    lemma_singleton_hit((ka, v), k1);
    if k1 == k2 {
        lemma_singleton_hit((kb, v), k1);
    } else {
        lemma_singleton_miss((kb, v), k1);
        lemma_singleton_hit((kb, v), k2);
    }
}

/// Alias equivalence over arbitrary documents: a document that yields the
/// field's value only under the alias binds the field exactly as any
/// document yielding the same value under the canonical key. Every field
/// kind reads the document through `spec_find`, so the equality governs
/// plain strings (stated below), booleans, counts, tags, rich values and
/// sequences alike.
pub proof fn lemma_alias_equivalent_general(
    t1: Seq<(String, DocValue)>,
    t2: Seq<(String, DocValue)>,
    v: DocValue,
    k1: Seq<char>,
    k2: Seq<char>,
)
    requires
        spec_lookup(t1, k1) == Some(v),
        spec_lookup(t2, k1) is None,
        spec_lookup(t2, k2) == Some(v),
    ensures
        spec_find(t1, k1, k2) == spec_find(t2, k1, k2),
        spec_find(t2, k1, k2) == Some(v),
        str_ok(t1, k1, k2) == str_ok(t2, k1, k2),
        str_val(t1, k1, k2) == str_val(t2, k1, k2),
{
}

/// A malformed rich-value string yields a decoding error naming the exact
/// field path: a validator entry whose public-key text does not parse binds
/// to the error at `validators.public_key`, whatever the malformed text.
pub proof fn lemma_malformed_key_names_field(k: String, s: String)
    requires
        k@ == "public_key"@ || k@ == "PUBLIC_KEY"@,
        !strkey_ok(s@),
    ensures
        !spec_validator_ok(seq![(k, DocValue::Text(s))]),
        spec_validator_err(seq![(k, DocValue::Text(s))], fderr("validators.public_key"@)),
{
    let p = (k, DocValue::Text(s));
    let t = seq![p];
    reveal_strlit("alias");
    reveal_strlit("ALIAS");
    reveal_strlit("display_name");
    reveal_strlit("DISPLAY_NAME");
    reveal_strlit("public_key");
    reveal_strlit("PUBLIC_KEY");
    assert("alias"@.len() == 5);
    assert("ALIAS"@.len() == 5);
    assert("display_name"@.len() == 12);
    assert("DISPLAY_NAME"@.len() == 12);
    assert("public_key"@.len() == 10);
    assert("PUBLIC_KEY"@.len() == 10);
    lemma_singleton_miss(p, "alias"@);
    lemma_singleton_miss(p, "ALIAS"@);
    lemma_singleton_miss(p, "display_name"@);
    lemma_singleton_miss(p, "DISPLAY_NAME"@);
    if k@ == "public_key"@ {
        lemma_singleton_hit(p, "public_key"@);
    } else {
        lemma_singleton_miss(p, "public_key"@);
        lemma_singleton_hit(p, "PUBLIC_KEY"@);
    }
}

/// A document with no entry for a sequence field binds that field to an
/// empty ordered sequence, never to an absent value: shown for the
/// validators field of the manifest.
pub proof fn lemma_absent_sequence_binds_empty(t: Seq<(String, DocValue)>)
    requires
        spec_find(t, "validators"@, "VALIDATORS"@) is None,
    ensures
        validators_field_ok(t),
        validators_field_val(t) == Seq::<ValidatorV>::empty(),
{
}

/// An unrecognized status tag yields a decoding error at the status field,
/// never a silent default: a currency entry whose status text matches no
/// listed tag name binds to the error at `currencies.status`.
pub proof fn lemma_unknown_tag_rejected(k: String, s: String)
    requires
        k@ == "status"@ || k@ == "STATUS"@,
        spec_status_of(s@) is None,
    ensures
        !spec_currency_ok(seq![(k, DocValue::Text(s))]),
        spec_currency_err(seq![(k, DocValue::Text(s))], fderr("currencies.status"@)),
{
    let p = (k, DocValue::Text(s));
    let t = seq![p];
    reveal_strlit("code");
    reveal_strlit("CODE");
    reveal_strlit("code_template");
    reveal_strlit("CODE_TEMPLATE");
    reveal_strlit("issuer");
    reveal_strlit("ISSUER");
    reveal_strlit("status");
    reveal_strlit("STATUS");
    assert("code"@.len() == 4);
    assert("CODE"@.len() == 4);
    assert("code_template"@.len() == 13);
    assert("CODE_TEMPLATE"@.len() == 13);
    assert("status"@.len() == 6);
    assert("STATUS"@.len() == 6);
    assert("issuer"@ != "status"@) by {
        assert("issuer"@[0] == 'i');
        assert("status"@[0] == 's');
    }
    assert("issuer"@ != "STATUS"@) by {
        assert("issuer"@[0] == 'i');
        assert("STATUS"@[0] == 'S');
    }
    assert("ISSUER"@ != "status"@) by {
        assert("ISSUER"@[0] == 'I');
        assert("status"@[0] == 's');
    }
    assert("ISSUER"@ != "STATUS"@) by {
        assert("ISSUER"@[0] == 'I');
        assert("STATUS"@[0] == 'S');
    }
    lemma_singleton_miss(p, "code"@);
    lemma_singleton_miss(p, "CODE"@);
    lemma_singleton_miss(p, "code_template"@);
    lemma_singleton_miss(p, "CODE_TEMPLATE"@);
    lemma_singleton_miss(p, "issuer"@);
    lemma_singleton_miss(p, "ISSUER"@);
    if k@ == "status"@ {
        lemma_singleton_hit(p, "status"@);
    } else {
        lemma_singleton_miss(p, "status"@);
        lemma_singleton_hit(p, "STATUS"@);
    }
}

} // verus!
