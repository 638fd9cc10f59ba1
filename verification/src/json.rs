use vstd::prelude::*;
use vstd::string::StringExecFns;

verus! {

/// A parsed feed document, held as a plain JSON tree.
///
/// The host program decodes the HTTP response body with its JSON library and
/// converts the result into this type, so that every pipeline stage works on
/// plain values. An object keeps its pairs in decode order; a lookup takes the
/// first pair whose key matches. Numeric leaves carry no payload: no pipeline
/// stage reads a number, the variant only records that a number stood there.
#[derive(Debug)]
pub enum JsonValue {
    Null,
    Bool(bool),
    Number,
    Str(String),
    Array(Vec<JsonValue>),
    Object(Vec<(String, JsonValue)>),
}

/// The first value among `pairs` whose key reads `key`, if any.
pub open spec fn lookup_pairs(pairs: Seq<(String, JsonValue)>, key: Seq<char>) -> Option<
    JsonValue,
>
    decreases pairs.len(),
{
    if pairs.len() == 0 {
        None
    } else if pairs[0].0@ == key {
        Some(pairs[0].1)
    } else {
        lookup_pairs(pairs.drop_first(), key)
    }
}

/// The value of field `key` in `v`: present only when `v` is an object that
/// holds that key. Every other node kind has no fields.
pub open spec fn spec_field(v: JsonValue, key: Seq<char>) -> Option<JsonValue> {
    match v {
        JsonValue::Object(pairs) => lookup_pairs(pairs@, key),
        _ => None,
    }
}

/// The value of field `key` in `v` when that field is a string leaf.
pub open spec fn spec_str_field(v: JsonValue, key: Seq<char>) -> Option<Seq<char>> {
    match spec_field(v, key) {
        Some(JsonValue::Str(s)) => Some(s@),
        _ => None,
    }
}

proof fn lemma_lookup_pairs_skip(pairs: Seq<(String, JsonValue)>, key: Seq<char>, i: int)
    requires
        0 <= i <= pairs.len(),
        forall|j: int| 0 <= j < i ==> (#[trigger] pairs[j]).0@ != key,
    ensures
        lookup_pairs(pairs, key) == lookup_pairs(pairs.skip(i), key),
    decreases i,
{
    if i > 0 {
        lemma_lookup_pairs_skip(pairs, key, i - 1);
        assert(pairs.skip(i - 1)[0] == pairs[i - 1]);
        assert(pairs.skip(i - 1).drop_first() =~= pairs.skip(i));
    } else {
        assert(pairs.skip(0) =~= pairs);
    }
}

impl JsonValue {
    /// Field lookup on a tree node, mirroring `spec_field`.
    pub fn get_field<'a>(&'a self, key: &str) -> (r: Option<&'a JsonValue>)
        ensures
            match r {
                Some(v) => spec_field(*self, key@) == Some(*v),
                None => spec_field(*self, key@) is None,
            },
    {
        match self {
            JsonValue::Object(pairs) => {
                let ks = String::from_str(key);
                let mut i: usize = 0;
                while i < pairs.len()
                    invariant
                        *self == JsonValue::Object(*pairs),
                        i <= pairs@.len(),
                        ks@ == key@,
                        forall|j: int| 0 <= j < i ==> (#[trigger] pairs@[j]).0@ != key@,
                    decreases pairs@.len() - i,
                {
                    if pairs[i].0 == ks {
                        proof {
                            lemma_lookup_pairs_skip(pairs@, key@, i as int);
                            assert(pairs@.skip(i as int)[0] == pairs@[i as int]);
                        }
                        return Some(&pairs[i].1);
                    }
                    i += 1;
                }
                proof {
                    lemma_lookup_pairs_skip(pairs@, key@, pairs@.len() as int);
                }
                None
            },
            _ => None,
        }
    }
}

} // verus!
