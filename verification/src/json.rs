use vstd::prelude::*;
use crate::text::str_eq;

verus! {

/// A JSON document as the transport hands it to the library. The verified
/// pipeline reads API responses through this type alone; the transport
/// layer converts whatever its JSON parser produced into it.
pub enum Json {
    Null,
    Bool(bool),
    /// A number that fits an unsigned 64-bit integer. The pipeline reads
    /// numbers only as pull-request numbers; a number outside that range
    /// is handed over as `Null`.
    Num(u64),
    Str(String),
    Arr(Vec<Json>),
    Obj(Vec<(String, Json)>),
}

/// The value bound to `key` in a field list; the first binding wins.
pub open spec fn fields_get(fields: Seq<(String, Json)>, key: Seq<char>) -> Option<Json>
    decreases fields.len(),
{
    if fields.len() == 0 {
        None
    } else if fields[0].0@ == key {
        Some(fields[0].1)
    } else {
        fields_get(fields.drop_first(), key)
    }
}

/// Skipping bindings whose key differs does not change the lookup.
proof fn lemma_fields_get_skip(fields: Seq<(String, Json)>, key: Seq<char>, i: int)
    requires
        0 <= i <= fields.len(),
        forall|j: int| 0 <= j < i ==> #[trigger] fields[j].0@ != key,
    ensures
        fields_get(fields, key) == fields_get(fields.skip(i), key),
    decreases i,
{
    if i > 0 {
        assert(fields.skip(1) =~= fields.drop_first());
        lemma_fields_get_skip(fields.drop_first(), key, i - 1);
        assert(fields.drop_first().skip(i - 1) =~= fields.skip(i));
    } else {
        assert(fields.skip(0) =~= fields);
    }
}

impl Json {
    /// The value under `key` when this document is an object that holds the
    /// key; `None` on an object without it and on every other document.
    pub open spec fn spec_get(self, key: Seq<char>) -> Option<Json> {
        match self {
            Json::Obj(fields) => fields_get(fields@, key),
            _ => None,
        }
    }

    /// The characters of this document when it is a string.
    pub open spec fn str_value(self) -> Option<Seq<char>> {
        match self {
            Json::Str(s) => Some(s@),
            _ => None,
        }
    }

    /// The number this document holds, when it is one.
    pub open spec fn num_value(self) -> Option<u64> {
        match self {
            Json::Num(n) => Some(n),
            _ => None,
        }
    }

    /// The elements of this document when it is an array.
    pub open spec fn arr_value(self) -> Option<Seq<Json>> {
        match self {
            Json::Arr(v) => Some(v@),
            _ => None,
        }
    }

    /// Object field lookup.
    pub fn get<'a>(&'a self, key: &str) -> (r: Option<&'a Json>)
        ensures
            match r {
                Some(v) => self.spec_get(key@) == Some(*v),
                None => self.spec_get(key@) is None,
            },
    {
        match self {
            Json::Obj(fields) => {
                let mut i: usize = 0;
                while i < fields.len()
                    invariant
                        i <= fields@.len(),
                        self.spec_get(key@) == fields_get(fields@, key@),
                        forall|j: int| 0 <= j < i ==> #[trigger] fields@[j].0@ != key@,
                    decreases fields@.len() - i,
                {
                    if str_eq(fields[i].0.as_str(), key) {
                        proof {
                            lemma_fields_get_skip(fields@, key@, i as int);
                            let rest = fields@.skip(i as int);
                            assert(rest[0] == fields@[i as int]);
                            assert(fields@[i as int].0@ == key@);
                            assert(fields_get(rest, key@) == Some(rest[0].1));
                        }
                        return Some(&fields[i].1);
                    }
                    i += 1;
                }
                proof {
                    lemma_fields_get_skip(fields@, key@, fields@.len() as int);
                }
                None
            },
            _ => None,
        }
    }

    /// The held string, if this document is one.
    pub fn as_str<'a>(&'a self) -> (r: Option<&'a String>)
        ensures
            match r {
                Some(s) => self.str_value() == Some(s@),
                None => self.str_value() is None,
            },
    {
        match self {
            Json::Str(s) => Some(s),
            _ => None,
        }
    }

    /// The held number, if this document is one.
    pub fn as_u64(&self) -> (r: Option<u64>)
        ensures
            r == self.num_value(),
    {
        match self {
            Json::Num(n) => Some(*n),
            _ => None,
        }
    }

    /// The held elements, if this document is an array.
    pub fn as_array<'a>(&'a self) -> (r: Option<&'a Vec<Json>>)
        ensures
            match r {
                Some(v) => self.arr_value() == Some(v@),
                None => self.arr_value() is None,
            },
    {
        match self {
            Json::Arr(v) => Some(v),
            _ => None,
        }
    }
}

} // verus!
