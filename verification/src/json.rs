use vstd::prelude::*;

verus! {

/// A structured document: the subset of JSON that the citation logic reads.
/// Numbers and booleans are carried only so that a whole response can be
/// held; the extraction logic itself reads strings, arrays and objects.
/// An object is an ordered list of key/value entries.
pub enum JsonValue {
    Null,
    Bool(bool),
    Num,
    Str(String),
    Arr(Vec<JsonValue>),
    Obj(Vec<(String, JsonValue)>),
}

/// The value bound to `key` at its first binding, scanning the entries in
/// order.
pub open spec fn lookup_entries(entries: Seq<(String, JsonValue)>, key: Seq<char>) -> Option<
    JsonValue,
>
    decreases entries.len(),
{
    if entries.len() == 0 {
        None
    } else if entries[0].0@ == key {
        Some(entries[0].1)
    } else {
        lookup_entries(entries.skip(1), key)
    }
}

impl JsonValue {
    /// The value bound to `key`, if this value is an object with such a
    /// binding.
    pub open spec fn spec_get(self, key: Seq<char>) -> Option<JsonValue> {
        match self {
            JsonValue::Obj(entries) => lookup_entries(entries@, key),
            _ => None,
        }
    }

    /// The character sequence held, if this value is a string.
    pub open spec fn spec_str(self) -> Option<Seq<char>> {
        match self {
            JsonValue::Str(s) => Some(s@),
            _ => None,
        }
    }

    /// The items held, if this value is an array.
    pub open spec fn spec_arr(self) -> Option<Seq<JsonValue>> {
        match self {
            JsonValue::Arr(items) => Some(items@),
            _ => None,
        }
    }

    /// The string bound to `key`, if this value is an object and the
    /// binding is a string.
    pub open spec fn spec_get_str(self, key: Seq<char>) -> Option<Seq<char>> {
        match self.spec_get(key) {
            Some(v) => v.spec_str(),
            None => None,
        }
    }

    /// The array bound to `key`, if this value is an object and the
    /// binding is an array.
    pub open spec fn spec_get_arr(self, key: Seq<char>) -> Option<Seq<JsonValue>> {
        match self.spec_get(key) {
            Some(v) => v.spec_arr(),
            None => None,
        }
    }

    /// Looks `key` up in this value, at its first binding.
    pub fn get<'a>(&'a self, key: &str) -> (r: Option<&'a JsonValue>)
        ensures
            match r {
                Some(v) => self.spec_get(key@) == Some(*v),
                None => self.spec_get(key@) is None,
            },
    {
        match self {
            JsonValue::Obj(entries) => {
                let n = entries.len();
                for i in 0..n
                    invariant
                        n == entries@.len(),
                        self.spec_get(key@) == lookup_entries(entries@, key@),
                        forall|j: int| 0 <= j < i ==> #[trigger] entries@[j].0@ != key@,
                {
                    if str_eq(entries[i].0.as_str(), key) {
                        proof {
                            lemma_lookup_entries_skip(entries@, key@, i as int);
                            assert(entries@.skip(i as int)[0] == entries@[i as int]);
                            assert(lookup_entries(entries@.skip(i as int), key@) == Some(
                                entries@[i as int].1,
                            ));
                        }
                        return Some(&entries[i].1);
                    }
                }
                proof {
                    lemma_lookup_entries_skip(entries@, key@, entries@.len() as int);
                    assert(entries@.skip(entries@.len() as int).len() == 0);
                }
                None
            },
            _ => None,
        }
    }
}

/// While no entry before `i` binds `key`, the scan of the whole entry list
/// agrees with the scan that starts at `i`.
proof fn lemma_lookup_entries_skip(entries: Seq<(String, JsonValue)>, key: Seq<char>, i: int)
    requires
        0 <= i <= entries.len(),
        forall|j: int| 0 <= j < i ==> #[trigger] entries[j].0@ != key,
    ensures
        lookup_entries(entries, key) == lookup_entries(entries.skip(i), key),
    decreases i,
{
    if i > 0 {
        lemma_lookup_entries_skip(entries, key, i - 1);
        let s = entries.skip(i - 1);
        assert(s.len() > 0);
        assert(s[0] == entries[i - 1]);
        assert(entries[i - 1].0@ != key);
        assert(s.skip(1) =~= entries.skip(i));
        assert(lookup_entries(s, key) == lookup_entries(s.skip(1), key));
    } else {
        assert(entries.skip(0) =~= entries);
    }
}

/// Relies on str's PartialEq: two string slices compare equal exactly when
/// their character sequences are equal.
#[verifier::external_body]
pub(crate) fn str_eq(a: &str, b: &str) -> (r: bool)
    ensures
        r == (a@ == b@),
{
    a == b
}

} // verus!
