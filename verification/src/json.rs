//! A structured document: the tree of scalars, arrays and objects that a task
//! payload or a broker message decodes to. The I/O shell parses raw bytes and
//! hands the core a value of this type; the core reads it with the accessors
//! below, whose results are pinned down exactly by spec functions.

use vstd::prelude::*;

verus! {

/// One node of a structured document.
///
/// Numbers the core reads are integers; a number that fits neither `u64` nor
/// `i64` (for instance a fractional one) is carried as `OtherNum`, which the
/// core treats like any other non-string, non-integer value.
#[derive(Debug, PartialEq)]
pub enum Json {
    Null,
    Bool(bool),
    /// A negative integer (the decoder uses `UInt` for anything non-negative).
    Int(i64),
    /// A non-negative integer.
    UInt(u64),
    Str(String),
    Arr(Vec<Json>),
    /// An object: fields in document order, looked up by first match.
    Obj(Vec<(String, Json)>),
    /// A numeric value the core never reads.
    OtherNum,
}

impl Json {
    /// First field of `fields` named `key`, if any.
    pub open spec fn spec_obj_get(fields: Seq<(String, Json)>, key: Seq<char>) -> Option<Json>
        decreases fields.len(),
    {
        if fields.len() == 0 {
            None
        } else if fields[0].0@ == key {
            Some(fields[0].1)
        } else {
            Self::spec_obj_get(fields.skip(1), key)
        }
    }

    /// Field lookup: `Some` exactly on objects that carry the key.
    pub open spec fn spec_get(self, key: Seq<char>) -> Option<Json> {
        match self {
            Json::Obj(fields) => Self::spec_obj_get(fields@, key),
            _ => None,
        }
    }

    pub open spec fn spec_is_string(self) -> bool {
        self is Str
    }

    /// The characters of a string node, `None` on every other node.
    pub open spec fn spec_as_str(self) -> Option<Seq<char>> {
        match self {
            Json::Str(s) => Some(s@),
            _ => None,
        }
    }

    /// The value of a non-negative integer node, `None` on every other node.
    pub open spec fn spec_as_u64(self) -> Option<u64> {
        match self {
            Json::UInt(v) => Some(v),
            _ => None,
        }
    }

    /// Looks up a field by name; on non-objects there is nothing to find.
    pub fn get<'a>(&'a self, key: &String) -> (r: Option<&'a Json>)
        ensures
            match r {
                Some(v) => self.spec_get(key@) == Some(*v),
                None => self.spec_get(key@) is None,
            },
    {
        match self {
            Json::Obj(fields) => {
                let n = fields.len();
                let mut i: usize = 0;
                proof {
                    assert(fields@.skip(0) =~= fields@);
                }
                while i < n
                    invariant
                        i <= n,
                        n == fields@.len(),
                        self.spec_get(key@) == Self::spec_obj_get(fields@.skip(i as int), key@),
                    decreases n - i,
                {
                    proof {
                        assert(fields@.skip(i as int)[0] == fields@[i as int]);
                        assert(fields@.skip(i as int).skip(1) =~= fields@.skip(i as int + 1));
                    }
                    if fields[i].0 == *key {
                        proof {
                            assert(Self::spec_obj_get(fields@.skip(i as int), key@) == Some(
                                fields@[i as int].1,
                            ));
                        }
                        return Some(&fields[i].1);
                    }
                    i = i + 1;
                }
                proof {
                    assert(fields@.skip(n as int) =~= Seq::<(String, Json)>::empty());
                }
                None
            },
            _ => None,
        }
    }

    /// Whether this node is a string.
    pub fn is_string(&self) -> (r: bool)
        ensures
            r == self.spec_is_string(),
    {
        match self {
            Json::Str(_) => true,
            _ => false,
        }
    }

    /// The string behind a string node.
    pub fn as_str<'a>(&'a self) -> (r: Option<&'a String>)
        ensures
            match r {
                Some(s) => self.spec_as_str() == Some(s@),
                None => self.spec_as_str() is None,
            },
    {
        match self {
            Json::Str(s) => Some(s),
            _ => None,
        }
    }

    /// The value behind a non-negative integer node.
    pub fn as_u64(&self) -> (r: Option<u64>)
        ensures
            r == self.spec_as_u64(),
    {
        match self {
            Json::UInt(v) => Some(*v),
            _ => None,
        }
    }
}

} // verus!
