//! JSON documents, as far as answers of other services are read here.

use vstd::prelude::*;

use crate::text::same_text;

verus! {

/// A JSON value.
#[derive(Debug)]
pub enum Json {
    Null,
    Bool(bool),
    /// A whole number that an `i64` holds.
    Int(i64),
    /// Any other number.
    OtherNumber,
    Text(String),
    Array(Vec<Json>),
    /// The members of an object. Where a name occurs twice, the first one counts.
    Object(Vec<(String, Json)>),
}

/// The value of the first member with this name.
pub open spec fn member(members: Seq<(String, Json)>, name: Seq<char>) -> Option<Json>
    decreases members.len(),
{
    if members.len() == 0 {
        None
    } else if members[0].0@ == name {
        Some(members[0].1)
    } else {
        member(members.drop_first(), name)
    }
}

impl Json {
    /// The member of an object with this name.
    pub open spec fn field(self, name: Seq<char>) -> Option<Json> {
        match self {
            Json::Object(members) => member(members@, name),
            _ => None,
        }
    }

    /// The characters of a text.
    pub open spec fn text(self) -> Option<Seq<char>> {
        match self {
            Json::Text(s) => Some(s@),
            _ => None,
        }
    }

    /// The elements of an array.
    pub open spec fn elements(self) -> Option<Seq<Json>> {
        match self {
            Json::Array(items) => Some(items@),
            _ => None,
        }
    }

    /// The characters of the member with this name, where it is a text.
    pub open spec fn text_field(self, name: Seq<char>) -> Option<Seq<char>> {
        match self.field(name) {
            Some(value) => value.text(),
            None => None,
        }
    }

    /// The number in the member with this name, where it is a whole number that an `i64`
    /// holds.
    pub open spec fn int_field(self, name: Seq<char>) -> Option<i64> {
        match self.field(name) {
            Some(Json::Int(n)) => Some(n),
            _ => None,
        }
    }

    /// The member of an object with this name.
    pub fn get(&self, name: &str) -> (value: Option<&Json>)
        ensures
            match value {
                Some(v) => self.field(name@) == Some(*v),
                None => self.field(name@) is None,
            },
    {
        match self {
            Json::Object(members) => {
                let mut i: usize = 0;
                assert(members@.skip(0) =~= members@);
                while i < members.len()
                    invariant
                        *self == Json::Object(*members),
                        i <= members.len(),
                        member(members@, name@) == member(members@.skip(i as int), name@),
                    decreases members.len() - i,
                {
                    assert(members@.skip(i as int).drop_first() =~= members@.skip(i + 1));
                    if same_text(members[i].0.as_str(), name) {
                        return Some(&members[i].1);
                    }
                    i += 1;
                }
                None
            },
            _ => None,
        }
    }

    /// The characters of a text.
    pub fn as_text(&self) -> (s: Option<&String>)
        ensures
            s.deep_view() == self.text(),
    {
        match self {
            Json::Text(s) => Some(s),
            _ => None,
        }
    }

    /// The number, where it is a whole number that an `i64` holds.
    pub fn as_i64(&self) -> (n: Option<i64>)
        ensures
            n == (match *self {
                Json::Int(m) => Some(m),
                _ => None,
            }),
    {
        match self {
            Json::Int(m) => Some(*m),
            _ => None,
        }
    }

    /// The elements of an array.
    pub fn as_array(&self) -> (items: Option<&Vec<Json>>)
        ensures
            match items {
                Some(v) => self.elements() == Some(v@),
                None => self.elements() is None,
            },
    {
        match self {
            Json::Array(items) => Some(items),
            _ => None,
        }
    }

    /// A copy of the member with this name, where it is a text.
    pub fn text_at(&self, name: &str) -> (s: Option<String>)
        ensures
            s.deep_view() == self.text_field(name@),
    {
        match self.get(name) {
            Some(value) => match value.as_text() {
                Some(s) => Some(s.clone()),
                None => None,
            },
            None => None,
        }
    }

    /// The number in the member with this name, where it is a whole number that an `i64`
    /// holds.
    pub fn int_at(&self, name: &str) -> (n: Option<i64>)
        ensures
            n == self.int_field(name@),
    {
        match self.get(name) {
            Some(value) => value.as_i64(),
            None => None,
        }
    }
}

/// The member at `i` is the first of the document's members with this name.
pub open spec fn first_named(document: Json, name: Seq<char>, i: int) -> bool {
    document matches Json::Object(members) && {
        &&& 0 <= i < members@.len()
        &&& members@[i].0@ == name
        &&& forall|j: int| 0 <= j < i ==> (#[trigger] members@[j]).0@ != name
    }
}

/// The document has no member with this name.
pub open spec fn none_named(document: Json, name: Seq<char>) -> bool {
    document matches Json::Object(members) ==> forall|j: int|
        0 <= j < members@.len() ==> (#[trigger] members@[j]).0@ != name
}

/// The first member with a name is the one that is found, with whatever value it has, and
/// nothing is found where no member has the name.
pub proof fn law_the_first_member_counts(document: Json, name: Seq<char>, i: int)
    ensures
        first_named(document, name, i) ==> document.field(name) == Some(
            document->Object_0@[i].1,
        ),
        none_named(document, name) ==> document.field(name) is None,
{
    if let Json::Object(members) = document {
        if first_named(document, name, i) {
            lemma_first_member(members@, name, i);
        }
        if none_named(document, name) {
            lemma_no_member(members@, name);
        }
    }
}

/// A text is read as its characters, a whole number as itself, and nothing else as either.
pub proof fn law_values_are_read_by_kind(document: Json, name: Seq<char>, i: int)
    requires
        first_named(document, name, i),
    ensures
        document->Object_0@[i].1 matches Json::Text(t) ==> document.text_field(name) == Some(t@),
        !(document->Object_0@[i].1 is Text) ==> document.text_field(name) is None,
        document->Object_0@[i].1 matches Json::Int(n) ==> document.int_field(name) == Some(n),
        !(document->Object_0@[i].1 is Int) ==> document.int_field(name) is None,
{
    law_the_first_member_counts(document, name, i);
}

/// A member that is missing is neither a text nor a number.
pub proof fn law_missing_members_are_nothing(document: Json, name: Seq<char>)
    requires
        none_named(document, name),
    ensures
        document.text_field(name) is None,
        document.int_field(name) is None,
{
    law_the_first_member_counts(document, name, 0);
}

/// The first member with a name is found among the members.
proof fn lemma_first_member(members: Seq<(String, Json)>, name: Seq<char>, i: int)
    requires
        0 <= i < members.len(),
        members[i].0@ == name,
        forall|j: int| 0 <= j < i ==> (#[trigger] members[j]).0@ != name,
    ensures
        member(members, name) == Some(members[i].1),
    decreases members.len(),
{
    if i > 0 {
        assert(members[0].0@ != name);
        assert forall|j: int| 0 <= j < i - 1 implies (#[trigger] members.drop_first()[j]).0@
            != name by {
            assert(members.drop_first()[j] == members[j + 1]);
        }
        lemma_first_member(members.drop_first(), name, i - 1);
    }
}

/// Nothing is found among members of other names.
proof fn lemma_no_member(members: Seq<(String, Json)>, name: Seq<char>)
    requires
        forall|j: int| 0 <= j < members.len() ==> (#[trigger] members[j]).0@ != name,
    ensures
        member(members, name) is None,
    decreases members.len(),
{
    if members.len() > 0 {
        assert(members[0].0@ != name);
        assert forall|j: int| 0 <= j < members.drop_first().len() implies (
        #[trigger] members.drop_first()[j]).0@ != name by {
            assert(members.drop_first()[j] == members[j + 1]);
        }
        lemma_no_member(members.drop_first(), name);
    }
}

/// An array gives its elements, a text its characters, and nothing else gives either.
pub proof fn law_arrays_and_texts(value: Json)
    ensures
        value matches Json::Array(items) ==> value.elements() == Some(items@),
        !(value is Array) ==> value.elements() is None,
        value matches Json::Text(t) ==> value.text() == Some(t@),
        !(value is Text) ==> value.text() is None,
{
}

} // verus!
