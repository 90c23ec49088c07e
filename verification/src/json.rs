use crate::text;
use vstd::prelude::*;

verus! {

/// A JSON value. Numbers that are neither `u64` nor negative `i64` are kept as they are written.
#[derive(Debug, PartialEq, Eq)]
pub enum Json {
    Null,
    Bool(bool),
    Unsigned(u64),
    Negative(i64),
    Fraction(String),
    Text(String),
    List(Vec<Json>),
    Object(Vec<Member>),
}

/// A member of an object. Where a name is given twice, the later value counts.
#[derive(Debug, PartialEq, Eq)]
pub struct Member {
    pub name: String,
    pub value: Json,
}

/// What the members of the library's own payloads hold.
pub enum Scalar {
    Unsigned(u64),
    Text(Seq<char>),
    Other,
}

pub open spec fn scalar(j: Json) -> Scalar {
    match j {
        Json::Unsigned(n) => Scalar::Unsigned(n),
        Json::Text(s) => Scalar::Text(s@),
        _ => Scalar::Other,
    }
}

/// The members of an object in their order; nothing for other values.
pub open spec fn members(j: Json) -> Seq<(Seq<char>, Scalar)> {
    match j {
        Json::Object(ms) => Seq::new(
            ms@.len(),
            |i: int| (ms@[i].name@, scalar(ms@[i].value)),
        ),
        _ => seq![],
    }
}

/// The value that an object's members give to a name: the last one's that has it.
pub open spec fn lookup(ms: Seq<Member>, name: Seq<char>) -> Option<Json>
    decreases ms.len(),
{
    if ms.len() == 0 {
        None
    } else if ms.last().name@ == name {
        Some(ms.last().value)
    } else {
        lookup(ms.drop_last(), name)
    }
}

/// The field of a record: the object's member of that name, or the element at the field's place of
/// a list that has exactly as many elements as the record has fields.
pub open spec fn field(j: Json, name: Seq<char>, place: int, count: int) -> Option<Json> {
    match j {
        Json::Object(ms) => lookup(ms@, name),
        Json::List(v) => if v@.len() == count {
            Some(v@[place])
        } else {
            None
        },
        _ => None,
    }
}

/// A field that holds a text.
pub open spec fn text_field(j: Json, name: Seq<char>, place: int, count: int) -> Option<Seq<char>> {
    match field(j, name, place, count) {
        Some(Json::Text(s)) => Some(s@),
        _ => None,
    }
}

/// A field that holds an unsigned number.
pub open spec fn number_field(j: Json, name: Seq<char>, place: int, count: int) -> Option<u64> {
    match field(j, name, place, count) {
        Some(Json::Unsigned(n)) => Some(n),
        _ => None,
    }
}

/// The place of the last member of a name.
pub fn find(ms: &Vec<Member>, name: &str) -> (r: Option<usize>)
    ensures
        match r {
            Some(i) => i < ms@.len() && ms@[i as int].name@ == name@ && lookup(ms@, name@) == Some(
                ms@[i as int].value,
            ) && forall|k: int| i < k < ms@.len() ==> (#[trigger] ms@[k]).name@ != name@,
            None => lookup(ms@, name@) is None && forall|k: int|
                0 <= k < ms@.len() ==> (#[trigger] ms@[k]).name@ != name@,
        },
{
    let mut i: usize = ms.len();
    assert(ms@.take(ms@.len() as int) =~= ms@);
    while i > 0
        invariant
            i <= ms@.len(),
            lookup(ms@, name@) == lookup(ms@.take(i as int), name@),
            forall|k: int| i <= k < ms@.len() ==> (#[trigger] ms@[k]).name@ != name@,
        decreases i,
    {
        let ghost head = ms@.take(i as int);
        assert(head.last() == ms@[i - 1]);
        if text::same_text(ms[i - 1].name.as_str(), name) {
            return Some(i - 1);
        }
        assert(head.drop_last() =~= ms@.take(i - 1));
        i -= 1;
    }
    None
}

fn find_field<'a>(j: &'a Json, name: &str, place: usize, count: usize) -> (r: Option<&'a Json>)
    requires
        place < count,
    ensures
        match r {
            Some(v) => field(*j, name@, place as int, count as int) == Some(*v),
            None => field(*j, name@, place as int, count as int) is None,
        },
{
    match j {
        Json::Object(ms) => match find(ms, name) {
            Some(i) => Some(&ms[i].value),
            None => None,
        },
        Json::List(v) => if v.len() == count {
            Some(&v[place])
        } else {
            None
        },
        _ => None,
    }
}

pub fn read_text(j: &Json, name: &str, place: usize, count: usize) -> (r: Option<String>)
    requires
        place < count,
    ensures
        text::maybe(r) == text_field(*j, name@, place as int, count as int),
{
    match find_field(j, name, place, count) {
        Some(Json::Text(s)) => Some(s.clone()),
        _ => None,
    }
}

pub fn read_number(j: &Json, name: &str, place: usize, count: usize) -> (r: Option<u64>)
    requires
        place < count,
    ensures
        r == number_field(*j, name@, place as int, count as int),
{
    match find_field(j, name, place, count) {
        Some(Json::Unsigned(n)) => Some(*n),
        _ => None,
    }
}

/// A member with a text.
pub fn text_member(name: &str, value: &str) -> (r: Member)
    ensures
        r.name@ == name@,
        r.value matches Json::Text(s) && s@ == value@,
{
    Member { name: name.to_string(), value: Json::Text(value.to_string()) }
}

/// A member with an unsigned number.
pub fn number_member(name: &str, value: u64) -> (r: Member)
    ensures
        r.name@ == name@,
        r.value == Json::Unsigned(value),
{
    Member { name: name.to_string(), value: Json::Unsigned(value) }
}

/// A member of another name changes nothing about a name's value, wherever it stands.
pub proof fn lookup_ignores_others(ms: Seq<Member>, place: int, extra: Member, name: Seq<char>)
    requires
        0 <= place <= ms.len(),
        extra.name@ != name,
    ensures
        lookup(ms.insert(place, extra), name) == lookup(ms, name),
    decreases ms.len(),
{
    let more = ms.insert(place, extra);
    if place == ms.len() {
        assert(more.drop_last() =~= ms);
    } else {
        assert(more.last() == ms.last());
        if ms.last().name@ != name {
            assert(more.drop_last() =~= ms.drop_last().insert(place, extra));
            lookup_ignores_others(ms.drop_last(), place, extra, name);
        }
    }
}

/// A name's value, where exactly one member has the name.
pub proof fn lookup_single(ms: Seq<Member>, place: int)
    requires
        0 <= place < ms.len(),
        forall|k: int| place < k < ms.len() ==> (#[trigger] ms[k]).name@ != ms[place].name@,
    ensures
        lookup(ms, ms[place].name@) == Some(ms[place].value),
    decreases ms.len(),
{
    if place < ms.len() - 1 {
        let head = ms.drop_last();
        assert(ms.last() == ms[ms.len() - 1]);
        assert(head[place] == ms[place]);
        lookup_single(head, place);
    }
}

/// The value of a name is that of the last member that has it, and there is none where no member
/// has it.
pub proof fn last_member_counts(ms: Seq<Member>, name: Seq<char>)
    ensures
        lookup(ms, name) is None <==> forall|k: int|
            0 <= k < ms.len() ==> (#[trigger] ms[k]).name@ != name,
        lookup(ms, name) matches Some(v) ==> exists|k: int|
            0 <= k < ms.len() && (#[trigger] ms[k]).name@ == name && ms[k].value == v && forall|
                j: int,
            |
                k < j < ms.len() ==> (#[trigger] ms[j]).name@ != name,
    decreases ms.len(),
{
    if ms.len() > 0 {
        let head = ms.drop_last();
        last_member_counts(head, name);
        assert(ms.last() == ms[ms.len() - 1]);
        if ms.last().name@ != name {
            assert forall|k: int| 0 <= k < head.len() implies ms[k] == #[trigger] head[k] by {}
            if let Some(v) = lookup(head, name) {
                let k = choose|k: int|
                    0 <= k < head.len() && (#[trigger] head[k]).name@ == name && head[k].value == v
                        && forall|j: int|
                        k < j < head.len() ==> (#[trigger] head[j]).name@ != name;
                assert(ms[k] == head[k]);
                assert forall|j: int| k < j < ms.len() implies (#[trigger] ms[j]).name@ != name by {
                    if j < head.len() {
                        assert(head[j] == ms[j]);
                    }
                }
            } else {
                assert forall|k: int| 0 <= k < ms.len() implies (#[trigger] ms[k]).name@ != name by {
                    if k < head.len() {
                        assert(head[k] == ms[k]);
                    }
                }
            }
        }
    }
}

/// A field of an object is the value of its name; of a list that is as long as the record it is the
/// element at its place; other values have no fields.
pub proof fn fields_by_name_or_place(j: Json, name: Seq<char>, place: int, count: int)
    ensures
        j matches Json::Object(ms) ==> field(j, name, place, count) == lookup(ms@, name),
        j matches Json::List(v) ==> {
            &&& v@.len() == count ==> field(j, name, place, count) == Some(v@[place])
            &&& v@.len() != count ==> field(j, name, place, count) is None
        },
        !(j is Object) && !(j is List) ==> field(j, name, place, count) is None,
        text_field(j, name, place, count) matches Some(t) ==> (field(j, name, place, count) matches
            Some(v) && (v matches Json::Text(s) && s@ == t)),
        field(j, name, place, count) matches Some(v) ==> (v matches Json::Text(s) ==> text_field(
            j,
            name,
            place,
            count,
        ) == Some(s@)),
        number_field(j, name, place, count) matches Some(n) ==> field(j, name, place, count) == Some(
            Json::Unsigned(n),
        ),
        field(j, name, place, count) matches Some(v) ==> (v matches Json::Unsigned(n)
            ==> number_field(j, name, place, count) == Some(n)),
{
}

} // verus!
