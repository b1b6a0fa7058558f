//! JSON values as the daemon reads and writes them.

use crate::text::str_eq;
use vstd::prelude::*;

verus! {

/// A JSON value. An object keeps its members in order.
#[derive(PartialEq, Eq, Debug)]
pub enum Json {
    Null,
    Bool(bool),
    /// A number without a fraction.
    Int(i128),
    /// A number with a fraction or an exponent, as it is written.
    Real(String),
    Str(String),
    Arr(Vec<Json>),
    Obj(Vec<(String, Json)>),
}

/// The mathematical content of a JSON value.
pub enum JsonView {
    Null,
    Bool(bool),
    Int(int),
    Real(Seq<char>),
    Str(Seq<char>),
    Arr(Seq<JsonView>),
    Obj(Seq<(Seq<char>, JsonView)>),
}

impl View for Json {
    type V = JsonView;

    open spec fn view(&self) -> JsonView
        decreases self,
    {
        match self {
            Json::Null => JsonView::Null,
            Json::Bool(b) => JsonView::Bool(*b),
            Json::Int(n) => JsonView::Int(*n as int),
            Json::Real(t) => JsonView::Real(t@),
            Json::Str(t) => JsonView::Str(t@),
            Json::Arr(v) => JsonView::Arr(
                Seq::new(
                    v@.len(),
                    |i: int|
                        if 0 <= i < v@.len() {
                            v@[i].view()
                        } else {
                            arbitrary()
                        },
                ),
            ),
            Json::Obj(v) => JsonView::Obj(
                Seq::new(
                    v@.len(),
                    |i: int|
                        if 0 <= i < v@.len() {
                            (v@[i].0@, v@[i].1.view())
                        } else {
                            arbitrary()
                        },
                ),
            ),
        }
    }
}

/// The value of the first member with the given name.
pub open spec fn member(members: Seq<(Seq<char>, JsonView)>, key: Seq<char>) -> Option<JsonView>
    decreases members.len(),
{
    if members.len() == 0 {
        None
    } else if members[0].0 == key {
        Some(members[0].1)
    } else {
        member(members.skip(1), key)
    }
}

/// Where the first member with the given name stands; behind the last member where
/// there is none.
pub open spec fn place(members: Seq<(Seq<char>, JsonView)>, key: Seq<char>) -> int
    decreases members.len(),
{
    if members.len() == 0 || members[0].0 == key {
        0
    } else {
        1 + place(members.skip(1), key)
    }
}

/// Members with the value given to the name: in place of the value that the name had,
/// or behind the others where it had none.
pub open spec fn put(
    members: Seq<(Seq<char>, JsonView)>,
    key: Seq<char>,
    value: JsonView,
) -> Seq<(Seq<char>, JsonView)> {
    if place(members, key) < members.len() {
        members.update(place(members, key), (key, value))
    } else {
        members.push((key, value))
    }
}

/// Whether no two members carry the same name.
pub open spec fn names_differ(members: Seq<(Seq<char>, JsonView)>) -> bool {
    forall|i: int, j: int|
        0 <= i < j < members.len() ==> (#[trigger] members[i]).0 != (#[trigger] members[j]).0
}

impl JsonView {
    /// The member of an object with the given name.
    pub open spec fn get(self, key: Seq<char>) -> Option<JsonView> {
        match self {
            JsonView::Obj(members) => member(members, key),
            _ => None,
        }
    }

    /// The text of a string value.
    pub open spec fn as_str(self) -> Option<Seq<char>> {
        match self {
            JsonView::Str(t) => Some(t),
            _ => None,
        }
    }

    /// The value of a boolean.
    pub open spec fn as_bool(self) -> Option<bool> {
        match self {
            JsonView::Bool(b) => Some(b),
            _ => None,
        }
    }

    /// The value of a whole number that fits in a `u64`.
    pub open spec fn as_u64(self) -> Option<u64> {
        match self {
            JsonView::Int(n) => if 0 <= n <= u64::MAX {
                Some(n as u64)
            } else {
                None
            },
            _ => None,
        }
    }

    /// The value of a whole number that fits in an `i64`.
    pub open spec fn as_i64(self) -> Option<i64> {
        match self {
            JsonView::Int(n) => if i64::MIN <= n <= i64::MAX {
                Some(n as i64)
            } else {
                None
            },
            _ => None,
        }
    }

    /// The elements of an array.
    pub open spec fn as_array(self) -> Option<Seq<JsonView>> {
        match self {
            JsonView::Arr(v) => Some(v),
            _ => None,
        }
    }

    /// The text of the string member with the given name.
    pub open spec fn get_str(self, key: Seq<char>) -> Option<Seq<char>> {
        match self.get(key) {
            Some(v) => v.as_str(),
            None => None,
        }
    }

    /// An object without members.
    pub open spec fn object() -> JsonView {
        JsonView::Obj(Seq::empty())
    }

    /// An object with the value given to the name.
    pub open spec fn with(self, key: Seq<char>, value: JsonView) -> JsonView {
        match self {
            JsonView::Obj(members) => JsonView::Obj(put(members, key, value)),
            other => other,
        }
    }

    /// An array of texts.
    pub open spec fn texts(items: Seq<Seq<char>>) -> JsonView {
        JsonView::Arr(items.map_values(|t: Seq<char>| JsonView::Str(t)))
    }

    /// A string, or `null` where there is none.
    pub open spec fn opt_text(t: Option<Seq<char>>) -> JsonView {
        match t {
            Some(s) => JsonView::Str(s),
            None => JsonView::Null,
        }
    }
}

proof fn lemma_place(members: Seq<(Seq<char>, JsonView)>, key: Seq<char>)
    ensures
        0 <= place(members, key) <= members.len(),
        place(members, key) < members.len() ==> members[place(members, key)].0 == key,
        forall|i: int| 0 <= i < place(members, key) ==> (#[trigger] members[i]).0 != key,
    decreases members.len(),
{
    if members.len() > 0 && members[0].0 != key {
        let rest = members.skip(1);
        lemma_place(rest, key);
        assert forall|i: int| 0 <= i < place(members, key) implies (#[trigger] members[i]).0
            != key by {
            if i > 0 {
                assert(rest[i - 1] == members[i]);
            }
        }
    }
}

proof fn lemma_member_put(
    members: Seq<(Seq<char>, JsonView)>,
    key: Seq<char>,
    value: JsonView,
    wanted: Seq<char>,
)
    ensures
        member(put(members, key, value), wanted) == (if key == wanted {
            Some(value)
        } else {
            member(members, wanted)
        }),
    decreases members.len(),
{
    let after = put(members, key, value);
    lemma_place(members, key);
    if members.len() == 0 {
        reveal_with_fuel(member, 2);
        assert(after[0] == (key, value));
        assert(after.skip(1).len() == 0);
    } else if members[0].0 == key {
        assert(after[0] == (key, value));
        assert(after.skip(1) =~= members.skip(1));
    } else {
        let rest = members.skip(1);
        lemma_place(rest, key);
        assert(after[0] == members[0]);
        assert(after.skip(1) =~= put(rest, key, value));
        lemma_member_put(rest, key, value, wanted);
    }
}

/// A value that is given to a name is found under it; under every other name is found
/// what was there before.
pub proof fn law_get_after_with(
    object: JsonView,
    key: Seq<char>,
    value: JsonView,
    wanted: Seq<char>,
)
    requires
        object is Obj,
    ensures
        object.with(key, value) is Obj,
        object.with(key, value).get(wanted) == (if key == wanted {
            Some(value)
        } else {
            object.get(wanted)
        }),
{
    lemma_member_put(object->Obj_0, key, value, wanted);
}

pub broadcast proof fn lemma_get_with(
    object: JsonView,
    key: Seq<char>,
    value: JsonView,
    wanted: Seq<char>,
)
    requires
        object is Obj,
    ensures
        #[trigger] object.with(key, value).get(wanted) == (if key == wanted {
            Some(value)
        } else {
            object.get(wanted)
        }),
{
    law_get_after_with(object, key, value, wanted);
}

/// A name is found where it stands first among the members; a name that none of them
/// carries is not found.
pub proof fn law_the_first_member_is_found(
    members: Seq<(Seq<char>, JsonView)>,
    key: Seq<char>,
    at: int,
)
    requires
        0 <= at <= members.len(),
        forall|i: int| 0 <= i < at ==> (#[trigger] members[i]).0 != key,
        at < members.len() ==> members[at].0 == key,
    ensures
        JsonView::Obj(members).get(key) == (if at < members.len() {
            Some(members[at].1)
        } else {
            None
        }),
    decreases members.len(),
{
    if at > 0 {
        let rest = members.skip(1);
        assert(members[0].0 != key);
        assert forall|i: int| 0 <= i < at - 1 implies (#[trigger] rest[i]).0 != key by {
            assert(rest[i] == members[i + 1]);
        }
        law_the_first_member_is_found(rest, key, at - 1);
    }
}

/// A member that is new comes behind the others, which stay as they are.
pub proof fn law_new_members_come_last(object: JsonView, key: Seq<char>, value: JsonView)
    requires
        object is Obj,
        object.get(key) is None,
    ensures
        object.with(key, value) == JsonView::Obj(object->Obj_0.push((key, value))),
{
    let members = object->Obj_0;
    lemma_place(members, key);
    if place(members, key) < members.len() {
        law_the_first_member_is_found(members, key, place(members, key));
    }
}

/// Numbers are read as what they are, as far as they fit, and nothing else is read as a
/// number.
pub proof fn law_numbers_are_read_as_they_are(value: JsonView)
    ensures
        value.as_u64() matches Some(n) ==> value == JsonView::Int(n as int),
        value.as_i64() matches Some(n) ==> value == JsonView::Int(n as int),
        value matches JsonView::Int(n) ==> (value.as_u64() is Some <==> 0 <= n <= u64::MAX) && (
        value.as_i64() is Some <==> i64::MIN <= n <= i64::MAX),
        value.as_str() matches Some(t) ==> value == JsonView::Str(t),
        value is Str ==> value.as_str() is Some,
{
}

/// No two members of an object that is put together member by member carry the same
/// name.
pub proof fn law_names_stay_apart(object: JsonView, key: Seq<char>, value: JsonView)
    requires
        object is Obj,
        names_differ(object->Obj_0),
    ensures
        names_differ(JsonView::object()->Obj_0),
        names_differ(object.with(key, value)->Obj_0),
{
    let members = object->Obj_0;
    let after = put(members, key, value);
    lemma_place(members, key);
    assert forall|i: int, j: int| 0 <= i < j < after.len() implies (#[trigger] after[i]).0 != (
    #[trigger] after[j]).0 by {
        if i < members.len() && j < members.len() {
            assert(after[i].0 == members[i].0 && after[j].0 == members[j].0);
        } else {
            assert(members[i].0 != key);
        }
    }
}

/// The view of an optional reference to a value.
pub open spec fn opt_json(v: Option<&Json>) -> Option<JsonView> {
    match v {
        Some(j) => Some(j@),
        None => None,
    }
}

/// The views of a sequence of values.
pub open spec fn json_views(v: Seq<Json>) -> Seq<JsonView> {
    v.map_values(|j: Json| j@)
}

/// The views of a sequence of members.
pub open spec fn member_views(v: Seq<(String, Json)>) -> Seq<(Seq<char>, JsonView)> {
    v.map_values(|m: (String, Json)| (m.0@, m.1@))
}

broadcast proof fn lemma_arr(v: Vec<Json>)
    ensures
        #[trigger] Json::Arr(v)@ == JsonView::Arr(json_views(v@)),
{
    reveal_with_fuel(<Json as View>::view, 2);
    assert(Json::Arr(v)@->Arr_0 =~= json_views(v@));
}

broadcast proof fn lemma_obj(v: Vec<(String, Json)>)
    ensures
        #[trigger] Json::Obj(v)@ == JsonView::Obj(member_views(v@)),
{
    reveal_with_fuel(<Json as View>::view, 2);
    assert(Json::Obj(v)@->Obj_0 =~= member_views(v@));
}

fn find_place(members: &Vec<(String, Json)>, key: &str) -> (r: usize)
    ensures
        r == place(member_views(members@), key@),
{
    let ghost all = member_views(members@);
    let mut i: usize = 0;
    assert(all.skip(0) =~= all);
    while i < members.len()
        invariant
            i <= members@.len(),
            all == member_views(members@),
            place(all, key@) == i + place(all.skip(i as int), key@),
        decreases members@.len() - i,
    {
        assert(all.skip(i as int)[0] == all[i as int]);
        if str_eq(members[i].0.as_str(), key) {
            return i;
        }
        assert(all.skip(i as int).skip(1) =~= all.skip(i + 1));
        i += 1;
    }
    i
}

impl Json {
    /// The member of an object with the given name.
    pub fn get(&self, key: &str) -> (r: Option<&Json>)
        ensures
            opt_json(r) == self@.get(key@),
    {
        broadcast use {lemma_arr, lemma_obj};

        match self {
            Json::Obj(members) => {
                let ghost all = member_views(members@);
                let mut i: usize = 0;
                assert(all.skip(0) =~= all);
                while i < members.len()
                    invariant
                        0 <= i <= members@.len(),
                        *self == Json::Obj(*members),
                        self@ == JsonView::Obj(member_views(members@)),
                        all == member_views(members@),
                        member(all, key@) == member(all.skip(i as int), key@),
                    decreases members@.len() - i,
                {
                    assert(all.skip(i as int)[0] == all[i as int]);
                    if str_eq(members[i].0.as_str(), key) {
                        return Some(&members[i].1);
                    }
                    assert(all.skip(i as int).skip(1) =~= all.skip(i + 1));
                    i += 1;
                }
                None
            },
            _ => None,
        }
    }

    /// The text of a string value.
    pub fn as_str(&self) -> (r: Option<&str>)
        ensures
            crate::text::opt_str_view(r) == self@.as_str(),
    {
        match self {
            Json::Str(t) => Some(t.as_str()),
            _ => None,
        }
    }

    /// The value of a boolean.
    pub fn as_bool(&self) -> (r: Option<bool>)
        ensures
            r == self@.as_bool(),
    {
        match self {
            Json::Bool(b) => Some(*b),
            _ => None,
        }
    }

    /// The value of a whole number that fits in a `u64`.
    pub fn as_u64(&self) -> (r: Option<u64>)
        ensures
            r == self@.as_u64(),
    {
        match self {
            Json::Int(n) => if 0 <= *n && *n <= u64::MAX as i128 {
                Some(*n as u64)
            } else {
                None
            },
            _ => None,
        }
    }

    /// The value of a whole number that fits in an `i64`.
    pub fn as_i64(&self) -> (r: Option<i64>)
        ensures
            r == self@.as_i64(),
    {
        match self {
            Json::Int(n) => if i64::MIN as i128 <= *n && *n <= i64::MAX as i128 {
                Some(*n as i64)
            } else {
                None
            },
            _ => None,
        }
    }

    /// The elements of an array.
    pub fn as_array(&self) -> (r: Option<&Vec<Json>>)
        ensures
            match r {
                Some(v) => self@.as_array() == Some(json_views(v@)),
                None => self@.as_array() is None,
            },
    {
        broadcast use {lemma_arr, lemma_obj};

        match self {
            Json::Arr(v) => {
                Some(v)
            },
            _ => None,
        }
    }

    /// The members of an object.
    pub fn members(&self) -> (r: Option<&Vec<(String, Json)>>)
        ensures
            match self@ {
                JsonView::Obj(m) => r matches Some(v) && member_views(v@) == m,
                _ => r is None,
            },
    {
        broadcast use {lemma_arr, lemma_obj};

        match self {
            Json::Obj(v) => Some(v),
            _ => None,
        }
    }

    /// The text of the string member with the given name.
    pub fn get_str(&self, key: &str) -> (r: Option<&str>)
        ensures
            crate::text::opt_str_view(r) == self@.get_str(key@),
    {
        match self.get(key) {
            Some(v) => v.as_str(),
            None => None,
        }
    }

    /// A string value.
    pub fn text(s: &str) -> (r: Json)
        ensures
            r@ == JsonView::Str(s@),
    {
        Json::Str(s.to_owned())
    }

    /// A string, or `null` where there is none.
    pub fn opt_text(s: &Option<String>) -> (r: Json)
        ensures
            r@ == JsonView::opt_text(crate::text::opt_view(*s)),
    {
        match s {
            Some(t) => Json::Str(t.clone()),
            None => Json::Null,
        }
    }

    /// An object without members.
    pub fn object() -> (r: Json)
        ensures
            r@ == JsonView::object(),
    {
        broadcast use {lemma_arr, lemma_obj};

        let members: Vec<(String, Json)> = Vec::new();
        assert(member_views(members@) =~= Seq::empty());
        Json::Obj(members)
    }

    /// An object with the value given to the name; any other value as it is.
    pub fn with(self, key: &str, value: Json) -> (r: Json)
        ensures
            r@ == self@.with(key@, value@),
    {
        broadcast use {lemma_arr, lemma_obj};

        match self {
            Json::Obj(members) => {
                let ghost before = member_views(members@);
                let mut all = members;
                let i: usize = find_place(&all, key);
                if i < all.len() {
                    all.set(i, (key.to_owned(), value));
                    assert(member_views(all@) =~= before.update(i as int, (key@, value@)));
                } else {
                    all.push((key.to_owned(), value));
                    assert(member_views(all@) =~= before.push((key@, value@)));
                }
                Json::Obj(all)
            },
            other => other,
        }
    }

    /// An array of the given values.
    pub fn array(items: Vec<Json>) -> (r: Json)
        ensures
            r@ == JsonView::Arr(json_views(items@)),
    {
        broadcast use {lemma_arr, lemma_obj};

        Json::Arr(items)
    }

    /// An object with the given members.
    pub fn members_of(members: Vec<(String, Json)>) -> (r: Json)
        ensures
            r@ == JsonView::Obj(member_views(members@)),
    {
        broadcast use {lemma_arr, lemma_obj};

        Json::Obj(members)
    }

    /// An array of the given texts.
    pub fn texts(items: &Vec<String>) -> (r: Json)
        ensures
            r@ == JsonView::Arr(items@.map_values(|s: String| JsonView::Str(s@))),
            r@ == JsonView::texts(crate::text::views(items@)),
    {
        broadcast use {lemma_arr, lemma_obj};

        let mut out: Vec<Json> = Vec::new();
        for i in 0..items.len()
            invariant
                out@.len() == i,
                forall|j: int| 0 <= j < i ==> #[trigger] out@[j]@ == JsonView::Str(items@[j]@),
        {
            out.push(Json::Str(items[i].clone()));
        }
        assert(json_views(out@) =~= items@.map_values(|s: String| JsonView::Str(s@)));
        assert(json_views(out@) =~= crate::text::views(items@).map_values(
            |t: Seq<char>| JsonView::Str(t),
        ));
        Json::Arr(out)
    }

    /// A copy of the value.
    pub fn copy(&self) -> (r: Json)
        ensures
            r@ == self@,
        decreases self,
    {
        broadcast use {lemma_arr, lemma_obj};

        match self {
            Json::Null => Json::Null,
            Json::Bool(b) => Json::Bool(*b),
            Json::Int(n) => Json::Int(*n),
            Json::Real(t) => Json::Real(t.clone()),
            Json::Str(t) => Json::Str(t.clone()),
            Json::Arr(v) => {
                let mut out: Vec<Json> = Vec::new();
                let mut i: usize = 0;
                while i < v.len()
                    invariant
                        0 <= i <= v@.len(),
                        *self == Json::Arr(*v),
                        out@.len() == i,
                        forall|j: int| 0 <= j < i ==> #[trigger] out@[j]@ == v@[j]@,
                    decreases v@.len() - i,
                {
                    assert(decreases_to!(self => v@[i as int])) by {
                        assert(decreases_to!(*self => self->Arr_0));
                        assert(decreases_to!(*v => v@));
                        assert(decreases_to!(v@ => v@[i as int]));
                    }
                    out.push(v[i].copy());
                    i += 1;
                }
                assert(json_views(out@) =~= json_views(v@));
                Json::Arr(out)
            },
            Json::Obj(v) => {
                let mut out: Vec<(String, Json)> = Vec::new();
                let mut i: usize = 0;
                while i < v.len()
                    invariant
                        0 <= i <= v@.len(),
                        *self == Json::Obj(*v),
                        out@.len() == i,
                        forall|j: int|
                            0 <= j < i ==> (#[trigger] out@[j]).1@ == v@[j].1@ && out@[j].0@
                                == v@[j].0@,
                    decreases v@.len() - i,
                {
                    assert(decreases_to!(self => v@[i as int].1)) by {
                        assert(decreases_to!(*self => self->Obj_0));
                        assert(decreases_to!(*v => v@));
                        assert(decreases_to!(v@ => v@[i as int]));
                        assert(decreases_to!(v@[i as int] => v@[i as int].1));
                    }
                    out.push((v[i].0.clone(), v[i].1.copy()));
                    i += 1;
                }
                assert(member_views(out@) =~= member_views(v@));
                Json::Obj(out)
            },
        }
    }
}

/// A member is read as a text, a truth value or a list where it is one.
pub proof fn law_members_are_read_by_their_kind(
    value: JsonView,
    key: Seq<char>,
    s: Seq<char>,
    b: bool,
    items: Seq<JsonView>,
    texts: Seq<Seq<char>>,
    i: int,
)
    ensures
        value.get(key) == Some(JsonView::Str(s)) ==> value.get_str(key) == Some(s),
        value.get(key) is None ==> value.get_str(key) is None,
        value.get_str(key) == Some(s) ==> value.get(key) == Some(JsonView::Str(s)),
        JsonView::Bool(b).as_bool() == Some(b),
        JsonView::Str(s).as_bool() is None,
        JsonView::Arr(items).as_array() == Some(items),
        JsonView::Str(s).as_array() is None,
        JsonView::opt_text(Some(s)) == JsonView::Str(s),
        JsonView::opt_text(None) == JsonView::Null,
        0 <= i < texts.len() ==> (JsonView::texts(texts) matches JsonView::Arr(listed)
            && listed.len() == texts.len() && listed[i] == JsonView::Str(texts[i])),
{
}

} // verus!
