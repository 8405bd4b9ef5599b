use vstd::prelude::*;

verus! {

/// A JSON number as a JSON-RPC message carries it: a non-negative integer,
/// a negative integer, or any other value, held by its IEEE 754 binary64
/// encoding.
#[derive(Clone, Copy, Debug, PartialEq, Eq, Structural)]
pub enum JsonNumber {
    PosInt(u64),
    NegInt(i64),
    Float(u64),
}

/// A JSON value. Object members keep the order in which they were given.
#[derive(Debug, PartialEq)]
pub enum Json {
    Null,
    Bool(bool),
    Number(JsonNumber),
    Str(String),
    Array(Vec<Json>),
    Object(Vec<(String, Json)>),
}

/// The mathematical form of a JSON value.
pub enum JsonView {
    Null,
    Bool(bool),
    Number(JsonNumber),
    Str(Seq<char>),
    Array(Seq<JsonView>),
    Object(Seq<(Seq<char>, JsonView)>),
}

pub open spec fn view_json(j: Json) -> JsonView
    decreases j,
{
    match j {
        Json::Null => JsonView::Null,
        Json::Bool(b) => JsonView::Bool(b),
        Json::Number(n) => JsonView::Number(n),
        Json::Str(s) => JsonView::Str(s@),
        Json::Array(items) => JsonView::Array(view_items(items@)),
        Json::Object(members) => JsonView::Object(view_members(members@)),
    }
}

pub open spec fn view_items(items: Seq<Json>) -> Seq<JsonView>
    decreases items,
{
    if items.len() == 0 {
        Seq::empty()
    } else {
        seq![view_json(items[0])] + view_items(items.subrange(1, items.len() as int))
    }
}

pub open spec fn view_members(members: Seq<(String, Json)>) -> Seq<(Seq<char>, JsonView)>
    decreases members,
{
    if members.len() == 0 {
        Seq::empty()
    } else {
        seq![(members[0].0@, view_json(members[0].1))] + view_members(
            members.subrange(1, members.len() as int),
        )
    }
}

impl View for Json {
    type V = JsonView;

    open spec fn view(&self) -> JsonView {
        view_json(*self)
    }
}


/// The value of the first member named `key`, if any.
pub open spec fn member(members: Seq<(Seq<char>, JsonView)>, key: Seq<char>) -> Option<JsonView>
    decreases members.len(),
{
    if members.len() == 0 {
        None
    } else if members[0].0 == key {
        Some(members[0].1)
    } else {
        member(members.drop_first(), key)
    }
}

/// The member `key` of an object; `None` for a value that is no object.
pub open spec fn field(j: JsonView, key: Seq<char>) -> Option<JsonView> {
    match j {
        JsonView::Object(members) => member(members, key),
        _ => None,
    }
}

/// The text of a string value.
pub open spec fn as_text(j: Option<JsonView>) -> Option<Seq<char>> {
    match j {
        Some(JsonView::Str(s)) => Some(s),
        _ => None,
    }
}

/// The number of a number value.
pub open spec fn as_number(j: Option<JsonView>) -> Option<JsonNumber> {
    match j {
        Some(JsonView::Number(n)) => Some(n),
        _ => None,
    }
}

pub proof fn lemma_view_items_len_index(items: Seq<Json>)
    ensures
        view_items(items).len() == items.len(),
        forall|i: int| 0 <= i < items.len() ==> #[trigger] view_items(items)[i] == view_json(items[i]),
    decreases items.len(),
{
    if items.len() > 0 {
        let rest = items.subrange(1, items.len() as int);
        lemma_view_items_len_index(rest);
        assert forall|i: int| 0 <= i < items.len() implies #[trigger] view_items(items)[i] == view_json(items[i]) by {
            if i > 0 {
                assert(rest[i - 1] == items[i]);
            }
        }
    }
}

pub proof fn lemma_view_members_len_index(members: Seq<(String, Json)>)
    ensures
        view_members(members).len() == members.len(),
        forall|i: int| 0 <= i < members.len() ==> #[trigger] view_members(members)[i] == (members[i].0@, view_json(members[i].1)),
    decreases members.len(),
{
    if members.len() > 0 {
        let rest = members.subrange(1, members.len() as int);
        lemma_view_members_len_index(rest);
        assert forall|i: int| 0 <= i < members.len() implies #[trigger] view_members(members)[i] == (members[i].0@, view_json(members[i].1)) by {
            if i > 0 {
                assert(rest[i - 1] == members[i]);
            }
        }
    }
}

pub proof fn lemma_view_items_push(items: Seq<Json>, x: Json)
    ensures
        view_items(items.push(x)) == view_items(items).push(view_json(x)),
{
    lemma_view_items_len_index(items);
    lemma_view_items_len_index(items.push(x));
    assert(view_items(items.push(x)) =~= view_items(items).push(view_json(x)));
}

pub proof fn lemma_view_members_push(members: Seq<(String, Json)>, x: (String, Json))
    ensures
        view_members(members.push(x)) == view_members(members).push((x.0@, view_json(x.1))),
{
    lemma_view_members_len_index(members);
    lemma_view_members_len_index(members.push(x));
    assert(view_members(members.push(x)) =~= view_members(members).push((x.0@, view_json(x.1))));
}

impl Json {
    /// A string value with the text of `s`.
    pub fn text(s: &str) -> (j: Json)
        ensures
            j@ == JsonView::Str(s@),
    {
        Json::Str(String::from_str(s))
    }

    /// An object with no members.
    pub fn empty_object() -> (j: Json)
        ensures
            j@ == JsonView::Object(Seq::empty()),
    {
        let members: Vec<(String, Json)> = Vec::new();
        proof {
            assert(members@ =~= Seq::<(String, Json)>::empty());
        }
        Json::Object(members)
    }

    /// The member `key` of an object, `None` for a value that is no object.
    /// Where several members share the name, the first is taken; a value
    /// converted from a parsed `serde_json::Value` has no such duplicates.
    pub fn get(&self, key: &str) -> (r: Option<&Json>)
        ensures
            r is None <==> field(self@, key@) is None,
            r matches Some(v) ==> field(self@, key@) == Some(v@),
    {
        match self {
            Json::Object(members) => {
                let wanted = String::from_str(key);
                let ghost vm = view_members(members@);
                proof {
                    lemma_view_members_len_index(members@);
                    assert(vm.subrange(0, vm.len() as int) =~= vm);
                }
                let mut i: usize = 0;
                while i < members.len()
                    invariant
                        0 <= i <= members.len(),
                        vm == view_members(members@),
                        vm.len() == members.len(),
                        forall|k: int| 0 <= k < members.len() ==> #[trigger] vm[k] == (members@[k].0@, view_json(members@[k].1)),
                        wanted@ == key@,
                        *self == Json::Object(*members),
                        member(vm, key@) == member(vm.subrange(i as int, vm.len() as int), key@),
                    decreases members.len() - i,
                {
                    let ghost rest = vm.subrange(i as int, vm.len() as int);
                    assert(rest[0] == vm[i as int]);
                    if members[i].0 == wanted {
                        return Some(&members[i].1);
                    }
                    assert(rest.drop_first() =~= vm.subrange(i + 1, vm.len() as int));
                    i = i + 1;
                }
                None
            },
            _ => None,
        }
    }
}

/// A copy of `j`.
pub fn clone_json(j: &Json) -> (r: Json)
    ensures
        r@ == j@,
    decreases j,
{
    match j {
        Json::Null => Json::Null,
        Json::Bool(b) => Json::Bool(*b),
        Json::Number(n) => Json::Number(*n),
        Json::Str(s) => Json::Str(s.clone()),
        Json::Array(items) => {
            let mut copy: Vec<Json> = Vec::new();
            let mut i: usize = 0;
            while i < items.len()
                invariant
                    0 <= i <= items.len(),
                    view_items(copy@) == view_items(items@.subrange(0, i as int)),
                    *j == Json::Array(*items),
                decreases items.len() - i,
            {
                proof {
                    assert(decreases_to!(*j => (*j)->Array_0));
                    assert(decreases_to!(*items => items@));
                    assert(decreases_to!(items@ => items@[i as int]));
                }
                let c = clone_json(&items[i]);
                proof {
                    lemma_view_items_push(copy@, c);
                    lemma_view_items_push(items@.subrange(0, i as int), items@[i as int]);
                    assert(items@.subrange(0, i + 1) =~= items@.subrange(0, i as int).push(items@[i as int]));
                }
                copy.push(c);
                i = i + 1;
            }
            assert(items@.subrange(0, items.len() as int) =~= items@);
            Json::Array(copy)
        },
        Json::Object(members) => {
            let mut copy: Vec<(String, Json)> = Vec::new();
            let mut i: usize = 0;
            while i < members.len()
                invariant
                    0 <= i <= members.len(),
                    view_members(copy@) == view_members(members@.subrange(0, i as int)),
                    *j == Json::Object(*members),
                decreases members.len() - i,
            {
                proof {
                    assert(decreases_to!(*j => (*j)->Object_0));
                    assert(decreases_to!(*members => members@));
                    assert(decreases_to!(members@ => members@[i as int]));
                    assert(decreases_to!(members@[i as int] => members@[i as int].1));
                }
                let c = (members[i].0.clone(), clone_json(&members[i].1));
                proof {
                    lemma_view_members_push(copy@, c);
                    lemma_view_members_push(members@.subrange(0, i as int), members@[i as int]);
                    assert(members@.subrange(0, i + 1) =~= members@.subrange(0, i as int).push(members@[i as int]));
                }
                copy.push(c);
                i = i + 1;
            }
            assert(members@.subrange(0, members.len() as int) =~= members@);
            Json::Object(copy)
        },
    }
}

/// Appends the member `key` with `value` to an object's members.
pub fn push_member(members: &mut Vec<(String, Json)>, key: &str, value: Json)
    ensures
        view_members(final(members)@) == view_members(old(members)@).push((key@, value@)),
{
    let m = (String::from_str(key), value);
    proof {
        lemma_view_members_push(members@, m);
    }
    members.push(m);
}

/// Appends `value` to an array's items.
pub fn push_item(items: &mut Vec<Json>, value: Json)
    ensures
        view_items(final(items)@) == view_items(old(items)@).push(value@),
{
    proof {
        lemma_view_items_push(items@, value);
    }
    items.push(value);
}

/// The object with the one member `k1`.
pub fn object1(k1: &str, v1: Json) -> (j: Json)
    ensures
        j@ == JsonView::Object(seq![(k1@, v1@)]),
{
    let mut m: Vec<(String, Json)> = Vec::new();
    push_member(&mut m, k1, v1);
    assert(view_members(m@) =~= seq![(k1@, v1@)]);
    Json::Object(m)
}

/// The object with the members `k1` and `k2`, in this order.
pub fn object2(k1: &str, v1: Json, k2: &str, v2: Json) -> (j: Json)
    ensures
        j@ == JsonView::Object(seq![(k1@, v1@), (k2@, v2@)]),
{
    let ghost (w1, w2) = (v1@, v2@);
    let mut m: Vec<(String, Json)> = Vec::new();
    push_member(&mut m, k1, v1);
    push_member(&mut m, k2, v2);
    assert(view_members(m@) =~= seq![(k1@, w1), (k2@, w2)]);
    Json::Object(m)
}

/// The object with the members `k1`, `k2` and `k3`, in this order.
pub fn object3(k1: &str, v1: Json, k2: &str, v2: Json, k3: &str, v3: Json) -> (j: Json)
    ensures
        j@ == JsonView::Object(seq![(k1@, v1@), (k2@, v2@), (k3@, v3@)]),
{
    let ghost (w1, w2, w3) = (v1@, v2@, v3@);
    let mut m: Vec<(String, Json)> = Vec::new();
    push_member(&mut m, k1, v1);
    push_member(&mut m, k2, v2);
    push_member(&mut m, k3, v3);
    assert(view_members(m@) =~= seq![(k1@, w1), (k2@, w2), (k3@, w3)]);
    Json::Object(m)
}

} // verus!
