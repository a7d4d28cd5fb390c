use vstd::prelude::*;
use crate::text::{signed_decimal, str_equal};

verus! {

/// Mathematical model of a JSON document.
pub enum JsonModel {
    Null,
    Bool(bool),
    /// A number, by its decimal text.
    Number(Seq<char>),
    Text(Seq<char>),
    Array(Seq<JsonModel>),
    /// The members in order, each a key and a value.
    Object(Seq<(Seq<char>, JsonModel)>),
}

/// The value of the first member of `members` whose key is `key`.
pub open spec fn find_member(members: Seq<(Seq<char>, JsonModel)>, key: Seq<char>) -> Option<
    JsonModel,
>
    decreases members.len(),
{
    if members.len() == 0 {
        None
    } else if members[0].0 == key {
        Some(members[0].1)
    } else {
        find_member(members.drop_first(), key)
    }
}

impl JsonModel {
    /// The member `key` of an object; `None` for anything but an object that has it.
    pub open spec fn field(self, key: Seq<char>) -> Option<JsonModel> {
        match self {
            JsonModel::Object(members) => find_member(members, key),
            _ => None,
        }
    }

    /// The characters of a string value; `None` for anything else.
    pub open spec fn text(self) -> Option<Seq<char>> {
        match self {
            JsonModel::Text(s) => Some(s),
            _ => None,
        }
    }

    /// The member `key` where it is a string.
    pub open spec fn text_field(self, key: Seq<char>) -> Option<Seq<char>> {
        match self.field(key) {
            Some(v) => v.text(),
            None => None,
        }
    }

    pub open spec fn is_object(self) -> bool {
        self is Object
    }

    /// Whether every number in the document is a whole number in plain
    /// decimal digits.
    pub open spec fn plain_numbers(self) -> bool
        decreases self,
    {
        match self {
            JsonModel::Number(text) => is_whole_number(text),
            JsonModel::Array(items) => forall|i: int|
                0 <= i < items.len() ==> (#[trigger] items[i]).plain_numbers(),
            JsonModel::Object(members) => forall|i: int|
                0 <= i < members.len() ==> (#[trigger] members[i]).1.plain_numbers(),
            _ => true,
        }
    }
}

/// Whether a text writes a whole number from `i64::MIN` to `u64::MAX` in
/// plain decimal digits, with a minus sign where it is negative.
pub open spec fn is_whole_number(text: Seq<char>) -> bool {
    exists|n: int| i64::MIN <= n <= u64::MAX && text == #[trigger] signed_decimal(n)
}

/// A JSON document held by value. A number is held by its decimal text.
/// An object keeps its members in order, as pairs of key and value.
#[derive(Debug, PartialEq, Eq)]
pub enum Json {
    Null,
    Bool(bool),
    Number(String),
    Text(String),
    Array(Vec<Json>),
    Object(Vec<(String, Json)>),
}

/// The models of a list of documents, in order.
pub open spec fn items_model(items: Seq<Json>) -> Seq<JsonModel> {
    Seq::new(items.len(), |i: int| items[i]@)
}

/// The models of a list of members, in order.
pub open spec fn members_model(members: Seq<(String, Json)>) -> Seq<(Seq<char>, JsonModel)> {
    Seq::new(members.len(), |i: int| (members[i].0@, members[i].1@))
}

impl Json {
    /// The document that this value stands for.
    pub open spec fn view(&self) -> JsonModel
        decreases self,
    {
        match self {
            Json::Null => JsonModel::Null,
            Json::Bool(b) => JsonModel::Bool(*b),
            Json::Number(t) => JsonModel::Number(t@),
            Json::Text(s) => JsonModel::Text(s@),
            Json::Array(items) => JsonModel::Array(
                Seq::new(
                    items@.len(),
                    |i: int|
                        if 0 <= i < items@.len() {
                            items@[i].view()
                        } else {
                            JsonModel::Null
                        },
                ),
            ),
            Json::Object(members) => JsonModel::Object(
                Seq::new(
                    members@.len(),
                    |i: int|
                        if 0 <= i < members@.len() {
                            (members@[i].0@, members@[i].1.view())
                        } else {
                            (Seq::empty(), JsonModel::Null)
                        },
                ),
            ),
        }
    }

    /// An array stands for the models of its items.
    pub proof fn lemma_array_view(items: Vec<Json>)
        ensures
            Json::Array(items)@ == JsonModel::Array(items_model(items@)),
    {
        assert(Json::Array(items)@->Array_0 =~= items_model(items@));
    }

    /// An object stands for the models of its members.
    pub proof fn lemma_object_view(members: Vec<(String, Json)>)
        ensures
            Json::Object(members)@ == JsonModel::Object(members_model(members@)),
    {
        assert(Json::Object(members)@->Object_0 =~= members_model(members@));
    }

    /// A string value.
    pub fn text(s: &str) -> (j: Json)
        ensures
            j@ == JsonModel::Text(s@),
    {
        Json::Text(String::from_str(s))
    }

    /// An array of the given items.
    pub fn array(items: Vec<Json>) -> (j: Json)
        ensures
            j@ == JsonModel::Array(items_model(items@)),
    {
        proof {
            Json::lemma_array_view(items);
        }
        Json::Array(items)
    }

    /// An object of the given members.
    pub fn object(members: Vec<(String, Json)>) -> (j: Json)
        ensures
            j@ == JsonModel::Object(members_model(members@)),
    {
        proof {
            Json::lemma_object_view(members);
        }
        Json::Object(members)
    }

    /// The member `key` of an object, the first where several have that key.
    pub fn get(&self, key: &str) -> (found: Option<&Json>)
        ensures
            match found {
                Some(j) => self@.field(key@) == Some(j@),
                None => self@.field(key@) is None,
            },
    {
        match self {
            Json::Object(members) => {
                proof {
                    Json::lemma_object_view(*members);
                }
                let ghost all = members_model(members@);
                proof {
                    assert(all.skip(0) =~= all);
                }
                let mut i: usize = 0;
                while i < members.len()
                    invariant
                        0 <= i <= members.len(),
                        all == members_model(members@),
                        self@ == JsonModel::Object(all),
                        find_member(all, key@) == find_member(all.skip(i as int), key@),
                    decreases members.len() - i,
                {
                    proof {
                        assert(all.skip(i as int).drop_first() =~= all.skip(i + 1));
                        assert(all.skip(i as int)[0] == all[i as int]);
                    }
                    if str_equal(members[i].0.as_str(), key) {
                        return Some(&members[i].1);
                    }
                    i += 1;
                }
                None
            },
            _ => None,
        }
    }

    /// The characters of a string value.
    pub fn as_str(&self) -> (found: Option<&str>)
        ensures
            match found {
                Some(s) => self@.text() == Some(s@),
                None => self@.text() is None,
            },
    {
        match self {
            Json::Text(s) => Some(s.as_str()),
            _ => None,
        }
    }

    /// The member `key` where it is a string.
    pub fn text_field(&self, key: &str) -> (found: Option<&str>)
        ensures
            match found {
                Some(s) => self@.text_field(key@) == Some(s@),
                None => self@.text_field(key@) is None,
            },
    {
        match self.get(key) {
            Some(value) => value.as_str(),
            None => None,
        }
    }

    /// Whether this is an object.
    pub fn is_object(&self) -> (yes: bool)
        ensures
            yes == self@.is_object(),
    {
        match self {
            Json::Object(_) => true,
            _ => false,
        }
    }

    /// A copy that stands for the same document.
    pub fn duplicate(&self) -> (copy: Json)
        ensures
            copy@ == self@,
        decreases self,
    {
        match self {
            Json::Null => Json::Null,
            Json::Bool(b) => Json::Bool(*b),
            Json::Number(t) => Json::Number(t.clone()),
            Json::Text(s) => Json::Text(s.clone()),
            Json::Array(items) => {
                let mut out: Vec<Json> = Vec::new();
                let mut i: usize = 0;
                while i < items.len()
                    invariant
                        0 <= i <= items.len(),
                        out@.len() == i,
                        decreases_to!(self => items),
                        forall|k: int| 0 <= k < i ==> out@[k]@ == items@[k]@,
                    decreases items.len() - i,
                {
                    proof {
                        assert(decreases_to!(*items => items[i as int]));
                    }
                    let item = items[i].duplicate();
                    out.push(item);
                    i += 1;
                }
                proof {
                    Json::lemma_array_view(*items);
                    assert(items_model(out@) =~= items_model(items@));
                }
                Json::array(out)
            },
            Json::Object(members) => {
                let mut out: Vec<(String, Json)> = Vec::new();
                let mut i: usize = 0;
                while i < members.len()
                    invariant
                        0 <= i <= members.len(),
                        out@.len() == i,
                        forall|k: int|
                            0 <= k < i ==> out@[k].0@ == members@[k].0@ && out@[k].1@
                                == members@[k].1@,
                        decreases_to!(self => members),
                    decreases members.len() - i,
                {
                    proof {
                        assert(decreases_to!(*members => members[i as int]));
                    }
                    let key = members[i].0.clone();
                    let value = members[i].1.duplicate();
                    out.push((key, value));
                    i += 1;
                }
                proof {
                    Json::lemma_object_view(*members);
                    assert(members_model(out@) =~= members_model(members@));
                }
                Json::object(out)
            },
        }
    }
}

impl Clone for Json {
    fn clone(&self) -> (copy: Json)
        ensures
            copy@ == self@,
    {
        self.duplicate()
    }
}

/// Collects the members of an object, in order.
pub struct ObjectBuilder {
    members: Vec<(String, Json)>,
}

impl ObjectBuilder {
    /// The members collected so far.
    pub closed spec fn view(&self) -> Seq<(Seq<char>, JsonModel)> {
        members_model(self.members@)
    }

    pub fn new() -> (b: ObjectBuilder)
        ensures
            b@ == Seq::<(Seq<char>, JsonModel)>::empty(),
    {
        let b = ObjectBuilder { members: Vec::new() };
        assert(b@ =~= Seq::<(Seq<char>, JsonModel)>::empty());
        b
    }

    /// Adds the member `key` with `value` behind the others.
    pub fn with(self, key: &str, value: Json) -> (b: ObjectBuilder)
        ensures
            b@ == self@.push((key@, value@)),
    {
        let mut members = self.members;
        members.push((String::from_str(key), value));
        let b = ObjectBuilder { members };
        assert(b@ =~= self@.push((key@, value@)));
        b
    }

    /// The object of the members collected.
    pub fn build(self) -> (j: Json)
        ensures
            j@ == JsonModel::Object(self@),
    {
        Json::object(self.members)
    }
}

/// Collects the items of an array, in order.
pub struct ArrayBuilder {
    items: Vec<Json>,
}

impl ArrayBuilder {
    /// The items collected so far.
    pub closed spec fn view(&self) -> Seq<JsonModel> {
        items_model(self.items@)
    }

    pub fn new() -> (b: ArrayBuilder)
        ensures
            b@ == Seq::<JsonModel>::empty(),
    {
        let b = ArrayBuilder { items: Vec::new() };
        assert(b@ =~= Seq::<JsonModel>::empty());
        b
    }

    /// Adds `value` behind the others.
    pub fn with(self, value: Json) -> (b: ArrayBuilder)
        ensures
            b@ == self@.push(value@),
    {
        let mut items = self.items;
        items.push(value);
        let b = ArrayBuilder { items };
        assert(b@ =~= self@.push(value@));
        b
    }

    /// The array of the items collected.
    pub fn build(self) -> (j: Json)
        ensures
            j@ == JsonModel::Array(self@),
    {
        Json::array(self.items)
    }
}

} // verus!
