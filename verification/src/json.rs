//! JSON documents: an owned tree, and the mathematical tree that contracts speak of.

use crate::codec::Fraction;
use vstd::prelude::*;

verus! {

/// What a JSON document is.
///
/// Integers are split by sign; a number that is no 64-bit integer is told apart by its decimal
/// rendering alone.
pub enum JsonTree {
    Null,
    Bool(bool),
    Unsigned(u64),
    Negative(i64),
    Fraction(Seq<char>),
    Text(Seq<char>),
    Array(Seq<JsonTree>),
    Object(Map<Seq<char>, JsonTree>),
}

impl JsonTree {
    /// An object that has the key.
    pub open spec fn has(self, key: Seq<char>) -> bool {
        self matches JsonTree::Object(entries) && entries.contains_key(key)
    }

    /// What an object holds under the key; null for whatever has no such key.
    pub open spec fn at(self, key: Seq<char>) -> JsonTree {
        if self.has(key) {
            self->Object_0[key]
        } else {
            JsonTree::Null
        }
    }

    /// The content of a string.
    pub open spec fn text(self) -> Option<Seq<char>> {
        match self {
            JsonTree::Text(text) => Some(text),
            _ => None,
        }
    }

    /// The value of an integer that is not negative.
    pub open spec fn unsigned(self) -> Option<u64> {
        match self {
            JsonTree::Unsigned(u) => Some(u),
            _ => None,
        }
    }

    /// The value of a truth value.
    pub open spec fn truth(self) -> Option<bool> {
        match self {
            JsonTree::Bool(b) => Some(b),
            _ => None,
        }
    }

    /// The string with this very content.
    pub open spec fn is_text(self, content: Seq<char>) -> bool {
        self.text() == Some(content)
    }
}

/// The tree of a signed integer.
pub open spec fn integer_tree(i: i64) -> JsonTree {
    if i >= 0 {
        JsonTree::Unsigned(i as u64)
    } else {
        JsonTree::Negative(i)
    }
}

/// An owned JSON document.
///
/// Where an object holds a key twice, the later entry counts.
#[derive(Debug)]
pub enum Json {
    Null,
    Bool(bool),
    Unsigned(u64),
    Signed(i64),
    Fraction(Fraction),
    Text(String),
    Array(Vec<Json>),
    Object(Vec<(String, Json)>),
}

impl Json {
    pub open spec fn view(&self) -> JsonTree
        decreases self,
    {
        match self {
            Json::Null => JsonTree::Null,
            Json::Bool(b) => JsonTree::Bool(*b),
            Json::Unsigned(u) => JsonTree::Unsigned(*u),
            Json::Signed(i) => integer_tree(*i),
            Json::Fraction(f) => f@,
            Json::Text(text) => JsonTree::Text(text@),
            Json::Array(items) => JsonTree::Array(array_view(items@)),
            Json::Object(entries) => JsonTree::Object(object_view(entries@)),
        }
    }

    /// The value under a key of an object.
    pub fn get(&self, key: &str) -> (found: Option<&Json>)
        ensures
            found is Some <==> self@.has(key@),
            found matches Some(value) ==> value@ == self@.at(key@),
    {
        match self {
            Json::Object(entries) => {
                let wanted = key.to_string();
                let mut n: usize = entries.len();
                assert(entries@.take(n as int) == entries@);
                while n > 0
                    invariant
                        n <= entries@.len(),
                        wanted@ == key@,
                        self@ == JsonTree::Object(object_view(entries@)),
                        object_view(entries@).contains_key(key@) <==> object_view(
                            entries@.take(n as int),
                        ).contains_key(key@),
                        object_view(entries@).contains_key(key@) ==> object_view(entries@)[key@]
                            == object_view(entries@.take(n as int))[key@],
                    decreases n,
                {
                    n = n - 1;
                    assert(entries@.take(n + 1).drop_last() == entries@.take(n as int));
                    assert(entries@.take(n + 1).last() == entries@[n as int]);
                    let entry = &entries[n];
                    if entry.0 == wanted {
                        return Some(&entry.1);
                    }
                }
                None
            },
            Json::Fraction(fraction) => {
                fraction.check();
                None
            },
            _ => None,
        }
    }

    /// The value under a key of an object; null where there is none.
    pub fn at(&self, key: &str) -> (value: &Json)
        ensures
            value@ == self@.at(key@),
    {
        match self.get(key) {
            Some(value) => value,
            None => &Json::Null,
        }
    }

    /// The content of a string.
    pub fn as_str(&self) -> (text: Option<&str>)
        ensures
            text is Some <==> self@.text() is Some,
            text matches Some(t) ==> self@.text() == Some(t@),
    {
        match self {
            Json::Text(text) => Some(text.as_str()),
            Json::Fraction(fraction) => {
                fraction.check();
                None
            },
            _ => None,
        }
    }

    /// The value of an integer that is not negative.
    pub fn as_u64(&self) -> (value: Option<u64>)
        ensures
            value == self@.unsigned(),
    {
        match self {
            Json::Unsigned(u) => Some(*u),
            Json::Signed(i) => if *i >= 0 {
                Some(*i as u64)
            } else {
                None
            },
            Json::Fraction(fraction) => {
                fraction.check();
                None
            },
            _ => None,
        }
    }

    /// The value of a truth value.
    pub fn as_bool(&self) -> (value: Option<bool>)
        ensures
            value == self@.truth(),
    {
        match self {
            Json::Bool(b) => Some(*b),
            Json::Fraction(fraction) => {
                fraction.check();
                None
            },
            _ => None,
        }
    }

    /// The items of an array.
    pub fn as_array(&self) -> (found: Option<&Vec<Json>>)
        ensures
            found is Some <==> self@ is Array,
            found matches Some(items) ==> self@ == JsonTree::Array(array_view(items@)),
    {
        match self {
            Json::Array(items) => Some(items),
            Json::Fraction(fraction) => {
                fraction.check();
                None
            },
            _ => None,
        }
    }

    /// Whether this is the string with this very content.
    pub fn is_text(&self, content: &str) -> (same: bool)
        ensures
            same == self@.is_text(content@),
    {
        match self.as_str() {
            Some(text) => text.to_string() == content.to_string(),
            None => false,
        }
    }

    /// Takes the value under a key out of an object; null where there is none.
    pub fn into_field(self, key: &str) -> (value: Json)
        ensures
            value@ == self@.at(key@),
    {
        match self {
            Json::Object(entries) => {
                let ghost whole = object_view(entries@);
                let wanted = key.to_string();
                let mut rest: Vec<(String, Json)> = entries;
                loop
                    invariant
                        wanted@ == key@,
                        whole.contains_key(key@) <==> object_view(rest@).contains_key(key@),
                        whole.contains_key(key@) ==> whole[key@] == object_view(rest@)[key@],
                        self@ == JsonTree::Object(whole),
                    decreases rest@.len(),
                {
                    match rest.pop() {
                        Some((name, value)) => {
                            if name == wanted {
                                return value;
                            }
                        },
                        None => {
                            return Json::Null;
                        },
                    }
                }
            },
            Json::Fraction(fraction) => {
                fraction.check();
                Json::Null
            },
            _ => Json::Null,
        }
    }

    /// The string with the given content.
    pub fn string(content: &str) -> (json: Json)
        ensures
            json@ == JsonTree::Text(content@),
    {
        Json::Text(content.to_string())
    }
}

/// The entries of an object under construction.
#[derive(Debug)]
pub struct Fields {
    entries: Vec<(String, Json)>,
}

impl Fields {
    pub closed spec fn view(&self) -> Map<Seq<char>, JsonTree> {
        object_view(self.entries@)
    }

    /// No entries yet.
    pub fn new() -> (fields: Fields)
        ensures
            fields@ == Map::<Seq<char>, JsonTree>::empty(),
    {
        Fields { entries: Vec::new() }
    }

    /// Adds an entry, or replaces the one under the same key.
    pub fn with(self, key: &str, value: Json) -> (fields: Fields)
        ensures
            fields@ == self@.insert(key@, value@),
    {
        let mut entries = self.entries;
        entries.push((key.to_string(), value));
        assert(entries@.drop_last() == self.entries@);
        Fields { entries }
    }

    /// The object with these entries.
    pub fn object(self) -> (json: Json)
        ensures
            json@ == JsonTree::Object(self@),
    {
        Json::Object(self.entries)
    }
}

/// The trees of the items, in order.
pub open spec fn array_view(items: Seq<Json>) -> Seq<JsonTree>
    decreases items,
{
    if items.len() == 0 {
        Seq::empty()
    } else {
        array_view(items.drop_last()).push(items.last().view())
    }
}

/// The mapping that the entries spell out: a later entry replaces an earlier one.
pub open spec fn object_view(entries: Seq<(String, Json)>) -> Map<Seq<char>, JsonTree>
    decreases entries,
{
    if entries.len() == 0 {
        Map::empty()
    } else {
        object_view(entries.drop_last()).insert(entries.last().0@, entries.last().1.view())
    }
}

/// The trees of the items stand where the items stand.
pub proof fn array_view_index(items: Seq<Json>)
    ensures
        array_view(items).len() == items.len(),
        forall|i: int| 0 <= i < items.len() ==> #[trigger] array_view(items)[i] == items[i]@,
    decreases items.len(),
{
    if items.len() > 0 {
        array_view_index(items.drop_last());
    }
}

/// An object has the keys of its entries, and under each what the entry says, null included;
/// whatever else a document is, it has no key, and null stands under every one.
pub proof fn objects_hold_their_entries(tree: JsonTree, key: Seq<char>)
    ensures
        tree matches JsonTree::Object(entries) ==> {
            &&& tree.has(key) == entries.contains_key(key)
            &&& entries.contains_key(key) ==> tree.at(key) == entries[key]
            &&& !entries.contains_key(key) ==> tree.at(key) == JsonTree::Null
        },
        !(tree is Object) ==> !tree.has(key) && tree.at(key) == JsonTree::Null,
{
}

/// A text, a number or a truth value is read as what it is, and nothing else is read as one.
pub proof fn values_are_read_as_they_are(
    tree: JsonTree,
    text: Seq<char>,
    number: u64,
    truth: bool,
)
    ensures
        tree.text() == Some(text) <==> tree == JsonTree::Text(text),
        tree.is_text(text) <==> tree == JsonTree::Text(text),
        tree.unsigned() == Some(number) <==> tree == JsonTree::Unsigned(number),
        tree.truth() == Some(truth) <==> tree == JsonTree::Bool(truth),
{
}

/// A signed integer is told apart by its sign, and keeps its value.
pub proof fn integers_keep_their_value(i: i64)
    ensures
        i < 0 ==> integer_tree(i) == JsonTree::Negative(i),
        i >= 0 ==> (integer_tree(i) matches JsonTree::Unsigned(u) && u == i),
{
}

/// An owned document is the tree of its parts. An item comes after the items before it, and an
/// entry takes the place of any earlier one under its key and leaves the others.
pub proof fn documents_are_the_trees_of_their_parts(
    items: Seq<Json>,
    item: Json,
    entries: Seq<(String, Json)>,
    entry: (String, Json),
    key: Seq<char>,
)
    ensures
        array_view(Seq::empty()) == Seq::<JsonTree>::empty(),
        array_view(items.push(item)) == array_view(items).push(item@),
        object_view(Seq::empty()) == Map::<Seq<char>, JsonTree>::empty(),
        object_view(entries.push(entry)).contains_key(entry.0@),
        object_view(entries.push(entry))[entry.0@] == entry.1@,
        key != entry.0@ ==> object_view(entries.push(entry)).contains_key(key)
            == object_view(entries).contains_key(key),
        key != entry.0@ && object_view(entries).contains_key(key) ==> object_view(
            entries.push(entry),
        )[key] == object_view(entries)[key],
{
    assert(items.push(item).drop_last() == items);
    assert(entries.push(entry).drop_last() == entries);
}

/// An owned value is the tree of the same value.
pub proof fn values_are_their_own_trees(
    b: bool,
    u: u64,
    i: i64,
    text: String,
    items: Vec<Json>,
    entries: Vec<(String, Json)>,
)
    ensures
        Json::Null@ == JsonTree::Null,
        Json::Bool(b)@ == JsonTree::Bool(b),
        Json::Unsigned(u)@ == JsonTree::Unsigned(u),
        i < 0 ==> Json::Signed(i)@ == JsonTree::Negative(i),
        i >= 0 ==> Json::Signed(i)@ == JsonTree::Unsigned(i as u64),
        Json::Text(text)@ == JsonTree::Text(text@),
        Json::Array(items)@ == JsonTree::Array(array_view(items@)),
        Json::Object(entries)@ == JsonTree::Object(object_view(entries@)),
{
}

} // verus!
