//! The boundary to `serde_json`: text to tree and tree to text.

use crate::json::{Json, JsonTree};
use vstd::prelude::*;

verus! {

/// `serde_json::Value`, which is opaque here: `value_tree` says what it holds.
#[verifier::external_type_specification]
#[verifier::external_body]
pub struct ExValue(serde_json::Value);

/// What a `serde_json::Value` holds: the values in it, to whatever depth.
pub uninterp spec fn value_tree(value: serde_json::Value) -> JsonTree;

/// What `serde_json::from_str` reads a text as: the tree, or the wording of its error.
pub uninterp spec fn parsed_json(text: Seq<char>) -> Result<JsonTree, Seq<char>>;

/// How `serde_json` writes a tree on one line.
pub uninterp spec fn json_text(tree: JsonTree) -> Seq<char>;

/// The text is read as the tree.
pub open spec fn reads_as(text: Seq<char>, tree: JsonTree) -> bool {
    parsed_json(text) == Ok::<JsonTree, Seq<char>>(tree)
}

/// How many arrays and objects may lie inside one another in a text that `serde_json` reads.
pub const MAX_DEPTH: u32 = 127;

/// The tree holds no fraction, and at most `depth` arrays and objects inside one another.
pub open spec fn is_plain(tree: JsonTree, depth: nat) -> bool
    decreases depth,
{
    match tree {
        JsonTree::Fraction(_) => false,
        JsonTree::Array(items) => depth > 0 && forall|i: int|
            0 <= i < items.len() ==> is_plain(#[trigger] items[i], (depth - 1) as nat),
        JsonTree::Object(entries) => depth > 0 && forall|key: Seq<char>|
            entries.contains_key(key) ==> is_plain(#[trigger] entries[key], (depth - 1) as nat),
        _ => true,
    }
}

/// A number that is no 64-bit integer, kept as `serde_json` holds it.
#[derive(Debug)]
pub struct Fraction {
    value: serde_json::Value,
}

impl Fraction {
    #[verifier::type_invariant]
    spec fn is_fraction(self) -> bool {
        value_tree(self.value) is Fraction
    }

    pub closed spec fn view(&self) -> JsonTree {
        value_tree(self.value)
    }

    /// A fraction is never anything else.
    pub(crate) fn check(&self)
        ensures
            self@ is Fraction,
    {
        proof {
            use_type_invariant(self);
        }
    }
}

/// One level of a `serde_json::Value`.
enum Layer {
    Null,
    Bool(bool),
    Unsigned(u64),
    Signed(i64),
    Fraction(serde_json::Value),
    Text(String),
    Array(Vec<serde_json::Value>),
    Object(Vec<(String, serde_json::Value)>),
}

/// The trees of the values, in order.
spec fn values_view(items: Seq<serde_json::Value>) -> Seq<JsonTree> {
    Seq::new(items.len(), |i: int| value_tree(items[i]))
}

/// The mapping that the entries spell out: a later entry replaces an earlier one.
spec fn entries_view(entries: Seq<(String, serde_json::Value)>) -> Map<Seq<char>, JsonTree>
    decreases entries.len(),
{
    if entries.len() == 0 {
        Map::empty()
    } else {
        entries_view(entries.drop_last()).insert(entries.last().0@, value_tree(entries.last().1))
    }
}

/// No key occurs twice.
spec fn distinct_keys(entries: Seq<(String, serde_json::Value)>) -> bool {
    forall|i: int, j: int|
        0 <= i < j < entries.len() ==> #[trigger] entries[i].0@ != #[trigger] entries[j].0@
}

/// The tree whose top level is `layer`.
spec fn layer_tree(layer: Layer) -> JsonTree {
    match layer {
        Layer::Null => JsonTree::Null,
        Layer::Bool(b) => JsonTree::Bool(b),
        Layer::Unsigned(u) => JsonTree::Unsigned(u),
        Layer::Signed(i) => crate::json::integer_tree(i),
        Layer::Fraction(value) => value_tree(value),
        Layer::Text(text) => JsonTree::Text(text@),
        Layer::Array(items) => JsonTree::Array(values_view(items@)),
        Layer::Object(entries) => JsonTree::Object(entries_view(entries@)),
    }
}

/// `serde_json::from_str` into a `serde_json::Value`: the value, or the error's wording, is a
/// function of the text alone. An empty text is refused.
#[verifier::external_body]
fn read_value(text: &str) -> (result: Result<serde_json::Value, String>)
    ensures
        match result {
            Ok(value) => parsed_json(text@) == Ok::<JsonTree, Seq<char>>(value_tree(value)),
            Err(wording) => parsed_json(text@) == Err::<JsonTree, Seq<char>>(wording@),
        },
        text@.len() == 0 ==> result is Err,
{
    match serde_json::from_str::<serde_json::Value>(text) {
        Ok(value) => Ok(value),
        Err(error) => Err(error.to_string()),
    }
}

/// The variants of `serde_json::Value`, told apart and taken out.
///
/// A number is `Unsigned` where `Number::as_u64` has it, `Signed` where only `Number::as_i64`
/// does, and otherwise a fraction. An object hands out its entries, in which no key occurs twice.
#[verifier::external_body]
fn open_value(value: serde_json::Value) -> (layer: Layer)
    ensures
        layer_tree(layer) == value_tree(value),
        layer is Fraction ==> value_tree(value) is Fraction,
        layer matches Layer::Object(entries) ==> distinct_keys(entries@),
{
    match value {
        serde_json::Value::Null => Layer::Null,
        serde_json::Value::Bool(b) => Layer::Bool(b),
        serde_json::Value::Number(n) => match (n.as_u64(), n.as_i64()) {
            (Some(u), _) => Layer::Unsigned(u),
            (None, Some(i)) => Layer::Signed(i),
            (None, None) => Layer::Fraction(serde_json::Value::Number(n)),
        },
        serde_json::Value::String(text) => Layer::Text(text),
        serde_json::Value::Array(items) => Layer::Array(items),
        serde_json::Value::Object(entries) => Layer::Object(entries.into_iter().collect()),
    }
}

/// The variants of `serde_json::Value`, put together: `Value::from` of the integers, and an object
/// that its entries are collected into, in which no key occurs twice.
#[verifier::external_body]
fn close_value(layer: Layer) -> (value: serde_json::Value)
    requires
        layer matches Layer::Object(entries) ==> distinct_keys(entries@),
    ensures
        value_tree(value) == layer_tree(layer),
{
    match layer {
        Layer::Null => serde_json::Value::Null,
        Layer::Bool(b) => serde_json::Value::Bool(b),
        Layer::Unsigned(u) => serde_json::Value::from(u),
        Layer::Signed(i) => serde_json::Value::from(i),
        Layer::Fraction(value) => value,
        Layer::Text(text) => serde_json::Value::String(text),
        Layer::Array(items) => serde_json::Value::Array(items),
        Layer::Object(entries) => serde_json::Value::Object(entries.into_iter().collect()),
    }
}

/// `Display` of `serde_json::Value`: compact, a function of what the value holds, and on one line,
/// since a line feed or a carriage return inside a string is written as an escape.
///
/// `serde_json::from_str` reads the same value back, where it holds no fraction and does not go
/// deeper than what is read. Nothing is said of reading a fraction back.
#[verifier::external_body]
fn write_value(value: &serde_json::Value) -> (text: String)
    ensures
        text@ == json_text(value_tree(*value)),
        !text@.contains('\n'),
        !text@.contains('\r'),
        is_plain(value_tree(*value), MAX_DEPTH as nat) ==> reads_as(text@, value_tree(*value)),
{
    value.to_string()
}

/// Where no key occurs twice, every entry counts.
proof fn lemma_entries_view(entries: Seq<(String, serde_json::Value)>, i: int)
    requires
        distinct_keys(entries),
        0 <= i < entries.len(),
    ensures
        entries_view(entries).dom().finite(),
        entries_view(entries).contains_key(entries[i].0@),
        entries_view(entries)[entries[i].0@] == value_tree(entries[i].1),
    decreases entries.len(),
{
    let front = entries.drop_last();
    assert(forall|k: int| 0 <= k < front.len() ==> front[k] == entries[k]);
    if i < front.len() {
        lemma_entries_view(front, i);
    } else if front.len() > 0 {
        lemma_entries_view(front, 0);
    } else {
        assert(entries_view(front) == Map::<Seq<char>, JsonTree>::empty());
    }
}

/// The keys that count are those of the entries.
proof fn lemma_entries_keys(entries: Seq<(String, serde_json::Value)>, key: Seq<char>)
    requires
        entries_view(entries).contains_key(key),
    ensures
        exists|i: int| 0 <= i < entries.len() && #[trigger] entries[i].0@ == key,
    decreases entries.len(),
{
    if entries.len() > 0 {
        let last = entries.len() - 1;
        if entries[last].0@ != key {
            let front = entries.drop_last();
            lemma_entries_keys(front, key);
            let i = choose|i: int| 0 <= i < front.len() && #[trigger] front[i].0@ == key;
            assert(entries[i].0@ == key);
        }
    }
}

/// Where no key occurs twice, an entry that is taken out takes its key with it.
proof fn lemma_entries_remove(entries: Seq<(String, serde_json::Value)>, i: int)
    requires
        distinct_keys(entries),
        0 <= i < entries.len(),
    ensures
        distinct_keys(entries.remove(i)),
        entries_view(entries.remove(i)) == entries_view(entries).remove(entries[i].0@),
    decreases entries.len(),
{
    let front = entries.drop_last();
    let key = entries[i].0@;
    let rest = entries.remove(i);
    assert forall|j: int, k: int| 0 <= j < k < rest.len() implies #[trigger] rest[j].0@
        != #[trigger] rest[k].0@ by {
        let a = if j < i {
            j
        } else {
            j + 1
        };
        let b = if k < i {
            k
        } else {
            k + 1
        };
        assert(entries[a].0@ != entries[b].0@);
    }
    if i == entries.len() - 1 {
        assert(rest == front);
        if entries_view(front).contains_key(key) {
            lemma_entries_keys(front, key);
            let j = choose|j: int| 0 <= j < front.len() && #[trigger] front[j].0@ == key;
            assert(entries[j].0@ == entries[i].0@);
        }
        assert(entries_view(entries).remove(key) == entries_view(front));
    } else {
        assert(distinct_keys(front)) by {
            assert forall|j: int, k: int| 0 <= j < k < front.len() implies #[trigger] front[j].0@
                != #[trigger] front[k].0@ by {
                assert(entries[j].0@ != entries[k].0@);
            }
        }
        lemma_entries_remove(front, i);
        assert(rest.drop_last() == front.remove(i));
        assert(rest.last() == entries.last());
        assert(entries[entries.len() - 1].0@ != key);
        assert(entries_view(entries).remove(key) == entries_view(front).remove(key).insert(
            entries.last().0@,
            value_tree(entries.last().1),
        ));
    }
}

/// Where an entry with the key stands.
fn position(entries: &Vec<(String, serde_json::Value)>, key: &String) -> (found: Option<usize>)
    ensures
        match found {
            Some(i) => i < entries@.len() && entries@[i as int].0@ == key@,
            None => forall|i: int| 0 <= i < entries@.len() ==> #[trigger] entries@[i].0@ != key@,
        },
{
    for i in 0..entries.len()
        invariant
            forall|j: int| 0 <= j < i ==> #[trigger] entries@[j].0@ != key@,
    {
        if entries[i].0 == *key {
            return Some(i);
        }
    }
    None
}

/// Sets the value of a key: an earlier entry of the key goes, and the new one comes last.
fn put(entries: &mut Vec<(String, serde_json::Value)>, key: String, value: serde_json::Value)
    requires
        distinct_keys(old(entries)@),
    ensures
        distinct_keys(final(entries)@),
        entries_view(final(entries)@) == entries_view(old(entries)@).insert(
            key@,
            value_tree(value),
        ),
{
    let ghost before = entries@;
    match position(entries, &key) {
        Some(i) => {
            proof {
                lemma_entries_remove(before, i as int);
                assert forall|j: int| 0 <= j < before.remove(i as int).len() implies (
                #[trigger] before.remove(i as int)[j]).0@ != key@ by {
                    if j < i {
                        assert(before[j].0@ != before[i as int].0@);
                    } else {
                        assert(before[i as int].0@ != before[j + 1].0@);
                    }
                }
            }
            let _ = entries.remove(i);
        },
        None => {},
    }
    let ghost rest = entries@;
    entries.push((key, value));
    assert(entries@.drop_last() == rest);
    assert(entries_view(entries@) == entries_view(before).insert(key@, value_tree(value)));
}

/// Takes a value apart into an owned document.
fn to_json(value: serde_json::Value) -> (json: Json)
    ensures
        json@ == value_tree(value),
    decreases value_tree(value),
{
    let ghost tree = value_tree(value);
    match open_value(value) {
        Layer::Null => Json::Null,
        Layer::Bool(b) => Json::Bool(b),
        Layer::Unsigned(u) => Json::Unsigned(u),
        Layer::Signed(i) => Json::Signed(i),
        Layer::Fraction(number) => Json::Fraction(Fraction { value: number }),
        Layer::Text(text) => Json::Text(text),
        Layer::Array(items) => {
            let mut out: Vec<Json> = Vec::new();
            let ghost all = items@;
            for item in it: items
                invariant
                    it.seq() == all,
                    tree == JsonTree::Array(values_view(all)),
                    tree == value_tree(value),
                    crate::json::array_view(out@) == values_view(all.take(it.index() as int)),
            {
                let ghost before = out@;
                proof {
                    let trees = tree->Array_0;
                    assert(trees[it.index() as int] == value_tree(item));
                    assert(decreases_to!(tree => trees[it.index() as int]));
                }
                out.push(to_json(item));
                proof {
                    assert(out@.drop_last() == before);
                    assert(all.take(it.index() + 1).drop_last() == all.take(it.index() as int));
                    assert(values_view(all.take(it.index() + 1)) == values_view(
                        all.take(it.index() as int),
                    ).push(value_tree(item)));
                }
            }
            assert(all.take(all.len() as int) == all);
            Json::Array(out)
        },
        Layer::Object(entries) => {
            let mut out: Vec<(String, Json)> = Vec::new();
            let ghost all = entries@;
            for entry in it: entries
                invariant
                    it.seq() == all,
                    distinct_keys(all),
                    tree == JsonTree::Object(entries_view(all)),
                    tree == value_tree(value),
                    crate::json::object_view(out@) == entries_view(all.take(it.index() as int)),
            {
                let ghost before = out@;
                proof {
                    lemma_entries_view(all, it.index() as int);
                    let trees = tree->Object_0;
                    assert(decreases_to!(trees => trees[entry.0@]));
                    assert(decreases_to!(tree => trees[entry.0@]));
                }
                let (key, inner) = entry;
                out.push((key, to_json(inner)));
                proof {
                    assert(out@.drop_last() == before);
                    assert(all.take(it.index() + 1).drop_last() == all.take(it.index() as int));
                }
            }
            assert(all.take(all.len() as int) == all);
            Json::Object(out)
        },
    }
}

/// Puts a value together from a document.
fn to_value(json: Json) -> (value: serde_json::Value)
    ensures
        value_tree(value) == json@,
    decreases json,
{
    match json {
        Json::Null => close_value(Layer::Null),
        Json::Bool(b) => close_value(Layer::Bool(b)),
        Json::Unsigned(u) => close_value(Layer::Unsigned(u)),
        Json::Signed(i) => close_value(Layer::Signed(i)),
        Json::Fraction(fraction) => fraction.value,
        Json::Text(text) => close_value(Layer::Text(text)),
        Json::Array(items) => {
            let mut out: Vec<serde_json::Value> = Vec::new();
            let ghost all = items@;
            for item in it: items
                invariant
                    it.seq() == all,
                    json matches Json::Array(v) && v@ == all,
                    values_view(out@) == crate::json::array_view(all.take(it.index() as int)),
            {
                let ghost before = out@;
                out.push(to_value(item));
                proof {
                    assert(values_view(out@) == values_view(before).push(item@));
                    assert(all.take(it.index() + 1).drop_last() == all.take(it.index() as int));
                }
            }
            assert(all.take(all.len() as int) == all);
            close_value(Layer::Array(out))
        },
        Json::Object(entries) => {
            let mut out: Vec<(String, serde_json::Value)> = Vec::new();
            let ghost all = entries@;
            for entry in it: entries
                invariant
                    it.seq() == all,
                    json matches Json::Object(v) && v@ == all,
                    distinct_keys(out@),
                    entries_view(out@) == crate::json::object_view(all.take(it.index() as int)),
            {
                let (key, inner) = entry;
                let value = to_value(inner);
                put(&mut out, key, value);
                proof {
                    assert(all.take(it.index() + 1).drop_last() == all.take(it.index() as int));
                }
            }
            assert(all.take(all.len() as int) == all);
            close_value(Layer::Object(out))
        },
    }
}

/// Reads one JSON document; the error is `serde_json`'s wording.
pub fn parse(text: &str) -> (result: Result<Json, String>)
    ensures
        match result {
            Ok(json) => parsed_json(text@) == Ok::<JsonTree, Seq<char>>(json@),
            Err(wording) => parsed_json(text@) == Err::<JsonTree, Seq<char>>(wording@),
        },
        text@.len() == 0 ==> result is Err,
{
    match read_value(text) {
        Ok(value) => Ok(to_json(value)),
        Err(wording) => Err(wording),
    }
}

/// Writes a document on one line, without the line's end. What is written reads back as the same
/// document, where it holds no fraction and does not go deeper than what is read.
pub fn render(json: Json) -> (text: String)
    ensures
        text@ == json_text(json@),
        !text@.contains('\n'),
        !text@.contains('\r'),
        is_plain(json@, MAX_DEPTH as nat) ==> reads_as(text@, json@),
{
    let value = to_value(json);
    write_value(&value)
}

/// Writes a document as a line of its own.
pub fn frame(json: Json) -> (line: String)
    ensures
        line@ == json_text(json@).push('\n'),
        !json_text(json@).contains('\n'),
        !json_text(json@).contains('\r'),
        is_plain(json@, MAX_DEPTH as nat) ==> reads_as(json_text(json@), json@),
{
    let mut line = render(json);
    line.push('\n');
    line
}

} // verus!
