use vstd::prelude::*;
use crate::text::same_text;

verus! {

/// A JSON value that the protocol carries without interpreting it.
///
/// Numbers, arrays and objects are kept as the JSON text that denotes them,
/// so that they travel through the library unchanged.
#[derive(Clone, Debug, PartialEq, Eq)]
pub enum JsonValue {
    Null,
    Bool(bool),
    Number(String),
    Text(String),
    Nested(String),
}

/// The mathematical value of a `JsonValue`.
pub ghost enum JsonModel {
    Null,
    Bool(bool),
    Number(Seq<char>),
    Text(Seq<char>),
    Nested(Seq<char>),
}

impl View for JsonValue {
    type V = JsonModel;

    open spec fn view(&self) -> JsonModel {
        match *self {
            JsonValue::Null => JsonModel::Null,
            JsonValue::Bool(b) => JsonModel::Bool(b),
            JsonValue::Number(s) => JsonModel::Number(s@),
            JsonValue::Text(s) => JsonModel::Text(s@),
            JsonValue::Nested(s) => JsonModel::Nested(s@),
        }
    }
}

impl JsonValue {
    /// Tells whether the value is the boolean `true`.
    pub fn is_true(&self) -> (res: bool)
        ensures
            res == (self@ == JsonModel::Bool(true)),
    {
        match self {
            JsonValue::Bool(b) => *b,
            _ => false,
        }
    }
}

/// One named value of a mapping.
#[derive(Clone, Debug, PartialEq, Eq)]
pub struct Field {
    pub name: String,
    pub value: JsonValue,
}

impl View for Field {
    type V = (Seq<char>, JsonModel);

    open spec fn view(&self) -> (Seq<char>, JsonModel) {
        (self.name@, self.value@)
    }
}

/// The value that a sequence of named values gives to `name`: that of the
/// last entry with this name, if there is one.
pub open spec fn lookup(entries: Seq<(Seq<char>, JsonModel)>, name: Seq<char>) -> Option<JsonModel>
    decreases entries.len(),
{
    if entries.len() == 0 {
        None
    } else if entries.last().0 == name {
        Some(entries.last().1)
    } else {
        lookup(entries.drop_last(), name)
    }
}

/// After an entry is added, its name has its value, and every other name
/// has the value that it had.
pub proof fn lemma_lookup_push(
    entries: Seq<(Seq<char>, JsonModel)>,
    entry: (Seq<char>, JsonModel),
    name: Seq<char>,
)
    ensures
        lookup(entries.push(entry), name) == if name == entry.0 {
            Some(entry.1)
        } else {
            lookup(entries, name)
        },
{
    let extended = entries.push(entry);
    assert(extended.last() == entry);
    assert(extended.drop_last() =~= entries);
}

/// An ordered mapping from names to JSON values. Where a name occurs more
/// than once, its last entry counts.
#[derive(Clone, Debug, PartialEq, Eq)]
pub struct Fields {
    pub entries: Vec<Field>,
}

impl View for Fields {
    type V = Seq<(Seq<char>, JsonModel)>;

    open spec fn view(&self) -> Seq<(Seq<char>, JsonModel)> {
        Seq::new(self.entries@.len(), |i: int| self.entries@[i]@)
    }
}

impl Fields {
    /// A mapping without entries.
    pub fn new() -> (res: Fields)
        ensures
            res@ == Seq::<(Seq<char>, JsonModel)>::empty(),
    {
        let res = Fields { entries: Vec::new() };
        assert(res@ =~= Seq::<(Seq<char>, JsonModel)>::empty());
        res
    }

    /// The number of entries.
    pub fn len(&self) -> (res: usize)
        ensures
            res == self@.len(),
    {
        self.entries.len()
    }

    /// Gives `name` the value `value`, whatever it had before.
    pub fn insert(&mut self, name: String, value: JsonValue)
        ensures
            final(self)@ == old(self)@.push((name@, value@)),
            lookup(final(self)@, name@) == Some(value@),
            forall|other: Seq<char>|
                other != name@ ==> #[trigger] lookup(final(self)@, other)
                    == lookup(old(self)@, other),
    {
        self.entries.push(Field { name, value });
        assert(self@ =~= old(self)@.push((name@, value@)));
        proof {
            lemma_lookup_push(old(self)@, (name@, value@), name@);
            assert forall|other: Seq<char>| other != name@ implies
                #[trigger] lookup(self@, other) == lookup(old(self)@, other) by {
                lemma_lookup_push(old(self)@, (name@, value@), other);
            }
        }
    }

    /// The value of `name`, if the mapping has one.
    pub fn get(&self, name: &str) -> (res: Option<&JsonValue>)
        ensures
            match res {
                Some(v) => lookup(self@, name@) == Some(v@),
                None => lookup(self@, name@) is None,
            },
    {
        let mut i: usize = self.entries.len();
        assert(self@.take(i as int) =~= self@);
        while i > 0
            invariant
                i <= self.entries@.len(),
                lookup(self@, name@) == lookup(self@.take(i as int), name@),
            decreases i,
        {
            i = i - 1;
            let entry = &self.entries[i];
            proof {
                let prefix = self@.take(i + 1);
                assert(prefix.last() == entry@);
                assert(prefix.drop_last() =~= self@.take(i as int));
            }
            if same_text(entry.name.as_str(), name) {
                return Some(&entry.value);
            }
        }
        None
    }
}

} // verus!
