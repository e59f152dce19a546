//! The document model: the parsed API description that generation reads.
//!
//! Every name-keyed collection is a [`NamedMap`], which keeps its keys unique
//! and its entries in insertion order, since generated text follows that order.
use vstd::prelude::*;
use crate::text::str_eq;

verus! {

/// Position of the first entry keyed `k`, or -1.
pub open spec fn index_of<T>(s: Seq<(Seq<char>, T)>, k: Seq<char>) -> int
    decreases s.len(),
{
    if s.len() == 0 {
        -1
    } else {
        let i = index_of(s.drop_last(), k);
        if i >= 0 {
            i
        } else if s.last().0 == k {
            s.len() - 1
        } else {
            -1
        }
    }
}

/// The value of the first entry keyed `k`.
pub open spec fn lookup<T>(s: Seq<(Seq<char>, T)>, k: Seq<char>) -> Option<T> {
    let i = index_of(s, k);
    if 0 <= i < s.len() {
        Some(s[i].1)
    } else {
        None
    }
}

pub proof fn lemma_index_of<T>(s: Seq<(Seq<char>, T)>, k: Seq<char>)
    ensures
        -1 <= index_of(s, k) < s.len(),
        index_of(s, k) >= 0 ==> s[index_of(s, k)].0 == k,
        index_of(s, k) >= 0 ==> forall|j: int| 0 <= j < index_of(s, k) ==> s[j].0 != k,
        index_of(s, k) == -1 <==> forall|j: int| 0 <= j < s.len() ==> s[j].0 != k,
    decreases s.len(),
{
    if s.len() > 0 {
        lemma_index_of(s.drop_last(), k);
        let p = s.drop_last();
        assert forall|j: int| 0 <= j < p.len() implies p[j] == s[j] by {}
        if index_of(s, k) == -1 {
            assert forall|j: int| 0 <= j < s.len() implies s[j].0 != k by {
                if j < p.len() {
                    assert(p[j] == s[j]);
                }
            }
        }
    }
}

/// An insertion-ordered map from names to values with unique names.
pub struct NamedMap<T> {
    entries: Vec<(String, T)>,
}

impl<T> View for NamedMap<T> {
    type V = Seq<(Seq<char>, T)>;

    closed spec fn view(&self) -> Seq<(Seq<char>, T)> {
        self.entries@.map_values(|e: (String, T)| (e.0@, e.1))
    }
}

/// No two entries share a key.
pub open spec fn keys_unique<T>(s: Seq<(Seq<char>, T)>) -> bool {
    forall|i: int, j: int| 0 <= i < j < s.len() ==> s[i].0 != s[j].0
}

impl<T> NamedMap<T> {
    #[verifier::type_invariant]
    closed spec fn inv(&self) -> bool {
        keys_unique(self@)
    }

    /// The empty map.
    pub fn new() -> (r: Self)
        ensures
            r@ == Seq::<(Seq<char>, T)>::empty(),
    {
        let r = NamedMap { entries: Vec::new() };
        assert(r@ =~= Seq::<(Seq<char>, T)>::empty());
        r
    }

    /// Number of entries.
    pub fn len(&self) -> (r: usize)
        ensures
            r == self@.len(),
    {
        self.entries.len()
    }

    /// The key and value at position `i`, in insertion order.
    pub fn entry(&self, i: usize) -> (r: (&str, &T))
        requires
            i < self@.len(),
        ensures
            r.0@ == self@[i as int].0,
            *r.1 == self@[i as int].1,
    {
        let e = &self.entries[i];
        (e.0.as_str(), &e.1)
    }

    /// Position of `key`, if present.
    pub fn position(&self, key: &str) -> (r: Option<usize>)
        ensures
            r matches Some(i) ==> i as int == index_of(self@, key@),
            r is None <==> index_of(self@, key@) < 0,
    {
        let mut i: usize = 0;
        while i < self.entries.len()
            invariant
                i <= self@.len(),
                self@.len() == self.entries@.len(),
                forall|j: int| 0 <= j < i ==> self@[j].0 != key@,
            decreases self.entries.len() - i,
        {
            if str_eq(self.entries[i].0.as_str(), key) {
                proof {
                    lemma_index_of(self@, key@);
                    assert(self@[i as int].0 == self.entries@[i as int].0@);
                    let x = index_of(self@, key@);
                    assert(x >= 0);
                    if x < i {
                        assert(self@[x].0 != key@);
                    }
                    if x > i {
                        assert(self@[i as int].0 != key@);
                    }
                }
                return Some(i);
            }
            i = i + 1;
        }
        proof {
            lemma_index_of(self@, key@);
        }
        None
    }

    /// The value under `key`, if present.
    pub fn get(&self, key: &str) -> (r: Option<&T>)
        ensures
            r matches Some(v) ==> lookup(self@, key@) == Some(*v),
            r is None ==> lookup(self@, key@) is None,
    {
        proof {
            lemma_index_of(self@, key@);
        }
        match self.position(key) {
            Some(i) => {
                assert(self@[i as int].1 == self.entries@[i as int].1);
                assert(lookup(self@, key@) == Some(self@[i as int].1));
                Some(&self.entries[i].1)
            },
            None => None,
        }
    }

    /// Sets `key` to `value`: in place when the key is present, else appended.
    pub fn insert(&mut self, key: String, value: T)
        ensures
            index_of(old(self)@, key@) >= 0 ==> final(self)@ == old(self)@.update(
                index_of(old(self)@, key@),
                (key@, value),
            ),
            index_of(old(self)@, key@) < 0 ==> final(self)@ == old(self)@.push((key@, value)),
    {
        proof {
            use_type_invariant(&*self);
            lemma_index_of(self@, key@);
        }
        let ghost prev = self@;
        let ghost kv = key@;
        let found = self.position(key.as_str());
        let mut entries: Vec<(String, T)> = Vec::new();
        std::mem::swap(&mut self.entries, &mut entries);
        match found {
            Some(i) => {
                entries.set(i, (key, value));
            },
            None => {
                entries.push((key, value));
            },
        }
        let ghost next_view = entries@.map_values(|e: (String, T)| (e.0@, e.1));
        proof {
            match found {
                Some(i) => {
                    assert(index_of(prev, kv) >= 0);
                    assert(index_of(prev, kv) == i as int);
                    assert(next_view =~= prev.update(i as int, (kv, value)));
                    assert forall|a: int, b: int| 0 <= a < b < next_view.len() implies next_view[a].0
                        != next_view[b].0 by {
                        assert(prev[i as int].0 == kv);
                    }
                },
                None => {
                    assert(next_view =~= prev.push((kv, value)));
                    assert forall|a: int, b: int| 0 <= a < b < next_view.len() implies next_view[a].0
                        != next_view[b].0 by {
                        if b == prev.len() {
                            assert(prev[a].0 != kv);
                        }
                    }
                },
            }
        }
        let mut next = NamedMap { entries };
        std::mem::swap(self, &mut next);
    }
}

/// The primitive kind of a JSON value.
#[derive(Clone, Copy, Debug, PartialEq, Eq, Structural)]
pub enum InstanceType {
    Null,
    Boolean,
    Object,
    Array,
    Number,
    String,
    Integer,
}

/// A schema's instance type: one kind, or a list of allowed kinds.
pub enum TypeHint {
    Single(InstanceType),
    Multiple(Vec<InstanceType>),
}

/// A schema position that holds either a boolean schema or a schema object.
pub enum SchemaNode {
    Bool(bool),
    Object(Schema),
}

/// The element schema of an array: one for all items, or one per position.
pub enum Items {
    Single(Box<SchemaNode>),
    Multiple(Vec<SchemaNode>),
}

/// Validation of an array schema.
pub struct ArrayShape {
    pub items: Option<Items>,
}

/// Validation of an object schema: its properties in declaration order and
/// the names of those that must be present.
pub struct ObjectShape {
    pub properties: NamedMap<SchemaNode>,
    pub required: Vec<String>,
}

/// A node describing a type.
pub struct Schema {
    pub format: Option<String>,
    pub instance_type: Option<TypeHint>,
    pub reference: Option<String>,
    pub array: Option<ArrayShape>,
    pub object: Option<ObjectShape>,
}

/// A value given inline, or a pointer of the form `#/components/<category>/<name>`.
pub enum RefOr<T> {
    Ref(String),
    Object(T),
}

/// How a parameter's value is described.
pub enum ParameterValue {
    Schema(Schema),
    Content,
}

/// A named input of an operation.
pub struct Parameter {
    pub name: String,
    pub location: String,
    pub required: bool,
    pub value: ParameterValue,
}

/// The payload description for one MIME type.
pub struct MediaType {
    pub schema: Option<Schema>,
}

/// A request payload, by MIME type.
pub struct RequestBody {
    pub content: NamedMap<MediaType>,
}

/// A response payload, by MIME type.
pub struct Response {
    pub content: NamedMap<MediaType>,
}

/// One HTTP method handler of a path.
pub struct Operation {
    pub description: Option<String>,
    pub operation_id: Option<String>,
    pub parameters: Vec<RefOr<Parameter>>,
    pub request_body: Option<RefOr<RequestBody>>,
    pub responses: NamedMap<RefOr<Response>>,
}

/// The operations of one URL template, and the parameters they share.
pub struct PathItem {
    pub get: Option<Operation>,
    pub put: Option<Operation>,
    pub post: Option<Operation>,
    pub delete: Option<Operation>,
    pub patch: Option<Operation>,
    pub parameters: Vec<RefOr<Parameter>>,
}

/// The registry of reusable definitions, one map per category.
pub struct Components {
    pub schemas: NamedMap<Schema>,
    pub parameters: NamedMap<RefOr<Parameter>>,
    pub responses: NamedMap<RefOr<Response>>,
    pub request_bodies: NamedMap<RefOr<RequestBody>>,
}

/// A substitutable part of a server URL.
pub struct ServerVariable {
    pub default: String,
}

/// A server that the described API is reachable at.
pub struct Server {
    pub url: String,
    pub description: Option<String>,
    pub variables: NamedMap<ServerVariable>,
}

/// A whole API description.
pub struct Document {
    pub servers: Vec<Server>,
    pub paths: NamedMap<PathItem>,
    pub components: Option<Components>,
}

} // verus!
