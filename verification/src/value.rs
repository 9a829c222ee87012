//! The value tree that every message is made of.

use vstd::prelude::*;

verus! {

/// The mathematical value of an [`Object`]: the same tree, with sequences in
/// place of vectors and strings.
pub enum Model {
    Nil,
    Boolean(bool),
    Unsigned(u64),
    Negative(i64),
    Float(rmpv::Value),
    Text(Seq<char>),
    RawText(Seq<u8>),
    Binary(Seq<u8>),
    Array(Seq<Model>),
    Dictionary(Seq<(Model, Model)>),
    Ext(i8, Seq<u8>),
}

/// One MessagePack value.
#[derive(Debug, PartialEq)]
pub enum Object {
    Nil,
    Boolean(bool),
    /// An integer that is zero or more.
    Unsigned(u64),
    /// An integer below zero.
    Negative(i64),
    /// A floating-point number, kept as the codec made it and never looked
    /// into.
    Float(rmpv::Value),
    /// A string that is valid UTF-8.
    Text(String),
    /// A string whose bytes are not valid UTF-8.
    RawText(Vec<u8>),
    Binary(Vec<u8>),
    Array(Vec<Object>),
    /// Key and value pairs, in the order in which they were written.
    Dictionary(Vec<(Object, Object)>),
    Ext(i8, Vec<u8>),
}

/// The value of `object`. The items of an array and the entries of a
/// dictionary are taken one by one; the test on the index is there for
/// termination, an item being smaller than the array only where the index
/// lies within it.
pub open spec fn model_of(object: Object) -> Model
    decreases object,
{
    match object {
        Object::Nil => Model::Nil,
        Object::Boolean(b) => Model::Boolean(b),
        Object::Unsigned(n) => Model::Unsigned(n),
        Object::Negative(n) => Model::Negative(n),
        Object::Float(x) => Model::Float(x),
        Object::Text(s) => Model::Text(s@),
        Object::RawText(b) => Model::RawText(b@),
        Object::Binary(b) => Model::Binary(b@),
        Object::Array(items) => Model::Array(
            Seq::new(
                items@.len(),
                |i: int|
                    if 0 <= i < items@.len() {
                        model_of(items@[i])
                    } else {
                        Model::Nil
                    },
            ),
        ),
        Object::Dictionary(entries) => Model::Dictionary(
            Seq::new(
                entries@.len(),
                |i: int|
                    if 0 <= i < entries@.len() {
                        (model_of(entries@[i].0), model_of(entries@[i].1))
                    } else {
                        (Model::Nil, Model::Nil)
                    },
            ),
        ),
        Object::Ext(t, d) => Model::Ext(t, d@),
    }
}

impl View for Object {
    type V = Model;

    open spec fn view(&self) -> Model {
        model_of(*self)
    }
}

/// The values of a sequence of objects, one by one.
pub open spec fn models(objects: Seq<Object>) -> Seq<Model> {
    Seq::new(objects.len(), |i: int| objects[i]@)
}

/// The values of a sequence of key and value pairs, one by one.
pub open spec fn pair_models(pairs: Seq<(Object, Object)>) -> Seq<(Model, Model)> {
    Seq::new(pairs.len(), |i: int| (pairs[i].0@, pairs[i].1@))
}

/// The value of an array is made of the values of its items.
pub proof fn lemma_array_model(items: Vec<Object>)
    ensures
        Object::Array(items)@ == Model::Array(models(items@)),
{
    assert(Object::Array(items)@->Array_0 =~= models(items@));
}

/// The value of a dictionary is made of the values of its keys and values.
pub proof fn lemma_dictionary_model(entries: Vec<(Object, Object)>)
    ensures
        Object::Dictionary(entries)@ == Model::Dictionary(pair_models(entries@)),
{
    assert(Object::Dictionary(entries)@->Dictionary_0 =~= pair_models(entries@));
}

impl Object {
    /// The string `s` as a value.
    pub fn text(s: &str) -> (r: Object)
        ensures
            r@ == Model::Text(s@),
    {
        Object::Text(s.to_owned())
    }

    /// The array of `items` as a value.
    pub fn array(items: Vec<Object>) -> (r: Object)
        ensures
            r@ == Model::Array(models(items@)),
    {
        proof {
            lemma_array_model(items);
        }
        Object::Array(items)
    }

    /// Whether this is `Nil`.
    pub fn is_nil(&self) -> (r: bool)
        ensures
            r == (self@ is Nil),
    {
        match self {
            Object::Nil => true,
            _ => false,
        }
    }
}

} // verus!
