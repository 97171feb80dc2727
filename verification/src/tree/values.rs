//! Scalar payloads carried by tree nodes.

use vstd::prelude::*;

verus! {

/// Mathematical content of a `TreeValue`.
pub ghost enum ValueModel {
    Nothing,
    Bool(bool),
    Int(i32),
    Real(u64),
    Text(Seq<char>),
    Data(Seq<u8>),
}

/// The possible values attached to a tree node.
///
/// A real number is held as its IEEE-754 binary64 bit pattern.
#[derive(Debug)]
pub enum TreeValue {
    Nothing,
    Bool(bool),
    Int(i32),
    Real(u64),
    String(String),
    Data(Vec<u8>),
}

impl View for TreeValue {
    type V = ValueModel;

    open spec fn view(&self) -> ValueModel {
        match *self {
            TreeValue::Nothing => ValueModel::Nothing,
            TreeValue::Bool(b) => ValueModel::Bool(b),
            TreeValue::Int(v) => ValueModel::Int(v),
            TreeValue::Real(bits) => ValueModel::Real(bits),
            TreeValue::String(s) => ValueModel::Text(s@),
            TreeValue::Data(d) => ValueModel::Data(d@),
        }
    }
}

/// Copies a byte vector element by element.
fn copy_bytes(d: &Vec<u8>) -> (r: Vec<u8>)
    ensures
        r@ == d@,
{
    let mut r: Vec<u8> = Vec::new();
    let mut i: usize = 0;
    while i < d.len()
        invariant
            i <= d.len(),
            r@ == d@.subrange(0, i as int),
        decreases d.len() - i,
    {
        r.push(d[i]);
        i += 1;
        assert(r@ =~= d@.subrange(0, i as int));
    }
    assert(d@.subrange(0, d.len() as int) =~= d@);
    r
}

impl Clone for TreeValue {
    fn clone(&self) -> (r: TreeValue)
        ensures
            r@ == self@,
    {
        match self {
            TreeValue::Nothing => TreeValue::Nothing,
            TreeValue::Bool(b) => TreeValue::Bool(*b),
            TreeValue::Int(v) => TreeValue::Int(*v),
            TreeValue::Real(bits) => TreeValue::Real(*bits),
            TreeValue::String(s) => TreeValue::String(s.clone()),
            TreeValue::Data(d) => TreeValue::Data(copy_bytes(d)),
        }
    }
}

impl TreeValue {
    /// True exactly for `Nothing`.
    pub fn is_nothing(&self) -> (r: bool)
        ensures
            r == (self@ is Nothing),
    {
        match self {
            TreeValue::Nothing => true,
            _ => false,
        }
    }

    /// The boolean held, or `default` for any other kind of value.
    pub fn to_bool(&self, default: bool) -> (r: bool)
        ensures
            r == (match self@ {
                ValueModel::Bool(b) => b,
                _ => default,
            }),
    {
        match self {
            TreeValue::Bool(val) => *val,
            _ => default,
        }
    }

    /// The integer held, or `default` for any other kind of value.
    pub fn to_int(&self, default: i32) -> (r: i32)
        ensures
            r == (match self@ {
                ValueModel::Int(v) => v,
                _ => default,
            }),
    {
        match self {
            TreeValue::Int(val) => *val,
            _ => default,
        }
    }

    /// The bit pattern of the real held, or `default` for any other kind of value.
    pub fn to_real_bits(&self, default: u64) -> (r: u64)
        ensures
            r == (match self@ {
                ValueModel::Real(bits) => bits,
                _ => default,
            }),
    {
        match self {
            TreeValue::Real(val) => *val,
            _ => default,
        }
    }

    /// The text held, or `default` for any other kind of value.
    pub fn to_str<'a>(&'a self, default: &'a str) -> (r: &'a str)
        ensures
            r@ == (match self@ {
                ValueModel::Text(s) => s,
                _ => default@,
            }),
    {
        match self {
            TreeValue::String(val) => val.as_str(),
            _ => default,
        }
    }
}

/// Types that can be treated as tree values.
pub trait ToTreeValue {
    /// The value this object stands for.
    spec fn value_model(&self) -> ValueModel;

    fn to_tree_value(&self) -> (r: TreeValue)
        ensures
            r@ == self.value_model(),
    ;
}

impl ToTreeValue for TreeValue {
    open spec fn value_model(&self) -> ValueModel {
        self@
    }

    fn to_tree_value(&self) -> (r: TreeValue) {
        self.clone()
    }
}

impl<'a> ToTreeValue for &'a TreeValue {
    open spec fn value_model(&self) -> ValueModel {
        (**self)@
    }

    fn to_tree_value(&self) -> (r: TreeValue) {
        (*self).clone()
    }
}

impl ToTreeValue for () {
    open spec fn value_model(&self) -> ValueModel {
        ValueModel::Nothing
    }

    fn to_tree_value(&self) -> (r: TreeValue) {
        TreeValue::Nothing
    }
}

impl ToTreeValue for bool {
    open spec fn value_model(&self) -> ValueModel {
        ValueModel::Bool(*self)
    }

    fn to_tree_value(&self) -> (r: TreeValue) {
        TreeValue::Bool(*self)
    }
}

impl ToTreeValue for i32 {
    open spec fn value_model(&self) -> ValueModel {
        ValueModel::Int(*self)
    }

    fn to_tree_value(&self) -> (r: TreeValue) {
        TreeValue::Int(*self)
    }
}

impl<'a> ToTreeValue for &'a str {
    open spec fn value_model(&self) -> ValueModel {
        ValueModel::Text((*self)@)
    }

    fn to_tree_value(&self) -> (r: TreeValue) {
        TreeValue::String((*self).to_owned())
    }
}

impl ToTreeValue for String {
    open spec fn value_model(&self) -> ValueModel {
        ValueModel::Text(self@)
    }

    fn to_tree_value(&self) -> (r: TreeValue) {
        TreeValue::String(self.clone())
    }
}

impl ToTreeValue for Vec<u8> {
    open spec fn value_model(&self) -> ValueModel {
        ValueModel::Data(self@)
    }

    fn to_tree_value(&self) -> (r: TreeValue) {
        TreeValue::Data(copy_bytes(self))
    }
}

} // verus!
