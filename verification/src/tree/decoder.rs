//! Reading the parts of a structured value back out of a tree node.

use vstd::prelude::*;
use super::basictree::{share, TreeRef};
use super::forest::Forest;
use super::values::{TreeValue, ValueModel};

verus! {

/// Why a tree node could not be read as the value asked for.
#[derive(Debug)]
pub enum TreeNodeDecodingError {
    UnsupportedType,
    NodeHasInvalidType,
    ValueOutOfRange,
    MissingField,
    GenericError(String),
}

/// Reads values from a node, and from the fields below it.
pub struct TreeNodeDecoder {
    current_node: TreeRef,
}

impl View for TreeNodeDecoder {
    type V = Forest;

    /// The node being read.
    closed spec fn view(&self) -> Forest {
        self.current_node@
    }
}

impl TreeNodeDecoder {
    /// A decoder that reads `tree`.
    pub fn new(tree: &TreeRef) -> (r: TreeNodeDecoder)
        ensures
            r@ == tree@,
    {
        TreeNodeDecoder { current_node: share(tree) }
    }

    fn read_current(&self) -> (r: &TreeValue)
        ensures
            r@ == self@.head_value(),
    {
        self.current_node.get_value()
    }

    /// Succeeds exactly when the node holds nothing.
    pub fn read_nil(&self) -> (r: Result<(), TreeNodeDecodingError>)
        ensures
            r is Ok == (self@.head_value() is Nothing),
            r matches Err(e) ==> e is NodeHasInvalidType,
    {
        match self.read_current() {
            TreeValue::Nothing => Ok(()),
            _ => Err(TreeNodeDecodingError::NodeHasInvalidType),
        }
    }

    /// The integer the node holds.
    pub fn read_i32(&self) -> (r: Result<i32, TreeNodeDecodingError>)
        ensures
            match self@.head_value() {
                ValueModel::Int(x) => r == Ok::<i32, TreeNodeDecodingError>(x),
                _ => r matches Err(e) && e is NodeHasInvalidType,
            },
    {
        match self.read_current() {
            TreeValue::Int(x) => Ok(*x),
            _ => Err(TreeNodeDecodingError::NodeHasInvalidType),
        }
    }

    /// The integer the node holds, if it fits in 16 bits.
    pub fn read_i16(&self) -> (r: Result<i16, TreeNodeDecodingError>)
        ensures
            match self@.head_value() {
                ValueModel::Int(x) => if i16::MIN <= x <= i16::MAX {
                    r matches Ok(v) && v == x
                } else {
                    r matches Err(e) && e is ValueOutOfRange
                },
                _ => r matches Err(e) && e is NodeHasInvalidType,
            },
    {
        match self.read_current() {
            TreeValue::Int(x) => if *x >= -32768 && *x <= 32767 {
                Ok(*x as i16)
            } else {
                Err(TreeNodeDecodingError::ValueOutOfRange)
            },
            _ => Err(TreeNodeDecodingError::NodeHasInvalidType),
        }
    }

    /// The integer the node holds, if it fits in 8 bits.
    pub fn read_i8(&self) -> (r: Result<i8, TreeNodeDecodingError>)
        ensures
            match self@.head_value() {
                ValueModel::Int(x) => if i8::MIN <= x <= i8::MAX {
                    r matches Ok(v) && v == x
                } else {
                    r matches Err(e) && e is ValueOutOfRange
                },
                _ => r matches Err(e) && e is NodeHasInvalidType,
            },
    {
        match self.read_current() {
            TreeValue::Int(x) => if *x >= -128 && *x <= 127 {
                Ok(*x as i8)
            } else {
                Err(TreeNodeDecodingError::ValueOutOfRange)
            },
            _ => Err(TreeNodeDecodingError::NodeHasInvalidType),
        }
    }

    /// The text the node holds.
    pub fn read_str(&self) -> (r: Result<String, TreeNodeDecodingError>)
        ensures
            match self@.head_value() {
                ValueModel::Text(s) => r matches Ok(v) && v@ == s,
                _ => r matches Err(e) && e is NodeHasInvalidType,
            },
    {
        match self.read_current() {
            TreeValue::String(x) => Ok(x.clone()),
            _ => Err(TreeNodeDecodingError::NodeHasInvalidType),
        }
    }

    /// The boolean the node holds.
    pub fn read_bool(&self) -> (r: Result<bool, TreeNodeDecodingError>)
        ensures
            match self@.head_value() {
                ValueModel::Bool(b) => r == Ok::<bool, TreeNodeDecodingError>(b),
                _ => r matches Err(e) && e is NodeHasInvalidType,
            },
    {
        match self.read_current() {
            TreeValue::Bool(x) => Ok(*x),
            _ => Err(TreeNodeDecodingError::NodeHasInvalidType),
        }
    }

    /// The bit pattern of the real number the node holds.
    pub fn read_real_bits(&self) -> (r: Result<u64, TreeNodeDecodingError>)
        ensures
            match self@.head_value() {
                ValueModel::Real(bits) => r == Ok::<u64, TreeNodeDecodingError>(bits),
                _ => r matches Err(e) && e is NodeHasInvalidType,
            },
    {
        match self.read_current() {
            TreeValue::Real(x) => Ok(*x),
            _ => Err(TreeNodeDecodingError::NodeHasInvalidType),
        }
    }

    /// Moves to the first child tagged `f_name` and returns the node left
    /// behind; fails, and stays, where there is no such child.
    pub fn enter_field(&mut self, f_name: &str) -> (r: Result<TreeRef, TreeNodeDecodingError>)
        ensures
            match r {
                Ok(previous) => {
                    &&& previous@ == old(self)@
                    &&& old(self)@.kids().from_tag(f_name@) is Cons
                    &&& final(self)@ == old(self)@.kids().from_tag(f_name@)
                },
                Err(e) => {
                    &&& e is MissingField
                    &&& old(self)@.kids().from_tag(f_name@) is Nil
                    &&& final(self)@ == old(self)@
                },
            },
    {
        match self.current_node.lookup_child_with_tag(f_name) {
            None => Err(TreeNodeDecodingError::MissingField),
            Some(x) => {
                let previous_node = share(&self.current_node);
                self.current_node = x;
                Ok(previous_node)
            },
        }
    }

    /// Moves back to the node that `enter_field` returned.
    pub fn leave_field(&mut self, previous_node: TreeRef)
        ensures
            final(self)@ == previous_node@,
    {
        self.current_node = previous_node;
    }

    /// The error that carries a message.
    pub fn error(err: &str) -> (r: TreeNodeDecodingError)
        ensures
            r matches TreeNodeDecodingError::GenericError(s) && s@ == err@,
    {
        TreeNodeDecodingError::GenericError(err.to_owned())
    }
}

} // verus!
