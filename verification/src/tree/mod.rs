//! Trees, addresses within them, and changes to them.

pub mod values;
pub mod forest;
pub mod basictree;
pub mod treenode;
pub mod treenode_index;
pub mod path;
pub mod address;
pub mod extent;
pub mod edit;
pub mod change;
pub mod iterator;
pub mod encoder;
pub mod decoder;
pub mod tree_ref;
