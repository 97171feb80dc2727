use tametree::tree::address::{ToTreeAddress, TreeAddress};
use tametree::tree::extent::TreeExtent;

#[test]
fn thisnode_covers_only_here() {
    assert!(TreeExtent::ThisNode.covers(&TreeAddress::Here));
    assert!(!TreeExtent::ThisNode.covers(&(1.to_tree_address())));
}

#[test]
fn children_covers_only_immediate_children() {
    assert!(TreeExtent::Children.covers(&(1.to_tree_address())));
    assert!(TreeExtent::Children.covers(&("tag".to_tree_address())));

    assert!(!TreeExtent::Children.covers(&((1, 2).to_tree_address())));
    assert!(!TreeExtent::Children.covers(&(("tag", "othertag").to_tree_address())));
    assert!(!TreeExtent::Children.covers(&TreeAddress::Here));
}

#[test]
fn subtree_covers_everything() {
    assert!(TreeExtent::SubTree.covers(&(1.to_tree_address())));
    assert!(TreeExtent::SubTree.covers(&("tag".to_tree_address())));

    assert!(TreeExtent::SubTree.covers(&((1, 2).to_tree_address())));
    assert!(TreeExtent::SubTree.covers(&(("tag", "othertag").to_tree_address())));
    assert!(TreeExtent::SubTree.covers(&TreeAddress::Here));
}
