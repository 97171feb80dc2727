use tametree::tree::address::{Addr, ToTreeAddress, TreeAddress};
use tametree::tree::basictree::TreeRef;
use tametree::tree::treenode::{tree, ToTreeNode};
use tametree::tree::treenode_index::TreeNodeLookup;

fn leaves(tags: &[&str]) -> Vec<TreeRef> {
    tags.iter().map(|t| t.to_tree_node()).collect()
}

#[test]
fn lookup_here() {
    let some_tree = tree(&"Here", &leaves(&["There", "Everywhere"]));

    assert!(some_tree.get_child_ref_at(TreeAddress::Here).unwrap().get_tag() == "Here");
}

#[test]
fn lookup_child() {
    let some_tree = tree(&"Here", &leaves(&["There", "Everywhere"]));

    assert!(some_tree.get_child_ref_at(Addr(0, ())).unwrap().get_tag() == "There");
    assert!(some_tree.get_child_ref_at(Addr(1, ())).unwrap().get_tag() == "Everywhere");
}

#[test]
fn lookup_tag() {
    let some_tree = tree(&"Here", &leaves(&["There", "Everywhere"]));

    assert!(some_tree.get_child_ref_at(Addr("There", ())).unwrap().get_tag() == "There");
    assert!(some_tree.get_child_ref_at(Addr("Everywhere", ())).unwrap().get_tag() == "Everywhere");
}

#[test]
fn lookup_grandchild() {
    let some_tree = tree(&"Here", &vec![tree(&"There", &leaves(&["Everywhere"]))]);

    assert!(some_tree.get_child_ref_at(Addr("There", (0, ()))).unwrap().get_tag() == "Everywhere");
}

#[test]
fn address_after_address() {
    let some_tree = tree(
        &"Here",
        &vec![tree(&"There", &vec![tree(&"Everywhere", &leaves(&["Also here"]))])],
    );

    // Address formed of a complicated address with an extra address appended
    let everywhere_address = Addr("There", ("Everywhere", ()));
    assert!(some_tree.get_child_ref_at(Addr(everywhere_address, (0, ()))).unwrap().get_tag() == "Also here");
}

#[test]
fn here_is_parent_of_here() {
    let here = ().to_tree_address();
    let is_parent = here.is_parent_of(&here);
    let is_child = here.is_child_of(&here);

    assert!(is_parent.unwrap());
    assert!(is_child.unwrap());
}

#[test]
fn here_is_parent_of_anything() {
    let here = ().to_tree_address();
    let there = (0, (1, 2)).to_tree_address();
    let is_parent = here.is_parent_of(&there);
    let is_child = here.is_child_of(&there);

    assert!(is_parent.unwrap());
    assert!(!is_child.unwrap());
}

#[test]
fn nothing_is_parent_of_here() {
    let here = ().to_tree_address();
    let there = (0, (1, 2)).to_tree_address();
    let is_parent = there.is_parent_of(&here);
    let is_child = there.is_child_of(&here);

    assert!(!is_parent.unwrap());
    assert!(is_child.unwrap());
}

#[test]
fn same_address_is_parent() {
    let here = (0, (1, 2)).to_tree_address();
    let there = (0, (1, 2)).to_tree_address();
    let is_parent = here.is_parent_of(&there);
    let is_child = here.is_child_of(&there);

    assert!(is_parent.unwrap());
    assert!(is_child.unwrap());
}

#[test]
fn indexed_parent() {
    let here = (0, 1).to_tree_address();
    let there = (0, (1, 2)).to_tree_address();
    let is_parent = here.is_parent_of(&there);
    let is_child = here.is_child_of(&there);

    assert!(is_parent.unwrap());
    assert!(!is_child.unwrap());
}

#[test]
fn bad_indexed_parent() {
    let here = (1, 0).to_tree_address();
    let there = (0, (1, 2)).to_tree_address();
    let is_parent = here.is_parent_of(&there);
    let is_child = here.is_child_of(&there);

    assert!(!is_parent.unwrap());
    assert!(!is_child.unwrap());
}

#[test]
fn tagged_parent() {
    let here = ("first", "second").to_tree_address();
    let there = ("first", ("second", "third")).to_tree_address();
    let is_parent = here.is_parent_of(&there);
    let is_child = here.is_child_of(&there);

    assert!(is_parent.unwrap());
    assert!(!is_child.unwrap());
}

#[test]
fn bad_tagged_parent() {
    let here = ("other tag", "second").to_tree_address();
    let there = ("first", ("second", "third")).to_tree_address();
    let is_parent = here.is_parent_of(&there);
    let is_child = here.is_child_of(&there);

    assert!(!is_parent.unwrap());
    assert!(!is_child.unwrap());
}

#[test]
fn different_address_types_cant_be_checked() {
    let indexed = 1.to_tree_address();
    let tagged = "tag".to_tree_address();

    assert!(indexed.is_parent_of(&tagged).is_none());
    assert!(tagged.is_parent_of(&indexed).is_none());
}

#[test]
fn can_get_relative_address_with_indexes() {
    let address = (1, (2, (3, 4))).to_tree_address();
    let relative_to = (1, 2).to_tree_address();
    let expected = (3, 4).to_tree_address();

    assert!(address.relative_to(&relative_to).unwrap() == expected);
}

#[test]
fn can_get_relative_address_with_tags() {
    let address = ("one", ("two", ("three", "four"))).to_tree_address();
    let relative_to = ("one", "two").to_tree_address();
    let expected = ("three", "four").to_tree_address();

    assert!(address.relative_to(&relative_to).unwrap() == expected);
}

#[test]
fn relative_to_wrong_address_is_none() {
    let address = (1, (2, (3, 4))).to_tree_address();
    let relative_to = (3, 4).to_tree_address();

    assert!(address.relative_to(&relative_to).is_none());
}

#[test]
fn relative_to_here_is_none() {
    let address = ().to_tree_address();
    let relative_to = (3, 4).to_tree_address();

    assert!(address.relative_to(&relative_to).is_none());
}

#[test]
fn get_parent_indexed() {
    let address = (0, (1, 2)).to_tree_address();
    let parent_address = address.parent();
    let expected_parent = (0, 1).to_tree_address();

    assert!(parent_address == expected_parent);
}

#[test]
fn get_parent_tagged() {
    let address = ("tag", ("tag2", "tag3")).to_tree_address();
    let parent_address = address.parent();
    let expected_parent = ("tag", "tag2").to_tree_address();

    assert!(parent_address == expected_parent);
}

#[test]
fn get_parent_here() {
    assert!(TreeAddress::Here.parent() == TreeAddress::Here);
}

#[test]
fn kinds_that_differ_below_a_common_start_cant_be_checked() {
    let indexed = (1, (2, 3)).to_tree_address();
    let tagged = (1, ("two", 3)).to_tree_address();

    assert!(indexed.is_parent_of(&tagged).is_none());
    assert!(tagged.is_parent_of(&indexed).is_none());
    assert!(indexed.relative_to(&tagged).is_none());

    // A difference of keys before the kinds part decides the question
    let elsewhere = (2, ("two", 3)).to_tree_address();
    assert!(indexed.is_parent_of(&elsewhere) == Some(false));
}

#[test]
fn relative_address_put_back_under_the_parent_is_the_address() {
    let address = ("one", (2, ("three", 4))).to_tree_address();
    let parent = ("one", 2).to_tree_address();

    assert!(parent.is_parent_of(&address) == Some(true));
    let relative = address.relative_to(&parent).unwrap();
    assert!(relative == ("three", 4).to_tree_address());
    assert!(parent.to_tree_address_then(relative) == address);

    // Every address is its own parent, and relative to itself it is `Here`
    assert!(address.is_parent_of(&address) == Some(true));
    assert!(address.relative_to(&address).unwrap() == TreeAddress::Here);
    assert!(TreeAddress::Here.relative_to(&TreeAddress::Here).unwrap() == TreeAddress::Here);
}

#[test]
fn parent_of_a_single_step_is_here() {
    assert!(3.to_tree_address().parent() == TreeAddress::Here);
    assert!("tag".to_tree_address().parent() == TreeAddress::Here);
    assert!((1, ("two", 3)).to_tree_address().parent() == (1, "two").to_tree_address());
}

#[test]
fn addresses_are_equal_when_their_steps_are() {
    assert!((1, "a").to_tree_address() == Addr(1, ("a", ())).to_tree_address());
    assert!((1, "a").to_tree_address() != (1, "b").to_tree_address());
    assert!((1, "a").to_tree_address() != (2, "a").to_tree_address());
    assert!((1, "a").to_tree_address() != 1.to_tree_address());
    assert!(1.to_tree_address() != "1".to_tree_address());
    assert!(Addr((1, 2), 3).to_tree_address_then("x".to_tree_address()) == (1, (2, (3, "x"))).to_tree_address());
    assert!((1, 2).to_tree_address().clone() == (1, 2).to_tree_address());
}
