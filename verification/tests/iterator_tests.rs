use tametree::tree::basictree::TreeRef;
use tametree::tree::extent::TreeExtent;
use tametree::tree::iterator::{collect_nodes, TreeIterator, TreeNodeIteration};
use tametree::tree::treenode::{tree, ToTreeNode};

fn wide_tree() -> TreeRef {
    tree(
        &("root", 0),
        &vec![
            ("", 1).to_tree_node(),
            ("", 2).to_tree_node(),
            ("", 3).to_tree_node(),
            tree(&("", 4), &vec![("grandchild", 5).to_tree_node()]),
        ],
    )
}

fn deep_tree() -> TreeRef {
    tree(
        &("root", 0),
        &vec![
            ("", 1).to_tree_node(),
            ("", 2).to_tree_node(),
            tree(&("", 3), &vec![("", 4).to_tree_node()]),
            ("", 5).to_tree_node(),
        ],
    )
}

#[test]
fn iterate_children() {
    let tree = wide_tree();
    let iterator = collect_nodes(tree.iter_children()).into_iter().map(|x| x.get_value().to_int(-1));
    let collected = iterator.collect::<Vec<i32>>();

    assert!(collected == vec!(1, 2, 3, 4));
}

#[test]
fn iterate_no_children() {
    let tree = wide_tree();
    let iterator = collect_nodes(tree.get_child_ref().unwrap().iter_children()).into_iter().map(|x| x.get_value().to_int(-1));
    let collected = iterator.collect::<Vec<i32>>();

    assert!(collected == vec!());
}

#[test]
fn iterate_children_extent() {
    let tree = wide_tree();
    let iterator = collect_nodes(tree.iter_extent(TreeExtent::Children)).into_iter().map(|x| x.get_value().to_int(-1));
    let collected = iterator.collect::<Vec<i32>>();

    assert!(collected == vec!(1, 2, 3, 4));
}

#[test]
fn iterate_this_node() {
    let tree = wide_tree();
    let iterator = collect_nodes(tree.iter_extent(TreeExtent::ThisNode)).into_iter().map(|x| x.get_value().to_int(-1));
    let collected = iterator.collect::<Vec<i32>>();

    assert!(collected == vec!(0));
}

#[test]
fn iterate_subtree() {
    let tree = deep_tree();
    let iterator = collect_nodes(tree.iter_extent(TreeExtent::SubTree)).into_iter().map(|x| x.get_value().to_int(-1));
    let collected = iterator.collect::<Vec<i32>>();

    assert!(collected == vec!(0, 1, 2, 3, 4, 5));
}

#[test]
fn iterate_subtree_without_siblings() {
    let tree = deep_tree();
    let iterator = collect_nodes(tree.get_child_ref().unwrap().iter_extent(TreeExtent::SubTree)).into_iter().map(|x| x.get_value().to_int(-1));
    let collected = iterator.collect::<Vec<i32>>();

    assert!(collected == vec!(1));
}

#[test]
fn iterators_hand_out_one_node_at_a_time() {
    let tree = deep_tree();
    let mut iterator = tree.iter_extent(TreeExtent::SubTree);

    assert!(iterator.next_in_tree().unwrap().get_value().to_int(-1) == 0);
    assert!(iterator.next_in_tree().unwrap().get_value().to_int(-1) == 1);
    assert!(iterator.next_in_tree().unwrap().get_value().to_int(-1) == 2);
    assert!(iterator.next_in_tree().unwrap().get_value().to_int(-1) == 3);
    assert!(iterator.next_in_tree().unwrap().get_value().to_int(-1) == 4);
    assert!(iterator.next_in_tree().unwrap().get_value().to_int(-1) == 5);
    assert!(iterator.next_in_tree().is_none());
    assert!(iterator.next_in_tree().is_none());

    let mut nothing = tametree::tree::iterator::NoIterator::new();
    assert!(nothing.next_in_tree().is_none());
}
