use std::cell::Cell;
use std::rc::Rc;

use tametree::tree::address::ToTreeAddress;
use tametree::tree::basictree::{BasicTree, TreeRef};
use tametree::tree::tree_ref::ToTreeRefSugar;
use tametree::tree::treenode::{tree, ToTreeNode};
use tametree::tree::treenode_index::{TreeNodeIndex, TreeNodeLookup};
use tametree::tree::values::{ToTreeValue, TreeValue};
use tametree::util::clonecell::CloneCell;

#[test]
fn can_create_basictree() {
    let tree = BasicTree::new("test", (), None, None);

    assert!(tree.get_tag() == "test");
    assert!(tree.get_value().is_nothing());
    assert!(tree.get_child_ref().is_none());
    assert!(tree.get_sibling_ref().is_none());
}

#[test]
fn value_is_set() {
    let tree = BasicTree::new("test", 1, None, None);

    assert!(tree.get_tag() == "test");
    assert!(!tree.get_value().is_nothing());
}

#[test]
fn can_set_child() {
    let tree = BasicTree::new("test", (), Some(("child", "childvalue").to_tree_node()), None);

    assert!(tree.get_child_ref().is_some());
    assert!((tree.get_child_ref().unwrap().get_tag()) == "child");
    assert!(tree.get_sibling_ref().is_none());
}

#[test]
fn can_set_sibling() {
    let tree = BasicTree::new("test", (), None, Some(("sibling", ()).to_tree_node()));

    assert!(tree.get_sibling_ref().is_some());
    assert!((tree.get_sibling_ref().unwrap().get_tag()) == "sibling");
    assert!(tree.get_child_ref().is_none());
}

#[test]
fn can_clone_from() {
    let tree = "tree".to_tree_node();
    let copy = BasicTree::from(tree);

    assert!(copy.get_tag() == "tree");
}

#[test]
fn from_variants_keep_or_replace_references() {
    let node = tree(&("n", 5), &vec!["kid".to_tree_node()]).with_sibling_node(Some(&"sib".to_tree_node()));

    let copy = BasicTree::from(&node);
    assert!(copy.get_value().to_int(0) == 5);
    assert!(copy.get_child_ref().unwrap().get_tag() == "kid");
    assert!(copy.get_sibling_ref().unwrap().get_tag() == "sib");

    let other = BasicTree::from_with_references(&node, None, Some(&"x".to_tree_node()));
    assert!(other.get_tag() == "n");
    assert!(other.get_child_ref().is_none());
    assert!(other.get_sibling_ref().unwrap().get_tag() == "x");

    let with_child = BasicTree::from_with_child(&node, "y".to_tree_node());
    assert!(with_child.get_child_ref().unwrap().get_tag() == "y");
    assert!(with_child.get_sibling_ref().unwrap().get_tag() == "sib");

    let with_sibling = BasicTree::from_with_sibling(&node, "z".to_tree_node());
    assert!(with_sibling.get_child_ref().unwrap().get_tag() == "kid");
    assert!(with_sibling.get_sibling_ref().unwrap().get_tag() == "z");

    let cloned = copy.clone();
    assert!(cloned.get_tag() == "n");
    assert!(cloned.get_child_ref().unwrap().get_tag() == "kid");
}

#[test]
fn lookup_usize() {
    let tree = Rc::new(BasicTree::new("test", (), Some("first_child".to_tree_node()), None));

    let tree_ref: TreeRef = tree.to_owned();
    let lookup = 0.lookup_index(&tree_ref);
    assert!(lookup.is_some());
    assert!(lookup.unwrap().get_tag() == "first_child");
    assert!(tree.get_sibling_ref().is_none());
}

#[test]
fn can_get_first_child() {
    let tree = Rc::new(BasicTree::new("test", (), Some("first_child".to_tree_node()), None));

    assert!((tree.get_child_at(0).get_tag()) == "first_child");
    assert!(tree.get_sibling_ref().is_none());
}

#[test]
fn can_get_first_child_by_string() {
    let tree = Rc::new(BasicTree::new("test", (), Some("first_child".to_tree_node()), None));

    assert!((tree.get_child_at("first_child").get_tag()) == "first_child");
    assert!(tree.get_child_at("first_child".to_string()).get_tag() == "first_child");
    assert!(tree.get_sibling_ref().is_none());
}

#[test]
fn can_build_tree_macro() {
    let root = tree(
        &"root",
        &vec![
            "child1".to_tree_node(),
            ("child2", "value").to_tree_node(),
            tree(&"child3", &vec!["grandchild1".to_tree_node()]),
        ],
    );

    assert!(root.get_child_ref().is_some());
    assert!(root.get_child_ref_at(0).map(|x| x.get_tag() == "child1").unwrap_or(false));
    assert!(root.get_child_ref_at(1).map(|x| x.get_tag() == "child2").unwrap_or(false));
    assert!(root.get_child_ref_at(2).map(|x| x.get_tag() == "child3").unwrap_or(false));
    assert!(root.get_child_ref_at(2).and_then(|x| x.get_child_ref_at(0)).map(|x| x.get_tag() == "grandchild1").unwrap_or(false));
    assert!(root.get_child_ref_at(3).is_none());
}

#[test]
fn with_children_leaves_siblings_of_the_children_behind() {
    let pair = "a".to_tree_node().with_sibling_node(Some(&"hidden".to_tree_node()));
    let root = "root".to_tree_node().with_children(&vec![pair, "b".to_tree_node()]);

    assert!(root.get_child_at(0).get_tag() == "a");
    assert!(root.get_child_at(1).get_tag() == "b");
    assert!(root.get_child_ref_at(2).is_none());
}

#[test]
fn tag_lookup_finds_the_first_match() {
    let root = tree(&"root", &vec![("item", 1).to_tree_node(), ("item", 2).to_tree_node()]);

    assert!(root.get_child_at("item").get_value().to_int(0) == 1);
    assert!(root.lookup_child_with_tag("item").unwrap().get_value().to_int(0) == 1);
    assert!(root.lookup_child_with_tag("other").is_none());
    assert!(root.get_child_ref_at(("item", 0).to_tree_address()).is_none());
}

#[test]
fn index_lookup_counts_along_the_children() {
    let root = tree(&"root", &vec![("a", 1).to_tree_node(), ("b", 2).to_tree_node()]);

    assert!(root.lookup_child_at_index(0).unwrap().get_tag() == "a");
    assert!(root.lookup_child_at_index(1).unwrap().get_tag() == "b");
    assert!(root.lookup_child_at_index(2).is_none());
    assert!(root.lookup_child_at_index(7).is_none());
}

#[test]
fn values_convert_and_read_back() {
    assert!(().to_tree_value().is_nothing());
    assert!(true.to_tree_value().to_bool(false));
    assert!(!7.to_tree_value().to_bool(false));
    assert!(7.to_tree_value().to_int(0) == 7);
    assert!("x".to_tree_value().to_int(3) == 3);
    assert!("text".to_tree_value().to_str("") == "text");
    assert!("text".to_string().to_tree_value().to_str("") == "text");
    assert!(1.to_tree_value().to_str("fallback") == "fallback");
    assert!(TreeValue::Real(0x3ff8_0000_0000_0000).to_real_bits(0) == 0x3ff8_0000_0000_0000);
    assert!(1.to_tree_value().to_real_bits(9) == 9);

    let data = vec![1u8, 2, 3].to_tree_value();
    assert!(matches!(data.clone(), TreeValue::Data(d) if d == vec![1u8, 2, 3]));
    assert!(matches!((&data).to_tree_value(), TreeValue::Data(d) if d == vec![1u8, 2, 3]));
    assert!(matches!("s".to_tree_value().to_tree_value(), TreeValue::String(s) if s == "s"));
}

#[test]
fn clonecell_holds_what_was_set() {
    let mut cell = CloneCell::new(1);
    assert!(cell.get() == 1);

    cell.set(2);
    assert!(cell.get() == 2);
    assert!(cell.get() == 2);
}

struct RefCount {
    count: i32,
}

type RefCountRef = Rc<Cell<RefCount>>;

impl RefCount {
    fn new() -> RefCount {
        RefCount { count: 0 }
    }

    fn inc(&self) -> RefCount {
        RefCount { count: self.count + 1 }
    }

    fn dec(&self) -> RefCount {
        RefCount { count: self.count - 1 }
    }

    fn get(&self) -> i32 {
        self.count
    }
}

struct Droppable {
    counter: RefCountRef,
}

impl Copy for RefCount {}

impl Clone for RefCount {
    fn clone(&self) -> RefCount {
        RefCount { count: self.count }
    }
}

impl Drop for Droppable {
    fn drop(&mut self) {
        (*self.counter).set(self.counter.get().dec());
    }
}

impl Clone for Droppable {
    fn clone(&self) -> Droppable {
        (*self.counter).set(self.counter.get().inc());
        Droppable { counter: self.counter.clone() }
    }
}

impl Droppable {
    fn new(counter: &RefCountRef) -> Droppable {
        (*counter).set((*counter).get().inc());
        Droppable { counter: counter.clone() }
    }
}

#[test]
fn clonecell_update_rc() {
    let ref_count = Rc::new(Cell::new(RefCount::new()));
    let ref_count2 = Rc::new(Cell::new(RefCount::new()));

    assert!(ref_count.get().get() == 0);
    assert!(ref_count2.get().get() == 0);

    {
        let rc_standin = Droppable::new(&ref_count);

        assert!(ref_count.get().get() == 1);

        let mut arefcell = CloneCell::new(rc_standin.clone());
        assert!(ref_count.get().get() == 2);

        let rc_standin2 = Droppable::new(&ref_count2);

        assert!(ref_count2.get().get() == 1);

        arefcell.set(rc_standin2.clone());
        assert!(ref_count2.get().get() == 2);
        assert!(ref_count.get().get() == 1);
    }

    assert!(ref_count.get().get() == 0);
    assert!(ref_count2.get().get() == 0);
}

#[test]
fn create_with_sibling() {
    let root = "root".to_tree_node();
    let with_sibling = root.with_sibling("sibling");
    let no_sibling = with_sibling.with_no_sibling();

    assert!(root.get_tag() == "root");
    assert!(root.get_sibling_ref().is_none());
    assert!(with_sibling.get_tag() == "root");
    assert!(!with_sibling.get_sibling_ref().is_none());
    assert!(with_sibling.get_sibling_ref().unwrap().get_tag() == "sibling");
    assert!(no_sibling.get_sibling_ref().is_none());
    assert!(no_sibling.get_tag() == "root");
}
