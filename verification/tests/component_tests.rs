use std::cell::Cell;
use std::rc::Rc;

use tametree::component::bus_publisher::TreeChangeBus;
use tametree::component::dispatch::Delivery;
use tametree::component::hub::Hub;
use tametree::component::immediate_publisher::ImmediatePublisher;
use tametree::component::output_tree_publisher::OutputTreePublisher;
use tametree::component::subscriptionmanager::SubscriptionManager;
use tametree::tree::address::{ToTreeAddress, TreeAddress};
use tametree::tree::basictree::TreeRef;
use tametree::tree::change::{TreeChange, TreeReplacement};
use tametree::tree::extent::TreeExtent;
use tametree::tree::treenode::{tree, ToTreeNode};
use tametree::tree::treenode_index::TreeNodeLookup;
use tametree::tree::values::ToTreeValue;

type Callback = Box<dyn FnMut()>;

fn run(callbacks: &mut Vec<Callback>, selected: Vec<usize>) {
    for id in selected {
        (callbacks[id])();
    }
}

fn counting(count: &Rc<Cell<i32>>) -> Callback {
    let callback_count = count.clone();
    Box::new(move || {
        let count_value = callback_count.get();
        let new_value = count_value + 1;
        callback_count.set(new_value);
    })
}

#[test]
fn can_call_subscription() {
    let mut manager = SubscriptionManager::<i32>::new();
    let mut callbacks: Vec<Callback> = vec![];

    let change_count = Rc::new(Cell::<i32>::new(0));

    assert!(change_count.get() == 0);

    assert!(manager.add_subscription(0) == callbacks.len());
    callbacks.push(counting(&change_count));

    run(&mut callbacks, manager.call_subscriptions(|_data| true));
    assert!(change_count.get() == 1);
    run(&mut callbacks, manager.call_subscriptions(|_data| true));
    assert!(change_count.get() == 2);
}

#[test]
fn can_filter_all_subscriptions() {
    let mut manager = SubscriptionManager::<i32>::new();
    let mut callbacks: Vec<Callback> = vec![];

    let change_count = Rc::new(Cell::<i32>::new(0));

    assert!(change_count.get() == 0);

    assert!(manager.add_subscription(0) == callbacks.len());
    callbacks.push(counting(&change_count));

    run(&mut callbacks, manager.call_subscriptions(|_data| false));
    assert!(change_count.get() == 0);
    run(&mut callbacks, manager.call_subscriptions(|_data| false));
    assert!(change_count.get() == 0);
}

#[test]
fn can_filter_some_subscriptions() {
    let mut manager = SubscriptionManager::<i32>::new();
    let mut callbacks: Vec<Callback> = vec![];

    let change_count = Rc::new(Cell::<i32>::new(0));

    assert!(change_count.get() == 0);

    assert!(manager.add_subscription(0) == callbacks.len());
    callbacks.push(counting(&change_count));
    assert!(manager.add_subscription(1) == callbacks.len());
    callbacks.push(counting(&change_count));

    run(&mut callbacks, manager.call_subscriptions(|_data| true));
    assert!(change_count.get() == 2);
    run(&mut callbacks, manager.call_subscriptions(|_data| false));
    assert!(change_count.get() == 2);
    run(&mut callbacks, manager.call_subscriptions(|data| *data == 1));
    assert!(change_count.get() == 3);
}

#[test]
fn subscriptions_are_called_in_the_order_they_were_added() {
    let mut manager = SubscriptionManager::<i32>::new();
    for data in [5, 2, 9, 2, 7] {
        manager.add_subscription(data);
    }

    assert!(manager.len() == 5);
    assert!(*manager.data(2) == 9);
    assert!(manager.call_subscriptions(|_| true) == vec![0, 1, 2, 3, 4]);
    assert!(manager.call_subscriptions(|data| *data == 2) == vec![1, 3]);
    assert!(manager.call_subscriptions(|data| *data > 5) == vec![2, 4]);
    assert!(manager.call_subscriptions(|data| *data > 9).is_empty());
}

#[test]
fn a_selection_does_not_see_later_subscriptions() {
    let mut manager = SubscriptionManager::<i32>::new();
    manager.add_subscription(1);

    let selected = manager.call_subscriptions(|_| true);
    manager.add_subscription(2);

    assert!(selected == vec![0]);
    assert!(manager.call_subscriptions(|_| true) == vec![0, 1]);
}

struct Adder {
    tree: TreeRef,
}

impl Adder {
    fn receive(&mut self, delivery: &Delivery, output: &mut OutputTreePublisher) {
        self.tree = delivery.change.apply(&self.tree);
        let x = self.tree.get_value().to_int(0);
        output.publish(TreeChange::new(&(), &("", x + 1)));
    }
}

#[test]
fn can_pump_bus() {
    let mut input_bus = TreeChangeBus::new();
    let mut output_publisher = OutputTreePublisher::new();
    let mut add_one = Adder { tree: "empty".to_tree_node() };
    let subscription = input_bus.subscribe(TreeAddress::Here, TreeExtent::SubTree);

    input_bus.publish(TreeChange::new(&(), &("", 1)));
    assert!(!input_bus.is_idle());
    for delivery in input_bus.pump() {
        assert!(delivery.subscription == subscription);
        add_one.receive(&delivery, &mut output_publisher);
    }
    assert!(input_bus.is_idle());

    let output = output_publisher.get_tree();
    assert!(output.get_value().to_int(0) == 2);
}

struct TendToZero {
    tree: TreeRef,
}

impl TendToZero {
    fn receive(&mut self, delivery: &Delivery, bus: &mut TreeChangeBus, output: &mut OutputTreePublisher) {
        self.tree = delivery.change.apply(&self.tree);
        let x = self.tree.get_value().to_int(0);
        if x > 0 {
            bus.publish(TreeChange::new(&(), &("", x - 1)));
        }
        output.publish(TreeChange::new(&(), &("", x)));
    }
}

fn pump_once(bus: &mut TreeChangeBus, component: &mut TendToZero, output: &mut OutputTreePublisher) {
    for delivery in bus.pump() {
        component.receive(&delivery, bus, output);
    }
}

#[test]
fn can_have_feedback() {
    let mut input_bus = TreeChangeBus::new();
    let mut output_publisher = OutputTreePublisher::new();
    let mut tend_to_zero = TendToZero { tree: "empty".to_tree_node() };
    input_bus.subscribe(().to_tree_address(), TreeExtent::SubTree);

    input_bus.publish(TreeChange::new(&(), &("", 10)));
    pump_once(&mut input_bus, &mut tend_to_zero, &mut output_publisher);
    assert!(output_publisher.get_tree().get_value().to_int(0) == 10);

    pump_once(&mut input_bus, &mut tend_to_zero, &mut output_publisher);
    assert!(output_publisher.get_tree().get_value().to_int(0) == 9);

    pump_once(&mut input_bus, &mut tend_to_zero, &mut output_publisher);
    assert!(output_publisher.get_tree().get_value().to_int(0) == 8);

    pump_once(&mut input_bus, &mut tend_to_zero, &mut output_publisher);
    assert!(output_publisher.get_tree().get_value().to_int(0) == 7);

    // Flush: pump until nothing waits
    let mut rounds = 0;
    while !input_bus.is_idle() {
        pump_once(&mut input_bus, &mut tend_to_zero, &mut output_publisher);
        rounds += 1;
    }
    assert!(output_publisher.get_tree().get_value().to_int(0) == 0);
    assert!(rounds == 7);
}

#[test]
fn pump_delivers_in_the_order_of_publishing() {
    let mut bus = TreeChangeBus::new();
    let whole = bus.subscribe(TreeAddress::Here, TreeExtent::SubTree);
    let below = bus.subscribe(1.to_tree_address(), TreeExtent::SubTree);
    let elsewhere = bus.subscribe(2.to_tree_address(), TreeExtent::SubTree);

    bus.publish(TreeChange::new(&(1, 0), &("c1", 1)));
    bus.publish(TreeChange::new(&(1, 1), &("c2", 2)));

    let deliveries = bus.pump();
    let order: Vec<usize> = deliveries.iter().map(|d| d.subscription).collect();
    assert!(order == vec![whole, below, whole, below]);
    assert!(!order.contains(&elsewhere));

    let start = tree(&"root", &vec!["zero".to_tree_node(), "one".to_tree_node()]);
    let seen_whole = deliveries[2].change.apply(&deliveries[0].change.apply(&start));
    assert!(seen_whole.get_child_at((1, 0).to_tree_address()).get_value().to_int(0) == 1);
    assert!(seen_whole.get_child_at((1, 1).to_tree_address()).get_value().to_int(0) == 2);

    let seen_below = deliveries[3].change.apply(&deliveries[1].change.apply(&"one".to_tree_node()));
    assert!(seen_below.get_child_at(0).get_tag() == "c1");
    assert!(seen_below.get_child_at(1).get_tag() == "c2");

    assert!(bus.is_idle());
    assert!(bus.pump().is_empty());
}

#[test]
fn changes_published_after_a_pump_wait_for_the_next() {
    let mut bus = TreeChangeBus::new();
    bus.subscribe(TreeAddress::Here, TreeExtent::SubTree);

    bus.publish(TreeChange::new(&(), &("first", 1)));
    let batch = bus.pump();
    bus.publish(TreeChange::new(&(), &("second", 2)));

    assert!(batch.len() == 1);
    assert!(batch[0].change.apply(&"empty".to_tree_node()).get_tag() == "first");

    let next = bus.pump();
    assert!(next.len() == 1);
    assert!(next[0].change.apply(&"empty".to_tree_node()).get_tag() == "second");
}

#[test]
fn can_consume_published_item() {
    let mut publisher = ImmediatePublisher::new();
    let subscription = publisher.subscribe(1.to_tree_address(), TreeExtent::SubTree);

    let mut our_count = 0;
    let mut consumer_tree: TreeRef = "empty".to_tree_node();
    let mut consume = |deliveries: Vec<Delivery>| {
        for delivery in deliveries {
            assert!(delivery.subscription == subscription);
            consumer_tree = delivery.change.apply(&consumer_tree);
            our_count += consumer_tree.get_child_ref_at("add").map(|val| val.get_value().to_int(0)).unwrap_or(0);
        }
        our_count
    };

    let just_add = ("add", 1).to_tree_node();

    let modify_child_of_subscribed_tree = TreeChange::new(&(1, 0).to_tree_address(), &just_add);
    assert!(!modify_child_of_subscribed_tree.relative_to(&1.to_tree_address()).is_none());
    assert!(consume(publisher.publish(&modify_child_of_subscribed_tree)) == 1);

    let whole_tree = tree(
        &"root",
        &vec!["some_other_tree".to_tree_node(), tree(&"consumer_target", &vec![("add", 2).to_tree_node()])],
    );

    let modify_entire_tree = TreeChange::new(&TreeAddress::Here, &whole_tree);
    assert!(consume(publisher.publish(&modify_entire_tree)) == 3);

    let modify_other_tree = TreeChange::new(&(0, 0), &("add", 100));
    assert!(consume(publisher.publish(&modify_other_tree)) == 3);
}

#[test]
fn undecided_changes_are_not_delivered() {
    let mut publisher = ImmediatePublisher::new();
    publisher.subscribe("tag".to_tree_address(), TreeExtent::SubTree);
    let indexed = publisher.subscribe(1.to_tree_address(), TreeExtent::ThisNode);

    let change = TreeChange::new(&1, &TreeReplacement::NewValue("v".to_string(), 3.to_tree_value()));
    let deliveries = publisher.publish(&change);

    assert!(deliveries.len() == 1);
    assert!(deliveries[0].subscription == indexed);
    assert!(deliveries[0].change.apply(&"old".to_tree_node()).get_value().to_int(0) == 3);

    let below = TreeChange::new(&(1, 0), &TreeReplacement::NewValue("v".to_string(), 3.to_tree_value()));
    assert!(publisher.publish(&below).is_empty());
}

#[test]
fn can_create_tree_change_component() {
    let mut input_publisher = ImmediatePublisher::new();
    input_publisher.subscribe(TreeAddress::Here, TreeExtent::SubTree);
    let mut output_publisher = OutputTreePublisher::new();

    for _change in input_publisher.publish(&TreeChange::new(&(), &"test".to_tree_node())) {
        output_publisher.publish(TreeChange::new(&TreeAddress::Here, &"passed".to_tree_node()));
    }

    let result = output_publisher.get_tree();
    assert!(result.get_tag() == "passed")
}

#[test]
fn can_create_tree_ref_component() {
    let mut input_publisher = ImmediatePublisher::new();
    input_publisher.subscribe(TreeAddress::Here, TreeExtent::SubTree);
    let mut output_publisher = OutputTreePublisher::new();
    let mut tree = "empty".to_tree_node();

    for delivery in input_publisher.publish(&TreeChange::new(&(), &"passed".to_tree_node())) {
        tree = delivery.change.apply(&tree);
        output_publisher.publish(TreeChange::new(&TreeAddress::Here, &tree.clone()));
    }

    let result = output_publisher.get_tree();
    assert!(result.get_tag() == "passed")
}

#[test]
fn output_tree_starts_empty_and_follows_changes() {
    let mut output = OutputTreePublisher::new();
    assert!(output.get_tree().get_tag() == "empty");

    output.publish(TreeChange::new(&0, &("a", 1)));
    output.publish(TreeChange::new(&1, &("b", 2)));
    output.publish(TreeChange::new(&0, &()));

    let result = output.get_tree();
    assert!(result.get_tag() == "empty");
    assert!(result.get_child_at(0).get_tag() == "b");
    assert!(result.get_child_ref_at(1).is_none());
}

#[test]
fn hub_translates_between_mounted_components() {
    let mut hub = Hub::new();
    let reader = hub.read_from(&("shared", 0));
    let other = hub.read_from(&"private");
    assert!(hub.is_idle());

    // A writer mounted at .shared changes its own first child
    hub.publish_to(&"shared", &TreeChange::new(&(0, "x"), &("x", 5)));
    assert!(!hub.is_idle());

    let deliveries = hub.pump();
    assert!(hub.is_idle());
    assert!(deliveries.len() == 1);
    assert!(deliveries[0].subscription == reader);
    assert!(deliveries[0].subscription != other);

    // The reader sees the change from where it is mounted
    let seen = deliveries[0].change.apply(&"mine".to_tree_node());
    assert!(seen.get_tag() == "mine");
    assert!(seen.get_child_at("x").get_value().to_int(0) == 5);
}
