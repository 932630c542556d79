use cloud::error::{Entity, Error};
use cloud::model::{DataCenter, Resources};
use cloud::node::LocalDataCenter;
use cloud::resolver::{
    check_capacity, LocalDcnsResolver, PlacementAction, PlacementEvent, ProvisionMachineRequest,
};

fn request(ram_mb: u32, disk_mb: u32, vcpus: u32, host: &str) -> ProvisionMachineRequest {
    ProvisionMachineRequest { ram_mb, disk_mb, vcpus, host_name: String::from(host) }
}

fn offer() -> Resources {
    Resources { ram_mb: 512, disk_mb: 512, vcpus: 1 }
}

#[test]
fn registered_node_is_listed_and_resolved() {
    let mut resolver = LocalDcnsResolver::new();
    assert!(resolver.list_data_centers().is_empty());
    let registered = resolver.register_data_center(String::from("A"));
    assert_eq!(registered, DataCenter { host_name: String::from("A") });
    assert_eq!(resolver.list_data_centers(), vec![registered.clone()]);
    assert_eq!(resolver.resolve(&String::from("A")), Some(registered));
    assert_eq!(resolver.resolve(&String::from("B")), None);
}

#[test]
fn registration_keeps_order_and_registers_no_name_twice() {
    let mut resolver = LocalDcnsResolver::new();
    resolver.register_data_center(String::from("b"));
    resolver.register_data_center(String::from("a"));
    let again = resolver.register_data_center(String::from("b"));
    assert_eq!(again.host_name, "b");
    let names: Vec<String> =
        resolver.list_data_centers().into_iter().map(|d| d.host_name).collect();
    assert_eq!(names, vec![String::from("b"), String::from("a")]);
    assert_eq!(resolver.list_data_centers(), resolver.list_data_centers());
}

#[test]
fn capacity_is_compared_in_every_dimension() {
    let available = offer();
    let fits = Resources { ram_mb: 512, disk_mb: 512, vcpus: 1 };
    assert_eq!(check_capacity(&fits, &available), Ok(()));
    let none = Resources { ram_mb: 0, disk_mb: 0, vcpus: 0 };
    assert_eq!(check_capacity(&none, &available), Ok(()));
    let ram = Resources { ram_mb: 513, disk_mb: 1, vcpus: 1 };
    assert_eq!(check_capacity(&ram, &available), Err(Error::ResourceInsufficient));
    let disk = Resources { ram_mb: 1, disk_mb: 513, vcpus: 1 };
    assert_eq!(check_capacity(&disk, &available), Err(Error::ResourceInsufficient));
    let vcpus = Resources { ram_mb: 1, disk_mb: 1, vcpus: 2 };
    assert_eq!(check_capacity(&vcpus, &available), Err(Error::ResourceInsufficient));
}

#[test]
fn placement_on_registered_node_with_capacity_succeeds() {
    let mut resolver = LocalDcnsResolver::new();
    resolver.register_data_center(String::from("A"));
    let node = LocalDataCenter::new();

    let (placement, action) = resolver.provision_machine(request(256, 256, 1, "A"));
    assert_eq!(action, PlacementAction::CheckResource { host_name: String::from("A") });
    assert!(!placement.is_finished());

    let report = PlacementEvent::ResourcesReported(node.check_resource());
    let (placement, action) = placement.step(report);
    let expected = PlacementAction::ProvisionMachine {
        host_name: String::from("A"),
        resources: Resources { ram_mb: 256, disk_mb: 256, vcpus: 1 },
    };
    assert_eq!(action, expected);
    assert!(!placement.is_finished());

    let (placement, action) = placement.step(PlacementEvent::Provisioned(String::from("127.0.0.1")));
    assert_eq!(action, PlacementAction::Reply(Ok(String::from("127.0.0.1"))));
    assert!(placement.is_finished());
}

#[test]
fn placement_beyond_capacity_is_refused() {
    let mut resolver = LocalDcnsResolver::new();
    resolver.register_data_center(String::from("A"));
    let node = LocalDataCenter::new();

    let (placement, action) = resolver.provision_machine(request(1024, 256, 1, "A"));
    assert_eq!(action, PlacementAction::CheckResource { host_name: String::from("A") });
    let report = PlacementEvent::ResourcesReported(node.check_resource());
    let (placement, action) = placement.step(report);
    assert_eq!(action, PlacementAction::Reply(Err(Error::ResourceInsufficient)));
    assert!(placement.is_finished());
}

#[test]
fn placement_on_unknown_node_is_not_found() {
    let resolver = LocalDcnsResolver::new();
    let (placement, action) = resolver.provision_machine(request(1, 1, 1, "A"));
    assert_eq!(action, PlacementAction::Reply(Err(Error::NotFound(Entity::DataCenter))));
    assert!(placement.is_finished());
}

#[test]
fn failed_call_ends_placement_as_unavailable() {
    let mut resolver = LocalDcnsResolver::new();
    resolver.register_data_center(String::from("A"));

    let (placement, _) = resolver.provision_machine(request(1, 1, 1, "A"));
    let (placement, action) = placement.step(PlacementEvent::CallFailed);
    assert_eq!(action, PlacementAction::Reply(Err(Error::UpstreamUnavailable)));
    assert!(placement.is_finished());

    let (placement, _) = resolver.provision_machine(request(1, 1, 1, "A"));
    let (placement, _) = placement.step(PlacementEvent::ResourcesReported(offer()));
    let (placement, action) = placement.step(PlacementEvent::CallFailed);
    assert_eq!(action, PlacementAction::Reply(Err(Error::UpstreamUnavailable)));
    assert!(placement.is_finished());
}

#[test]
fn event_out_of_turn_ends_placement_as_invalid() {
    let mut resolver = LocalDcnsResolver::new();
    resolver.register_data_center(String::from("A"));

    let (placement, _) = resolver.provision_machine(request(1, 1, 1, "A"));
    let (placement, action) = placement.step(PlacementEvent::Provisioned(String::from("x")));
    assert_eq!(action, PlacementAction::Reply(Err(Error::InvalidState)));
    assert!(placement.is_finished());
    let (_, action) = placement.step(PlacementEvent::ResourcesReported(offer()));
    assert_eq!(action, PlacementAction::Reply(Err(Error::InvalidState)));

    let (placement, _) = resolver.provision_machine(request(1, 1, 1, "A"));
    let (placement, _) = placement.step(PlacementEvent::ResourcesReported(offer()));
    let (_, action) = placement.step(PlacementEvent::ResourcesReported(offer()));
    assert_eq!(action, PlacementAction::Reply(Err(Error::InvalidState)));
}

#[test]
fn two_placements_pass_the_check_on_the_same_report() {
    let mut resolver = LocalDcnsResolver::new();
    resolver.register_data_center(String::from("A"));
    let (first, _) = resolver.provision_machine(request(512, 512, 1, "A"));
    let (second, _) = resolver.provision_machine(request(512, 512, 1, "A"));
    let (_, first_action) = first.step(PlacementEvent::ResourcesReported(offer()));
    let (_, second_action) = second.step(PlacementEvent::ResourcesReported(offer()));
    let forwarded =
        PlacementAction::ProvisionMachine { host_name: String::from("A"), resources: offer() };
    assert_eq!(first_action, forwarded);
    assert_eq!(second_action, forwarded);
}

fn place(resolver: &LocalDcnsResolver, node: &LocalDataCenter, ram_mb: u32) -> Result<String, Error> {
    let (mut placement, mut action) = resolver.provision_machine(request(ram_mb, 256, 1, "A"));
    loop {
        let event = match action {
            PlacementAction::CheckResource { host_name } => {
                assert_eq!(host_name, "A");
                PlacementEvent::ResourcesReported(node.check_resource())
            }
            PlacementAction::ProvisionMachine { host_name, .. } => {
                assert_eq!(host_name, "A");
                PlacementEvent::Provisioned(String::from("127.0.0.1"))
            }
            PlacementAction::Reply(outcome) => return outcome,
        };
        let next = placement.step(event);
        placement = next.0;
        action = next.1;
    }
}

#[test]
fn node_with_512_megabytes_takes_256_and_refuses_1024() {
    let mut resolver = LocalDcnsResolver::new();
    resolver.register_data_center(String::from("A"));
    let node = LocalDataCenter::new();
    assert_eq!(node.check_resource(), Resources { ram_mb: 512, disk_mb: 512, vcpus: 1 });
    assert_eq!(place(&resolver, &node, 256), Ok(String::from("127.0.0.1")));
    assert_eq!(place(&resolver, &node, 1024), Err(Error::ResourceInsufficient));
}

#[test]
fn default_resolver_knows_no_node() {
    assert!(LocalDcnsResolver::default().list_data_centers().is_empty());
}
