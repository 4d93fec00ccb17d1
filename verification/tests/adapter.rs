use netboost::AdapterState;
use netboost::EngineError;
use netboost::Ipv4Address;
use netboost::LoadBalancingMode;
use netboost::PhysicalInterface;
use netboost::RawAddress;
use netboost::RawInterface;
use netboost::VirtualNetworkInterface;
use netboost::select_usable_interfaces;

fn catalog() -> Vec<PhysicalInterface> {
    vec![
        PhysicalInterface {
            name: "eth0".to_string(),
            description: "wired".to_string(),
            ip_address: Ipv4Address { octet0: 10, octet1: 0, octet2: 0, octet3: 1 },
            index: 4,
        },
        PhysicalInterface {
            name: "wifi0".to_string(),
            description: "wireless".to_string(),
            ip_address: Ipv4Address { octet0: 10, octet1: 0, octet2: 0, octet3: 2 },
            index: 9,
        },
    ]
}

#[test]
fn start_and_stop_are_guarded() {
    let mut adapter = VirtualNetworkInterface::new("tun0".to_string(), catalog(), 0);

    // Stopping before starting is rejected and changes nothing.
    assert_eq!(adapter.stop().unwrap_err(), EngineError::NotRunning);
    assert_eq!(adapter.state, AdapterState::Created);

    assert!(adapter.start().is_ok());
    assert_eq!(adapter.state, AdapterState::Running);

    // A second start is rejected and the adapter stays running.
    assert_eq!(adapter.start().unwrap_err(), EngineError::AlreadyRunning);
    assert_eq!(adapter.state, AdapterState::Running);

    assert!(adapter.stop().is_ok());
    assert_eq!(adapter.state, AdapterState::Stopped);

    // A second stop is rejected and the adapter stays stopped.
    assert_eq!(adapter.stop().unwrap_err(), EngineError::NotRunning);
    assert_eq!(adapter.state, AdapterState::Stopped);
}

#[test]
fn status_reports_name_uptime_and_running() {
    let mut adapter = VirtualNetworkInterface::new("tun0".to_string(), catalog(), 1_000);
    let status = adapter.get_status(4_000);
    assert!(!status.is_running);
    assert_eq!(status.uptime, 3_000);
    assert_eq!(status.adapter_name, "tun0");
    adapter.start().unwrap();
    assert!(adapter.get_status(4_000).is_running);
    assert_eq!(adapter.name().as_str(), "tun0");
}

#[test]
fn stats_need_a_running_adapter() {
    let mut adapter = VirtualNetworkInterface::new("tun0".to_string(), catalog(), 0);
    assert_eq!(adapter.get_performance_stats(100).unwrap_err(), EngineError::NotRunning);
    adapter.start().unwrap();
    let stats = adapter.get_performance_stats(100).unwrap();
    assert_eq!(stats.packets_received, 0);
    assert_eq!(stats.uptime, 100);
}

#[test]
fn policy_mode_command_is_guarded_and_parses() {
    let mut adapter = VirtualNetworkInterface::new("tun0".to_string(), catalog(), 0);
    assert_eq!(
        adapter.set_policy_mode("round_robin").unwrap_err(),
        EngineError::NotRunning
    );
    adapter.start().unwrap();
    assert_eq!(
        adapter.set_policy_mode("fastest").unwrap_err(),
        EngineError::InvalidMode
    );
    assert_eq!(adapter.packet_router.load_balancing_mode, LoadBalancingMode::Balanced);
    adapter.set_policy_mode("round_robin").unwrap();
    assert_eq!(adapter.packet_router.load_balancing_mode, LoadBalancingMode::RoundRobin);
}

#[test]
fn packets_flow_through_the_accounting() {
    let mut adapter = VirtualNetworkInterface::new("tun0".to_string(), catalog(), 0);
    adapter.start().unwrap();
    let packet = vec![0u8; 120];

    let decision = adapter.begin_packet(&packet).unwrap();
    assert_eq!(decision.interface_index, 4);
    adapter.complete_packet(true, packet.len(), 7, 50);

    let dropped_packet = vec![0u8; 80];
    adapter.begin_packet(&dropped_packet).unwrap();
    adapter.complete_packet(false, dropped_packet.len(), 3, 60);

    let stats = adapter.get_performance_stats(1_000).unwrap();
    assert_eq!(stats.packets_received, 2);
    assert_eq!(stats.packets_forwarded, 1);
    assert_eq!(stats.packets_dropped, 1);
    assert_eq!(stats.average_latency, 5);
    assert_eq!(stats.packet_loss_rate, 500);
}

#[test]
fn unroutable_packets_count_as_dropped() {
    let mut adapter = VirtualNetworkInterface::new("tun0".to_string(), Vec::new(), 0);
    adapter.start().unwrap();
    let packet = vec![0u8; 120];
    assert_eq!(
        adapter.begin_packet(&packet).unwrap_err(),
        EngineError::NoInterfacesAvailable
    );
    let stats = adapter.get_performance_stats(1_000).unwrap();
    assert_eq!(stats.packets_received, 1);
    assert_eq!(stats.packets_dropped, 1);
}

#[test]
fn refresh_metrics_feeds_the_policy_engine() {
    let mut adapter = VirtualNetworkInterface::new("tun0".to_string(), catalog(), 0);
    adapter.start().unwrap();
    let packet = vec![0u8; 100];
    adapter.begin_packet(&packet).unwrap();
    adapter.complete_packet(true, packet.len(), 12, 500);

    adapter.refresh_metrics(600);
    let sample = adapter.packet_router.interface_metrics.get(&4).copied().unwrap();
    assert_eq!(sample.latency, 12);
    assert_eq!(sample.bandwidth_usage, 100);
    assert_eq!(sample.packet_loss, 0);
    assert_eq!(sample.last_updated, 600);
}

#[test]
fn refresh_metrics_clamps_the_stored_loss_ratio() {
    // A loss quotient above one leaves the snapshot as counted but enters
    // the metrics store clamped to its [0, 1] bound.
    let mut adapter = VirtualNetworkInterface::new("tun0".to_string(), catalog(), 0);
    adapter.start().unwrap();
    adapter.performance_monitor.record_packet_received(10);
    adapter.performance_monitor.record_packet_dropped();
    adapter.performance_monitor.record_packet_dropped();
    adapter.performance_monitor.record_packet_dropped();

    let stats = adapter.get_performance_stats(100).unwrap();
    assert_eq!(stats.packet_loss_rate, 3000);

    adapter.refresh_metrics(200);
    let sample = adapter.packet_router.interface_metrics.get(&4).copied().unwrap();
    assert_eq!(sample.packet_loss, 1000);
}

#[test]
fn discovery_filter_keeps_usable_ipv4_links() {
    let raw = vec![
        RawInterface {
            name: "lo".to_string(),
            description: "loopback".to_string(),
            index: 1,
            is_up: true,
            is_loopback: true,
            addresses: vec![RawAddress::V4(Ipv4Address {
                octet0: 127,
                octet1: 0,
                octet2: 0,
                octet3: 1,
            })],
        },
        RawInterface {
            name: "eth0".to_string(),
            description: "wired".to_string(),
            index: 2,
            is_up: true,
            is_loopback: false,
            addresses: vec![
                RawAddress::Other,
                RawAddress::V4(Ipv4Address { octet0: 10, octet1: 0, octet2: 0, octet3: 5 }),
            ],
        },
        RawInterface {
            name: "eth1".to_string(),
            description: "unplugged".to_string(),
            index: 3,
            is_up: false,
            is_loopback: false,
            addresses: vec![RawAddress::V4(Ipv4Address {
                octet0: 10,
                octet1: 0,
                octet2: 0,
                octet3: 6,
            })],
        },
        RawInterface {
            name: "tun9".to_string(),
            description: "no addresses".to_string(),
            index: 4,
            is_up: true,
            is_loopback: false,
            addresses: Vec::new(),
        },
        RawInterface {
            name: "wg0".to_string(),
            description: "only non-v4".to_string(),
            index: 5,
            is_up: true,
            is_loopback: false,
            addresses: vec![RawAddress::Other],
        },
    ];
    let usable = select_usable_interfaces(raw);
    assert_eq!(usable.len(), 1);
    assert_eq!(usable[0].name, "eth0");
    assert_eq!(usable[0].index, 2);
    assert_eq!(
        usable[0].ip_address,
        Ipv4Address { octet0: 10, octet1: 0, octet2: 0, octet3: 5 }
    );
}

#[test]
fn catalog_getters_expose_discovery_order() {
    let manager = netboost::InterfaceManager::new(catalog());
    assert_eq!(manager.get_primary_interface().unwrap().index, 4);
    assert_eq!(manager.get_all_interfaces().len(), 2);

    let empty = netboost::InterfaceManager::new(Vec::new());
    assert!(empty.get_primary_interface().is_none());

    let adapter = VirtualNetworkInterface::new("tun0".to_string(), catalog(), 0);
    assert_eq!(adapter.get_interfaces().len(), 2);
}

#[test]
fn error_messages_describe_the_failure() {
    assert_eq!(
        EngineError::NoInterfacesAvailable.message(),
        "No available interfaces for routing"
    );
    assert_eq!(EngineError::AlreadyRunning.message(), "NetBoost is already running");
    assert_eq!(EngineError::NotRunning.message(), "NetBoost is not running");
    assert_eq!(EngineError::InvalidMode.message(), "Invalid load balancing mode");
}
