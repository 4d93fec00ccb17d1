use netboost::InterfaceManager;
use netboost::Ipv4Address;
use netboost::LoadBalancingMode;
use netboost::PacketRouter;
use netboost::PhysicalInterface;
use netboost::TrafficType;
use netboost::parse_load_balancing_mode;
use netboost::EngineError;

fn create_mock_interfaces() -> Vec<PhysicalInterface> {
    vec![
        PhysicalInterface {
            name: "eth0".to_string(),
            description: "Mock Ethernet".to_string(),
            ip_address: Ipv4Address { octet0: 192, octet1: 168, octet2: 1, octet3: 1 },
            index: 1,
        },
        PhysicalInterface {
            name: "wifi0".to_string(),
            description: "Mock WiFi".to_string(),
            ip_address: Ipv4Address { octet0: 192, octet1: 168, octet2: 1, octet3: 2 },
            index: 2,
        },
    ]
}

#[test]
fn test_round_robin_selection() {
    let im = InterfaceManager::new(create_mock_interfaces());

    let mut router = PacketRouter::new(im);
    router.set_load_balancing_mode(LoadBalancingMode::RoundRobin);

    let packet = vec![0u8; 100];

    let decision1 = router.route_packet(&packet).unwrap();
    assert_eq!(decision1.interface_index, 1);

    let decision2 = router.route_packet(&packet).unwrap();
    assert_eq!(decision2.interface_index, 2);

    let decision3 = router.route_packet(&packet).unwrap();
    assert_eq!(decision3.interface_index, 1);
}

#[test]
fn test_packet_classification() {
    let im = InterfaceManager::new(create_mock_interfaces());
    let router = PacketRouter::new(im);

    let gaming_packet = vec![0u8; 60];
    let web_packet = vec![0u8; 300];
    let streaming_packet = vec![0u8; 1000];
    let file_packet = vec![0u8; 2000];

    let gaming_info = router.analyze_packet_simple(&gaming_packet).unwrap();
    assert!(matches!(gaming_info.traffic_type, TrafficType::Gaming));

    let web_info = router.analyze_packet_simple(&web_packet).unwrap();
    assert!(matches!(web_info.traffic_type, TrafficType::Web));

    let streaming_info = router.analyze_packet_simple(&streaming_packet).unwrap();
    assert!(matches!(streaming_info.traffic_type, TrafficType::Streaming));

    let file_info = router.analyze_packet_simple(&file_packet).unwrap();
    assert!(matches!(file_info.traffic_type, TrafficType::File));
}

fn three_interfaces() -> Vec<PhysicalInterface> {
    vec![
        PhysicalInterface {
            name: "eth0".to_string(),
            description: "wired".to_string(),
            ip_address: Ipv4Address { octet0: 10, octet1: 0, octet2: 0, octet3: 1 },
            index: 7,
        },
        PhysicalInterface {
            name: "wifi0".to_string(),
            description: "wireless".to_string(),
            ip_address: Ipv4Address { octet0: 10, octet1: 0, octet2: 0, octet3: 2 },
            index: 11,
        },
        PhysicalInterface {
            name: "lte0".to_string(),
            description: "cellular".to_string(),
            ip_address: Ipv4Address { octet0: 10, octet1: 0, octet2: 0, octet3: 3 },
            index: 3,
        },
    ]
}

#[test]
fn round_robin_visits_each_interface_once_per_cycle() {
    let mut router = PacketRouter::new(InterfaceManager::new(three_interfaces()));
    router.set_load_balancing_mode(LoadBalancingMode::RoundRobin);
    let packet = vec![0u8; 40];

    let mut seen = Vec::new();
    for _ in 0..3 {
        seen.push(router.route_packet(&packet).unwrap().interface_index);
    }
    assert_eq!(seen, vec![7, 11, 3]);

    let fourth = router.route_packet(&packet).unwrap();
    assert_eq!(fourth.interface_index, 7);
}

#[test]
fn routing_over_empty_catalog_is_the_only_routing_error() {
    let mut router = PacketRouter::new(InterfaceManager::new(Vec::new()));
    let packet = vec![0u8; 40];
    let result = router.route_packet(&packet);
    assert_eq!(result.unwrap_err(), EngineError::NoInterfacesAvailable);
}

#[test]
fn latency_based_picks_the_faster_interface() {
    let mut router = PacketRouter::new(InterfaceManager::new(create_mock_interfaces()));
    router.set_load_balancing_mode(LoadBalancingMode::LatencyBased);
    router.update_interface_metrics(1, 50, 0, 0, 5_000);
    router.update_interface_metrics(2, 10, 0, 0, 5_000);
    let packet = vec![0u8; 40];

    for _ in 0..5 {
        let decision = router.route_packet(&packet).unwrap();
        assert_eq!(decision.interface_index, 2);
        assert_eq!(decision.interface_name, "wifi0");
    }
}

#[test]
fn latency_based_prefers_any_metrics_over_none() {
    // Only the first interface has a sample; it wins while its latency is
    // below the no-metrics default, and loses once it is slower than that.
    let mut router = PacketRouter::new(InterfaceManager::new(create_mock_interfaces()));
    router.set_load_balancing_mode(LoadBalancingMode::LatencyBased);
    router.update_interface_metrics(1, 100, 0, 0, 5_000);
    let packet = vec![0u8; 40];
    assert_eq!(router.route_packet(&packet).unwrap().interface_index, 1);

    router.update_interface_metrics(1, 20_000, 0, 0, 6_000);
    assert_eq!(router.route_packet(&packet).unwrap().interface_index, 2);
}

#[test]
fn bandwidth_based_picks_the_most_headroom() {
    let mut router = PacketRouter::new(InterfaceManager::new(three_interfaces()));
    router.set_load_balancing_mode(LoadBalancingMode::BandwidthBased);
    router.update_interface_metrics(7, 10, 5_000, 0, 1_000);
    router.update_interface_metrics(11, 10, 800, 0, 1_000);
    router.update_interface_metrics(3, 10, 2_000, 0, 1_000);
    let packet = vec![0u8; 40];
    assert_eq!(router.route_packet(&packet).unwrap().interface_index, 11);
}

#[test]
fn bandwidth_tie_resolves_to_catalog_order() {
    let mut router = PacketRouter::new(InterfaceManager::new(three_interfaces()));
    router.set_load_balancing_mode(LoadBalancingMode::BandwidthBased);
    router.update_interface_metrics(7, 10, 800, 0, 1_000);
    router.update_interface_metrics(11, 10, 800, 0, 1_000);
    let packet = vec![0u8; 40];
    assert_eq!(router.route_packet(&packet).unwrap().interface_index, 7);
}

#[test]
fn balanced_routes_gaming_by_latency_and_bulk_by_bandwidth() {
    let mut router = PacketRouter::new(InterfaceManager::new(create_mock_interfaces()));
    // Interface 1: low latency, busy. Interface 2: slow, idle.
    router.update_interface_metrics(1, 5, 9_000, 0, 1_000);
    router.update_interface_metrics(2, 200, 10, 0, 1_000);

    let gaming_packet = vec![0u8; 60];
    assert_eq!(router.route_packet(&gaming_packet).unwrap().interface_index, 1);

    let streaming_packet = vec![0u8; 1000];
    assert_eq!(router.route_packet(&streaming_packet).unwrap().interface_index, 2);

    let file_packet = vec![0u8; 2000];
    assert_eq!(router.route_packet(&file_packet).unwrap().interface_index, 2);
}

#[test]
fn balanced_routes_web_by_weighted_score() {
    let mut router = PacketRouter::new(InterfaceManager::new(create_mock_interfaces()));
    // Interface 1 is better on every axis, so its weighted score is higher.
    router.update_interface_metrics(1, 10, 100, 0, 1_000);
    router.update_interface_metrics(2, 100, 1_000, 500, 1_000);

    let web_packet = vec![0u8; 300];
    assert_eq!(router.route_packet(&web_packet).unwrap().interface_index, 1);
}

#[test]
fn weighted_score_of_metricless_interfaces_ties_to_catalog_order() {
    // Nothing has metrics, every score is zero: the first interface wins.
    let mut router = PacketRouter::new(InterfaceManager::new(three_interfaces()));
    let web_packet = vec![0u8; 300];
    assert_eq!(router.route_packet(&web_packet).unwrap().interface_index, 7);
}

#[test]
fn any_sample_outscores_a_metricless_interface() {
    // Only the second interface has a sample, and a dismal one: enormous
    // latency and bandwidth usage, total loss. Its score still exceeds the
    // zero of the metrics-less first interface, so the weighted policy
    // never prefers an interface without metrics while metrics exist.
    let mut router = PacketRouter::new(InterfaceManager::new(create_mock_interfaces()));
    router.update_interface_metrics(2, 1_000_000_000, 1_000_000, 1000, 1_000);
    let web_packet = vec![0u8; 300];
    assert_eq!(router.route_packet(&web_packet).unwrap().interface_index, 2);
}

#[test]
fn confidence_follows_latency_and_loss() {
    // Latency 30 ms (below 50) and loss 0.1: both terms are 0.9, so the
    // confidence is 0.9, carried as 900 thousandths.
    let mut router = PacketRouter::new(InterfaceManager::new(create_mock_interfaces()));
    router.set_load_balancing_mode(LoadBalancingMode::LatencyBased);
    router.update_interface_metrics(2, 30, 0, 100, 1_000);
    let packet = vec![0u8; 40];
    let decision = router.route_packet(&packet).unwrap();
    assert_eq!(decision.interface_index, 2);
    assert_eq!(decision.confidence, 900);
}

#[test]
fn confidence_without_metrics_is_one_half() {
    let mut router = PacketRouter::new(InterfaceManager::new(create_mock_interfaces()));
    router.set_load_balancing_mode(LoadBalancingMode::RoundRobin);
    let packet = vec![0u8; 40];
    let decision = router.route_packet(&packet).unwrap();
    assert_eq!(decision.confidence, 500);
}

#[test]
fn metrics_updates_overwrite_per_interface() {
    let mut router = PacketRouter::new(InterfaceManager::new(create_mock_interfaces()));
    router.update_interface_metrics(1, 80, 500, 10, 1_000);
    router.update_interface_metrics(1, 15, 700, 20, 2_000);
    let sample = router.interface_metrics.get(&1).copied().unwrap();
    assert_eq!(sample.latency, 15);
    assert_eq!(sample.bandwidth_usage, 700);
    assert_eq!(sample.packet_loss, 20);
    assert_eq!(sample.last_updated, 2_000);
}

#[test]
fn mode_names_parse_to_policies() {
    assert_eq!(parse_load_balancing_mode("round_robin").unwrap(), LoadBalancingMode::RoundRobin);
    assert_eq!(
        parse_load_balancing_mode("latency_based").unwrap(),
        LoadBalancingMode::LatencyBased
    );
    assert_eq!(
        parse_load_balancing_mode("bandwidth_based").unwrap(),
        LoadBalancingMode::BandwidthBased
    );
    assert_eq!(parse_load_balancing_mode("balanced").unwrap(), LoadBalancingMode::Balanced);
    assert_eq!(
        parse_load_balancing_mode("fastest").unwrap_err(),
        EngineError::InvalidMode
    );
}

#[test]
fn decision_reports_the_strategy() {
    let mut router = PacketRouter::new(InterfaceManager::new(create_mock_interfaces()));
    router.set_load_balancing_mode(LoadBalancingMode::RoundRobin);
    let packet = vec![0u8; 40];
    let decision = router.route_packet(&packet).unwrap();
    assert_eq!(decision.reason, "Selected based on RoundRobin strategy");
}
