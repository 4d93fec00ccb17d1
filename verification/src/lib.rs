//! Multi-uplink traffic-engineering engine.
//!
//! The crate intercepts IP packets leaving a host through a virtual network
//! adapter, classifies each packet's traffic profile, and forwards it over one
//! of several physical interfaces chosen by a load-balancing policy that is
//! fed by continuously updated per-interface performance metrics.
//!
//! Ratios (packet loss, confidence) are carried as thousandths (a value in
//! `0..=1000`), durations as whole milliseconds, so that every quantity the
//! engine computes is an exact integer.


mod classifier;
mod errors;
mod interface_manager;
mod packet_router;
mod performance_monitor;
mod virtual_adapter;

pub use classifier::classify;
pub use classifier::classify_by_size;
pub use classifier::classify_deep;
pub use classifier::priority_of;
pub use classifier::ClassificationStrategy;
pub use classifier::Ipv4Address;
pub use classifier::TrafficInfo;
pub use classifier::TrafficType;
pub use errors::EngineError;
pub use interface_manager::select_usable_interfaces;
pub use interface_manager::InterfaceManager;
pub use interface_manager::PhysicalInterface;
pub use interface_manager::RawAddress;
pub use interface_manager::RawInterface;
pub use packet_router::parse_load_balancing_mode;
pub use packet_router::LoadBalancingMode;
pub use packet_router::PacketMetrics;
pub use packet_router::PacketRouter;
pub use packet_router::RoutingDecision;
pub use performance_monitor::ByteEvent;
pub use performance_monitor::PerformanceMonitor;
pub use performance_monitor::PerformanceStats;
pub use virtual_adapter::AdapterState;
pub use virtual_adapter::ServiceStatus;
pub use virtual_adapter::VirtualNetworkInterface;
