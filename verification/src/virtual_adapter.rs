//! The virtual-adapter orchestrator, as a state machine.
//!
//! The device I/O, the spawned loops and the physical sends live outside
//! this crate; what is verified here is every decision those loops make:
//! the `Created -> Running -> Stopped` life cycle with its guards, the
//! per-packet accounting around classify, route and send, and the periodic
//! refresh that feeds the performance snapshot back into the metrics store.
//!
//! An outer loop drives one packet as: `begin_packet` (classify and route),
//! then the physical send, then `complete_packet` with the send's outcome
//! and the measured processing latency.

use vstd::prelude::*;

use crate::errors::EngineError;
use crate::interface_manager::InterfaceManager;
use crate::interface_manager::PhysicalInterface;
use crate::packet_router::LoadBalancingMode;
use crate::packet_router::PacketMetrics;
use crate::packet_router::PacketRouter;
use crate::packet_router::RoutingDecision;
use crate::packet_router::parse_load_balancing_mode;
use crate::packet_router::spec_parse_mode;
use crate::packet_router::spec_routed_position;
use crate::performance_monitor::ByteEvent;
use crate::performance_monitor::HISTORY_CAPACITY;
use crate::performance_monitor::PerformanceMonitor;
use crate::performance_monitor::PerformanceStats;
use crate::performance_monitor::spec_average;
use crate::performance_monitor::spec_clamp_ratio;
use crate::performance_monitor::spec_clamp_u64;
use crate::performance_monitor::spec_loss_rate;
use crate::performance_monitor::spec_recent_bytes;
use crate::performance_monitor::spec_window_push;

verus! {

/// The adapter's life cycle: created, then running, then stopped.
#[derive(Debug, Clone, Copy, PartialEq, Eq, Structural)]
pub enum AdapterState {
    Created,
    Running,
    Stopped,
}

/// What the control surface reports of the adapter.
#[derive(Debug)]
pub struct ServiceStatus {
    pub is_running: bool,
    /// Milliseconds since the adapter was created.
    pub uptime: u64,
    pub adapter_name: String,
}

/// The orchestrator: the policy engine, the performance monitor and the
/// life-cycle state, under one name.
pub struct VirtualNetworkInterface {
    pub adapter_name: String,
    pub packet_router: PacketRouter,
    pub performance_monitor: PerformanceMonitor,
    pub state: AdapterState,
}

impl VirtualNetworkInterface {
    /// The router's stored samples are well-formed ratios.
    pub open spec fn wf(&self) -> bool {
        self.packet_router.wf()
    }

    /// A fresh adapter over a catalog snapshot, not yet running, with its
    /// uptime origin at `now`.
    pub fn new(adapter_name: String, interfaces: Vec<PhysicalInterface>, now: u64) -> (r: Self)
        ensures
            r.adapter_name == adapter_name,
            r.state == AdapterState::Created,
            r.packet_router.interface_manager.interfaces == interfaces,
            r.packet_router.interface_metrics@ == Map::<u32, PacketMetrics>::empty(),
            r.packet_router.load_balancing_mode == LoadBalancingMode::Balanced,
            r.packet_router.round_robin_counter == 0,
            r.performance_monitor.packets_received == 0,
            r.performance_monitor.packets_forwarded == 0,
            r.performance_monitor.packets_dropped == 0,
            r.performance_monitor.total_bytes_received == 0,
            r.performance_monitor.total_bytes_forwarded == 0,
            r.performance_monitor.latency_samples@ == Seq::<u64>::empty(),
            r.performance_monitor.max_latency_samples == HISTORY_CAPACITY,
            r.performance_monitor.forwarded_events@ == Seq::<ByteEvent>::empty(),
            r.performance_monitor.max_forwarded_events == HISTORY_CAPACITY,
            r.performance_monitor.start_time == now,
            r.wf(),
    {
        VirtualNetworkInterface {
            adapter_name,
            packet_router: PacketRouter::new(InterfaceManager::new(interfaces)),
            performance_monitor: PerformanceMonitor::new(now),
            state: AdapterState::Created,
        }
    }

    /// Whether the adapter is currently running.
    pub fn is_running(&self) -> (r: bool)
        ensures
            r == (self.state == AdapterState::Running),
    {
        match self.state {
            AdapterState::Running => true,
            _ => false,
        }
    }

    /// Start the adapter. Rejected, with no side effect, when it is
    /// already running.
    pub fn start(&mut self) -> (r: Result<(), EngineError>)
        ensures
            old(self).state == AdapterState::Running ==> r == Err::<(), EngineError>(
                EngineError::AlreadyRunning,
            ) && *final(self) == *old(self),
            old(self).state != AdapterState::Running ==> r == Ok::<(), EngineError>(())
                && final(self).state == AdapterState::Running,
            final(self).adapter_name == old(self).adapter_name,
            final(self).packet_router == old(self).packet_router,
            final(self).performance_monitor == old(self).performance_monitor,
    {
        if self.is_running() {
            Err(EngineError::AlreadyRunning)
        } else {
            self.state = AdapterState::Running;
            Ok(())
        }
    }

    /// Stop the adapter. Rejected, with no side effect, when it is not
    /// running.
    pub fn stop(&mut self) -> (r: Result<(), EngineError>)
        ensures
            old(self).state != AdapterState::Running ==> r == Err::<(), EngineError>(
                EngineError::NotRunning,
            ) && *final(self) == *old(self),
            old(self).state == AdapterState::Running ==> r == Ok::<(), EngineError>(())
                && final(self).state == AdapterState::Stopped,
            final(self).adapter_name == old(self).adapter_name,
            final(self).packet_router == old(self).packet_router,
            final(self).performance_monitor == old(self).performance_monitor,
    {
        if self.is_running() {
            self.state = AdapterState::Stopped;
            Ok(())
        } else {
            Err(EngineError::NotRunning)
        }
    }

    /// The adapter's name.
    pub fn name(&self) -> (r: &String)
        ensures
            r == &self.adapter_name,
    {
        &self.adapter_name
    }

    /// What the control surface reports at instant `now`.
    pub fn get_status(&self, now: u64) -> (r: ServiceStatus)
        requires
            now >= self.performance_monitor.start_time,
        ensures
            r.is_running == (self.state == AdapterState::Running),
            r.uptime == now - self.performance_monitor.start_time,
            r.adapter_name == self.adapter_name,
    {
        ServiceStatus {
            is_running: self.is_running(),
            uptime: now - self.performance_monitor.start_time,
            adapter_name: self.adapter_name.clone(),
        }
    }

    /// The performance snapshot at instant `now`. Rejected while the
    /// adapter is not running.
    pub fn get_performance_stats(&self, now: u64) -> (r: Result<PerformanceStats, EngineError>)
        requires
            now >= self.performance_monitor.start_time,
        ensures
            self.state != AdapterState::Running ==> r == Err::<PerformanceStats, EngineError>(
                EngineError::NotRunning,
            ),
            self.state == AdapterState::Running ==> {
                &&& r is Ok
                &&& r->Ok_0.packets_received == self.performance_monitor.packets_received
                &&& r->Ok_0.packets_forwarded == self.performance_monitor.packets_forwarded
                &&& r->Ok_0.packets_dropped == self.performance_monitor.packets_dropped
                &&& r->Ok_0.average_latency == spec_average(
                    self.performance_monitor.latency_samples@,
                )
                &&& r->Ok_0.packet_loss_rate == spec_clamp_u64(
                    spec_loss_rate(
                        self.performance_monitor.packets_dropped,
                        self.performance_monitor.packets_received,
                    ),
                )
                &&& r->Ok_0.bandwidth_usage == spec_clamp_u64(
                    spec_recent_bytes(self.performance_monitor.forwarded_events@, now),
                )
                &&& r->Ok_0.uptime == now - self.performance_monitor.start_time
            },
    {
        if self.is_running() {
            Ok(self.performance_monitor.get_current_stats(now))
        } else {
            Err(EngineError::NotRunning)
        }
    }

    /// Switch the routing policy; visible to every subsequent decision.
    pub fn set_load_balancing_mode(&mut self, mode: LoadBalancingMode)
        ensures
            final(self).packet_router.load_balancing_mode == mode,
            final(self).packet_router.interface_manager == old(self).packet_router.interface_manager,
            final(self).packet_router.interface_metrics == old(self).packet_router.interface_metrics,
            final(self).packet_router.round_robin_counter == old(
                self,
            ).packet_router.round_robin_counter,
            final(self).adapter_name == old(self).adapter_name,
            final(self).performance_monitor == old(self).performance_monitor,
            final(self).state == old(self).state,
            final(self).wf() == old(self).wf(),
    {
        self.packet_router.set_load_balancing_mode(mode);
    }

    /// The interface catalog the adapter routes over.
    pub fn get_interfaces(&self) -> (r: &Vec<PhysicalInterface>)
        ensures
            r == &self.packet_router.interface_manager.interfaces,
    {
        self.packet_router.get_available_interfaces()
    }

    /// Switch the routing policy by its name on the control surface.
    /// Rejected, with no side effect, while the adapter is not running or
    /// when the name is not a policy.
    pub fn set_policy_mode(&mut self, mode_name: &str) -> (r: Result<(), EngineError>)
        ensures
            old(self).state != AdapterState::Running ==> r == Err::<(), EngineError>(
                EngineError::NotRunning,
            ) && *final(self) == *old(self),
            old(self).state == AdapterState::Running ==> match spec_parse_mode(mode_name@) {
                Ok(mode) => {
                    &&& r == Ok::<(), EngineError>(())
                    &&& final(self).packet_router.load_balancing_mode == mode
                    &&& final(self).packet_router.interface_manager == old(
                        self,
                    ).packet_router.interface_manager
                    &&& final(self).packet_router.interface_metrics == old(
                        self,
                    ).packet_router.interface_metrics
                    &&& final(self).packet_router.round_robin_counter == old(
                        self,
                    ).packet_router.round_robin_counter
                    &&& final(self).adapter_name == old(self).adapter_name
                    &&& final(self).performance_monitor == old(self).performance_monitor
                    &&& final(self).state == old(self).state
                },
                Err(e) => r == Err::<(), EngineError>(e) && *final(self) == *old(self),
            },
            final(self).wf() == old(self).wf(),
    {
        if !self.is_running() {
            return Err(EngineError::NotRunning);
        }
        match parse_load_balancing_mode(mode_name) {
            Ok(mode) => {
                self.packet_router.set_load_balancing_mode(mode);
                Ok(())
            },
            Err(e) => Err(e),
        }
    }

    /// Account one packet's arrival and route it. On routing failure the
    /// packet is counted dropped and the error reported; the pipeline
    /// itself never aborts.
    pub fn begin_packet(&mut self, packet_data: &[u8]) -> (r: Result<
        RoutingDecision,
        EngineError,
    >)
        requires
            old(self).wf(),
            old(self).performance_monitor.packets_received < u64::MAX,
            old(self).performance_monitor.total_bytes_received + packet_data@.len() <= u64::MAX,
            old(self).performance_monitor.packets_dropped < u64::MAX,
        ensures
            final(self).wf(),
            final(self).adapter_name == old(self).adapter_name,
            final(self).state == old(self).state,
            final(self).performance_monitor.packets_received == old(
                self,
            ).performance_monitor.packets_received + 1,
            final(self).performance_monitor.total_bytes_received == old(
                self,
            ).performance_monitor.total_bytes_received + packet_data@.len(),
            final(self).performance_monitor.packets_forwarded == old(
                self,
            ).performance_monitor.packets_forwarded,
            final(self).performance_monitor.total_bytes_forwarded == old(
                self,
            ).performance_monitor.total_bytes_forwarded,
            final(self).performance_monitor.latency_samples == old(
                self,
            ).performance_monitor.latency_samples,
            final(self).performance_monitor.max_latency_samples == old(
                self,
            ).performance_monitor.max_latency_samples,
            final(self).performance_monitor.forwarded_events == old(
                self,
            ).performance_monitor.forwarded_events,
            final(self).performance_monitor.max_forwarded_events == old(
                self,
            ).performance_monitor.max_forwarded_events,
            final(self).performance_monitor.start_time == old(
                self,
            ).performance_monitor.start_time,
            final(self).packet_router.interface_manager == old(
                self,
            ).packet_router.interface_manager,
            final(self).packet_router.interface_metrics == old(
                self,
            ).packet_router.interface_metrics,
            final(self).packet_router.load_balancing_mode == old(
                self,
            ).packet_router.load_balancing_mode,
            ({
                let interfaces = old(self).packet_router.interface_manager.interfaces@;
                let metrics = old(self).packet_router.interface_metrics@;
                let mode = old(self).packet_router.load_balancing_mode;
                if interfaces.len() == 0 {
                    &&& r is Err
                    &&& r->Err_0 == EngineError::NoInterfacesAvailable
                    &&& final(self).performance_monitor.packets_dropped == old(
                        self,
                    ).performance_monitor.packets_dropped + 1
                    &&& final(self).packet_router.round_robin_counter == old(
                        self,
                    ).packet_router.round_robin_counter
                } else {
                    let position = spec_routed_position(
                        mode,
                        packet_data@,
                        interfaces,
                        metrics,
                        old(self).packet_router.round_robin_counter as int,
                    );
                    &&& r is Ok
                    &&& r->Ok_0.interface_index == interfaces[position].index
                    &&& r->Ok_0.interface_name@ == interfaces[position].name@
                    &&& final(self).performance_monitor.packets_dropped == old(
                        self,
                    ).performance_monitor.packets_dropped
                    &&& final(self).packet_router.round_robin_counter as int == if mode
                        is RoundRobin {
                        (position + 1) % interfaces.len() as int
                    } else {
                        old(self).packet_router.round_robin_counter as int
                    }
                }
            }),
    {
        self.performance_monitor.record_packet_received(packet_data.len());
        match self.packet_router.route_packet(packet_data) {
            Ok(decision) => Ok(decision),
            Err(e) => {
                self.performance_monitor.record_packet_dropped();
                Err(e)
            },
        }
    }

    /// Account the outcome of one packet's physical send, and always the
    /// end-to-end processing latency.
    pub fn complete_packet(&mut self, send_succeeded: bool, bytes: usize, latency: u64, now: u64)
        requires
            send_succeeded ==> old(self).performance_monitor.packets_forwarded < u64::MAX,
            send_succeeded ==> old(self).performance_monitor.total_bytes_forwarded + bytes
                <= u64::MAX,
            !send_succeeded ==> old(self).performance_monitor.packets_dropped < u64::MAX,
        ensures
            final(self).adapter_name == old(self).adapter_name,
            final(self).state == old(self).state,
            final(self).packet_router == old(self).packet_router,
            final(self).wf() == old(self).wf(),
            final(self).performance_monitor.packets_received == old(
                self,
            ).performance_monitor.packets_received,
            final(self).performance_monitor.total_bytes_received == old(
                self,
            ).performance_monitor.total_bytes_received,
            final(self).performance_monitor.max_latency_samples == old(
                self,
            ).performance_monitor.max_latency_samples,
            final(self).performance_monitor.max_forwarded_events == old(
                self,
            ).performance_monitor.max_forwarded_events,
            final(self).performance_monitor.start_time == old(
                self,
            ).performance_monitor.start_time,
            final(self).performance_monitor.latency_samples@ == spec_window_push(
                old(self).performance_monitor.latency_samples@,
                latency,
                old(self).performance_monitor.max_latency_samples as int,
            ),
            send_succeeded ==> {
                &&& final(self).performance_monitor.packets_forwarded == old(
                    self,
                ).performance_monitor.packets_forwarded + 1
                &&& final(self).performance_monitor.total_bytes_forwarded == old(
                    self,
                ).performance_monitor.total_bytes_forwarded + bytes
                &&& final(self).performance_monitor.packets_dropped == old(
                    self,
                ).performance_monitor.packets_dropped
                &&& final(self).performance_monitor.forwarded_events@ == spec_window_push(
                    old(self).performance_monitor.forwarded_events@,
                    ByteEvent { at: now, bytes: bytes as u64 },
                    old(self).performance_monitor.max_forwarded_events as int,
                )
            },
            !send_succeeded ==> {
                &&& final(self).performance_monitor.packets_dropped == old(
                    self,
                ).performance_monitor.packets_dropped + 1
                &&& final(self).performance_monitor.packets_forwarded == old(
                    self,
                ).performance_monitor.packets_forwarded
                &&& final(self).performance_monitor.forwarded_events == old(
                    self,
                ).performance_monitor.forwarded_events
            },
    {
        if send_succeeded {
            self.performance_monitor.record_packet_forwarded(bytes, now);
        } else {
            self.performance_monitor.record_packet_dropped();
        }
        self.performance_monitor.record_processing_latency(latency);
    }

    /// The periodic feedback step: derive the current snapshot and push it
    /// into the metrics store for the representative (primary) interface,
    /// closing the loop the policy engine reads from. A catalog without
    /// interfaces leaves the store untouched.
    pub fn refresh_metrics(&mut self, now: u64)
        requires
            now >= old(self).performance_monitor.start_time,
        ensures
            final(self).adapter_name == old(self).adapter_name,
            final(self).state == old(self).state,
            final(self).performance_monitor == old(self).performance_monitor,
            final(self).packet_router.interface_manager == old(
                self,
            ).packet_router.interface_manager,
            final(self).packet_router.load_balancing_mode == old(
                self,
            ).packet_router.load_balancing_mode,
            final(self).packet_router.round_robin_counter == old(
                self,
            ).packet_router.round_robin_counter,
            old(self).wf() ==> final(self).wf(),
            ({
                let interfaces = old(self).packet_router.interface_manager.interfaces@;
                let monitor = old(self).performance_monitor;
                if interfaces.len() == 0 {
                    final(self).packet_router.interface_metrics == old(
                        self,
                    ).packet_router.interface_metrics
                } else {
                    final(self).packet_router.interface_metrics@ == old(
                        self,
                    ).packet_router.interface_metrics@.insert(
                        interfaces[0].index,
                        PacketMetrics {
                            latency: spec_average(monitor.latency_samples@) as u64,
                            bandwidth_usage: spec_clamp_u64(
                                spec_recent_bytes(monitor.forwarded_events@, now),
                            ) as u64,
                            packet_loss: spec_clamp_ratio(
                                spec_loss_rate(
                                    monitor.packets_dropped,
                                    monitor.packets_received,
                                ),
                            ) as u32,
                            last_updated: now,
                        },
                    )
                }
            }),
    {
        let stats = self.performance_monitor.get_current_stats(now);
        if self.packet_router.interface_manager.interfaces.len() > 0 {
            let index = self.packet_router.interface_manager.interfaces[0].index;
            let packet_loss: u32 = if stats.packet_loss_rate > 1000 {
                1000
            } else {
                stats.packet_loss_rate as u32
            };
            self.packet_router.update_interface_metrics(
                index,
                stats.average_latency,
                stats.bandwidth_usage,
                packet_loss,
                now,
            );
        }
    }
}

} // verus!
