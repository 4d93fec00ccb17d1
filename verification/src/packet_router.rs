//! The routing policy engine.
//!
//! Given a classified packet, the interface catalog and the latest metrics
//! snapshot, the router selects a destination interface and reports a
//! confidence score. Selection is deterministic for identical inputs, and
//! every tie in a select-by-metric resolves to the first interface in
//! catalog order.
//!
//! Quantities are exact integers: latencies in milliseconds, ratios in
//! thousandths, and the weighted score of the balanced policy in millionths
//! (each of its three terms truncated to that unit, with a floor of one for
//! any interface that holds a sample).

use vstd::prelude::*;

use vstd::arithmetic::div_mod::lemma_add_mod_noop;
use vstd::arithmetic::div_mod::lemma_mod_add_multiples_vanish;
use vstd::arithmetic::div_mod::lemma_mod_bound;
use vstd::arithmetic::div_mod::lemma_mod_equivalence;
use vstd::arithmetic::div_mod::lemma_small_mod;

use std::collections::HashMap;

use crate::classifier::classify_by_size;
use crate::classifier::spec_classify_by_size;
use crate::classifier::TrafficInfo;
use crate::classifier::TrafficType;
use crate::errors::EngineError;
use crate::interface_manager::InterfaceManager;
use crate::interface_manager::PhysicalInterface;

verus! {

broadcast use vstd::std_specs::hash::group_hash_axioms;

/// Latency charged to an interface that has no metrics entry yet: high
/// enough that interfaces with metrics always win a latency selection.
pub const DEFAULT_LATENCY_MILLIS: u64 = 9999;

/// The latest performance sample for one interface. Last write wins; no
/// smoothing happens at this level.
#[derive(Debug, Clone, Copy, PartialEq, Eq, Structural)]
pub struct PacketMetrics {
    /// Round-trip latency, in milliseconds.
    pub latency: u64,
    /// Bytes per second currently in use on the link.
    pub bandwidth_usage: u64,
    /// Packet-loss ratio, in thousandths.
    pub packet_loss: u32,
    /// Milliseconds timestamp of the sample.
    pub last_updated: u64,
}

/// The policy engine's verdict for one packet.
#[derive(Debug)]
pub struct RoutingDecision {
    pub interface_index: u32,
    pub interface_name: String,
    /// How much the engine trusts the metrics behind the choice, in
    /// thousandths.
    pub confidence: u32,
    pub reason: String,
}

/// The selectable load-balancing policies.
#[derive(Debug, Clone, Copy, PartialEq, Eq, Structural)]
pub enum LoadBalancingMode {
    RoundRobin,
    LatencyBased,
    BandwidthBased,
    Balanced,
}

/// Every stored sample carries a loss ratio of at most one.
pub open spec fn spec_metrics_wf(m: Map<u32, PacketMetrics>) -> bool {
    forall|k: u32| #[trigger] m.dom().contains(k) ==> m[k].packet_loss <= 1000
}

/// The latency a selection charges an interface: its sample, or the high
/// default when it has none.
pub open spec fn spec_effective_latency(m: Map<u32, PacketMetrics>, index: u32) -> int {
    if m.dom().contains(index) {
        m[index].latency as int
    } else {
        DEFAULT_LATENCY_MILLIS as int
    }
}

/// The bandwidth usage a selection charges an interface: its sample, or
/// maximal saturation when it has none.
pub open spec fn spec_effective_bandwidth(m: Map<u32, PacketMetrics>, index: u32) -> int {
    if m.dom().contains(index) {
        m[index].bandwidth_usage as int
    } else {
        u64::MAX as int
    }
}

/// The weighted score of the balanced policy, in millionths: two fifths for
/// closeness in latency, two fifths for bandwidth headroom, one fifth for
/// reliability; each term truncated to the millionth, plus one, so that an
/// interface holding a sample always scores above an interface without one.
/// An interface with no metrics scores zero and is outscored by any sample.
pub open spec fn spec_interface_score(m: Map<u32, PacketMetrics>, index: u32) -> int {
    if m.dom().contains(index) {
        400_000_000int / (m[index].latency + 1) + 400_000int / (m[index].bandwidth_usage + 1)
            + 200 * (1000 - m[index].packet_loss) + 1
    } else {
        0
    }
}

/// Confidence in a decision, in thousandths: the average of a latency
/// confidence (high below fifty milliseconds) and the loss confidence (one
/// minus the loss ratio); one half when the interface has no metrics.
pub open spec fn spec_confidence(m: Map<u32, PacketMetrics>, index: u32) -> int {
    if m.dom().contains(index) {
        let latency_confidence: int = if m[index].latency < 50 {
            900
        } else {
            600
        };
        let loss_confidence: int = 1000 - m[index].packet_loss;
        (latency_confidence + loss_confidence) / 2
    } else {
        500
    }
}

/// The position of the first minimum of a non-empty key sequence: a later
/// key displaces the running best only when strictly smaller, so the
/// earliest minimum wins.
pub open spec fn spec_first_min_index(keys: Seq<int>) -> int
    decreases keys.len(),
{
    if keys.len() <= 1 {
        0
    } else {
        let prev = spec_first_min_index(keys.drop_last());
        if keys.last() < keys[prev] {
            keys.len() - 1
        } else {
            prev
        }
    }
}

/// The position of the first maximum of a non-empty key sequence; ties
/// resolve to the earliest, as for the minimum.
pub open spec fn spec_first_max_index(keys: Seq<int>) -> int
    decreases keys.len(),
{
    if keys.len() <= 1 {
        0
    } else {
        let prev = spec_first_max_index(keys.drop_last());
        if keys.last() > keys[prev] {
            keys.len() - 1
        } else {
            prev
        }
    }
}

/// The latency each catalog position is charged.
pub open spec fn spec_latency_keys(
    interfaces: Seq<PhysicalInterface>,
    m: Map<u32, PacketMetrics>,
) -> Seq<int> {
    Seq::new(interfaces.len(), |i: int| spec_effective_latency(m, interfaces[i].index))
}

/// The bandwidth usage each catalog position is charged.
pub open spec fn spec_bandwidth_keys(
    interfaces: Seq<PhysicalInterface>,
    m: Map<u32, PacketMetrics>,
) -> Seq<int> {
    Seq::new(interfaces.len(), |i: int| spec_effective_bandwidth(m, interfaces[i].index))
}

/// The weighted score of each catalog position.
pub open spec fn spec_score_keys(
    interfaces: Seq<PhysicalInterface>,
    m: Map<u32, PacketMetrics>,
) -> Seq<int> {
    Seq::new(interfaces.len(), |i: int| spec_interface_score(m, interfaces[i].index))
}

/// The catalog position each policy selects for one packet, for a non-empty
/// catalog. Round-robin reads the cursor; the metric policies take the
/// first minimum or maximum of their keys; the balanced policy dispatches
/// on the traffic class.
pub open spec fn spec_selected_position(
    mode: LoadBalancingMode,
    traffic: TrafficType,
    interfaces: Seq<PhysicalInterface>,
    m: Map<u32, PacketMetrics>,
    counter: int,
) -> int {
    match mode {
        LoadBalancingMode::RoundRobin => counter % interfaces.len() as int,
        LoadBalancingMode::LatencyBased => spec_first_min_index(spec_latency_keys(interfaces, m)),
        LoadBalancingMode::BandwidthBased => spec_first_min_index(
            spec_bandwidth_keys(interfaces, m),
        ),
        LoadBalancingMode::Balanced => match traffic {
            TrafficType::Gaming => spec_first_min_index(spec_latency_keys(interfaces, m)),
            TrafficType::Streaming => spec_first_min_index(spec_bandwidth_keys(interfaces, m)),
            TrafficType::File => spec_first_min_index(spec_bandwidth_keys(interfaces, m)),
            TrafficType::Web => spec_first_max_index(spec_score_keys(interfaces, m)),
            TrafficType::Unknown => spec_first_max_index(spec_score_keys(interfaces, m)),
        },
    }
}

/// The catalog position one raw packet is routed to: selection under the
/// active policy, with the packet classified by the size heuristic.
pub open spec fn spec_routed_position(
    mode: LoadBalancingMode,
    packet: Seq<u8>,
    interfaces: Seq<PhysicalInterface>,
    m: Map<u32, PacketMetrics>,
    counter: int,
) -> int {
    spec_selected_position(
        mode,
        spec_classify_by_size(packet).traffic_type,
        interfaces,
        m,
        counter,
    )
}

/// The reason line a decision carries for each policy.
pub open spec fn spec_reason(mode: LoadBalancingMode) -> Seq<char> {
    match mode {
        LoadBalancingMode::RoundRobin => "Selected based on RoundRobin strategy"@,
        LoadBalancingMode::LatencyBased => "Selected based on LatencyBased strategy"@,
        LoadBalancingMode::BandwidthBased => "Selected based on BandwidthBased strategy"@,
        LoadBalancingMode::Balanced => "Selected based on Balanced strategy"@,
    }
}

/// The first minimum really is one: no key is smaller, and every earlier
/// key is strictly larger. This is the tie-break law of every
/// select-by-metric policy: the first interface in catalog order wins.
pub proof fn lemma_first_min_index_props(keys: Seq<int>)
    requires
        keys.len() > 0,
    ensures
        0 <= spec_first_min_index(keys) < keys.len(),
        forall|j: int|
            0 <= j < keys.len() ==> keys[spec_first_min_index(keys)] <= #[trigger] keys[j],
        forall|j: int| 0 <= j < spec_first_min_index(keys) ==> #[trigger] keys[j] > keys[
            spec_first_min_index(keys)
        ],
    decreases keys.len(),
{
    if keys.len() > 1 {
        lemma_first_min_index_props(keys.drop_last());
        let prev = spec_first_min_index(keys.drop_last());
        let chosen = spec_first_min_index(keys);
        assert(keys.drop_last()[prev] == keys[prev]);
        assert forall|j: int| 0 <= j < keys.len() implies keys[chosen] <= #[trigger] keys[j] by {
            if j < keys.len() - 1 {
                assert(keys.drop_last()[j] == keys[j]);
            }
        }
        assert forall|j: int| 0 <= j < chosen implies #[trigger] keys[j] > keys[chosen] by {
            assert(keys.drop_last()[j] == keys[j]);
        }
    }
}

/// The first maximum really is one: no key is larger, and every earlier key
/// is strictly smaller.
pub proof fn lemma_first_max_index_props(keys: Seq<int>)
    requires
        keys.len() > 0,
    ensures
        0 <= spec_first_max_index(keys) < keys.len(),
        forall|j: int|
            0 <= j < keys.len() ==> keys[spec_first_max_index(keys)] >= #[trigger] keys[j],
        forall|j: int| 0 <= j < spec_first_max_index(keys) ==> #[trigger] keys[j] < keys[
            spec_first_max_index(keys)
        ],
    decreases keys.len(),
{
    if keys.len() > 1 {
        lemma_first_max_index_props(keys.drop_last());
        let prev = spec_first_max_index(keys.drop_last());
        let chosen = spec_first_max_index(keys);
        assert(keys.drop_last()[prev] == keys[prev]);
        assert forall|j: int| 0 <= j < keys.len() implies keys[chosen] >= #[trigger] keys[j] by {
            if j < keys.len() - 1 {
                assert(keys.drop_last()[j] == keys[j]);
            }
        }
        assert forall|j: int| 0 <= j < chosen implies #[trigger] keys[j] < keys[chosen] by {
            assert(keys.drop_last()[j] == keys[j]);
        }
    }
}

/// Advancing the round-robin cursor inside the catalog agrees with plain
/// arithmetic: reducing the cursor before the increment changes nothing.
/// With `route_packet`'s contract this gives, by induction over calls,
/// that the `k`-th consecutive selection from cursor `c` lands on
/// position `(c + k) % n`.
pub proof fn lemma_round_robin_advance(c: int, n: int)
    requires
        n >= 1,
        c >= 0,
    ensures
        (c % n + 1) % n == (c + 1) % n,
{
    lemma_add_mod_noop(c, 1, n);
    if n == 1 {
        lemma_mod_bound(c % n + 1, n);
        lemma_mod_bound(c + 1, n);
    } else {
        lemma_small_mod(1nat, n as nat);
    }
}

/// The cursor value after `k` round-robin selections from cursor `start`
/// over a catalog of `n` interfaces: each selection reduces the cursor
/// into the catalog and advances it by one, exactly as `route_packet`
/// updates it.
pub open spec fn spec_cursor_after(start: int, k: nat, n: int) -> int
    decreases k,
{
    if k == 0 {
        start
    } else {
        (spec_cursor_after(start, (k - 1) as nat, n) % n + 1) % n
    }
}

/// The round-robin trajectory law: after `k` selections the cursor stands
/// at `(start + k) % n`, so the `k`-th of a run of consecutive calls —
/// which selects its cursor reduced into the catalog — picks position
/// `(start + k) % n`.
pub proof fn lemma_round_robin_trajectory(start: int, k: nat, n: int)
    requires
        n >= 1,
        start >= 0,
    ensures
        spec_cursor_after(start, k, n) % n == (start + k) % n,
        k > 0 ==> 0 <= spec_cursor_after(start, k, n) < n,
    decreases k,
{
    if k > 0 {
        lemma_round_robin_trajectory(start, (k - 1) as nat, n);
        lemma_round_robin_advance(start + k - 1, n);
        lemma_mod_bound(spec_cursor_after(start, (k - 1) as nat, n) % n + 1, n);
        lemma_small_mod(spec_cursor_after(start, k, n) as nat, n as nat);
    }
}

/// Half of the round-robin cycle law: over a catalog of `n` interfaces,
/// starting at cursor `start`, two different ones of `n` consecutive
/// selections land on two different positions — no interface is visited
/// twice within one cycle — and the `(n + 1)`-th selection repeats the
/// first.
pub proof fn lemma_round_robin_distinct(start: int, n: int, k1: int, k2: int)
    requires
        n >= 1,
        0 <= start < n,
        0 <= k1 < k2 < n,
    ensures
        (start + k1) % n != (start + k2) % n,
        (start + n) % n == start,
{
    lemma_small_mod(start as nat, n as nat);
    lemma_mod_add_multiples_vanish(start, n);
    if (start + k1) % n == (start + k2) % n {
        lemma_mod_equivalence(start + k2, start + k1, n);
        lemma_small_mod((k2 - k1) as nat, n as nat);
    }
}

/// The other half of the cycle law: every catalog position `j` is reached
/// within one cycle, namely by the selection `(j + n - start) % n` steps
/// after cursor `start` — together with `lemma_round_robin_distinct`,
/// `n` consecutive selections visit each interface exactly once, in
/// catalog order from the cursor.
pub proof fn lemma_round_robin_covers(start: int, n: int, j: int) -> (k: int)
    requires
        n >= 1,
        0 <= start < n,
        0 <= j < n,
    ensures
        k == (j + n - start) % n,
        0 <= k < n,
        (start + k) % n == j,
{
    lemma_small_mod(j as nat, n as nat);
    if j >= start {
        lemma_small_mod((j - start) as nat, n as nat);
        lemma_mod_add_multiples_vanish(j - start, n);
        assert((j + n - start) % n == j - start);
    } else {
        lemma_small_mod((j + n - start) as nat, n as nat);
        lemma_mod_add_multiples_vanish(j, n);
    }
    (j + n - start) % n
}

/// How latency selection treats a missing metrics entry, on the smallest
/// telling catalog: with two interfaces of which only the first has a
/// sample, the first keeps the packet exactly while its recorded latency
/// does not exceed the no-metrics default; a slower first interface loses
/// to the metrics-less second one.
pub proof fn lemma_latency_default_handling(
    interfaces: Seq<PhysicalInterface>,
    m: Map<u32, PacketMetrics>,
)
    requires
        interfaces.len() == 2,
        m.dom().contains(interfaces[0].index),
        !m.dom().contains(interfaces[1].index),
    ensures
        spec_first_min_index(spec_latency_keys(interfaces, m)) == if m[interfaces[0].index].latency
            <= DEFAULT_LATENCY_MILLIS {
            0int
        } else {
            1int
        },
{
    let keys = spec_latency_keys(interfaces, m);
    assert(keys[0] == m[interfaces[0].index].latency as int);
    assert(keys[1] == DEFAULT_LATENCY_MILLIS as int);
    assert(keys.drop_last().len() == 1);
    assert(spec_first_min_index(keys.drop_last()) == 0);
    assert(keys.last() == keys[1]);
    assert(keys.drop_last()[0] == keys[0]);
}

/// The general default-handling law of latency selection, for a catalog of
/// any size: while any interface holds a sample below the no-metrics
/// default, no metrics-less interface is ever selected — interfaces with
/// metrics always win over interfaces without.
pub proof fn lemma_latency_metrics_beat_default(
    interfaces: Seq<PhysicalInterface>,
    m: Map<u32, PacketMetrics>,
    with_sample: int,
    without_sample: int,
)
    requires
        0 <= with_sample < interfaces.len(),
        0 <= without_sample < interfaces.len(),
        m.dom().contains(interfaces[with_sample].index),
        m[interfaces[with_sample].index].latency < DEFAULT_LATENCY_MILLIS,
        !m.dom().contains(interfaces[without_sample].index),
    ensures
        spec_first_min_index(spec_latency_keys(interfaces, m)) != without_sample,
{
    let keys = spec_latency_keys(interfaces, m);
    lemma_first_min_index_props(keys);
    assert(keys[with_sample] == m[interfaces[with_sample].index].latency as int);
    assert(keys[without_sample] == DEFAULT_LATENCY_MILLIS as int);
}

/// The matching law of the weighted policy: any interface holding a sample
/// scores at least one, a metrics-less interface scores zero, so the
/// selection lands on a metrics-less interface only when no interface
/// anywhere holds metrics.
pub proof fn lemma_score_metrics_beat_default(
    interfaces: Seq<PhysicalInterface>,
    m: Map<u32, PacketMetrics>,
    with_sample: int,
    without_sample: int,
)
    requires
        spec_metrics_wf(m),
        0 <= with_sample < interfaces.len(),
        0 <= without_sample < interfaces.len(),
        m.dom().contains(interfaces[with_sample].index),
        !m.dom().contains(interfaces[without_sample].index),
    ensures
        spec_interface_score(m, interfaces[with_sample].index) >= 1,
        spec_interface_score(m, interfaces[without_sample].index) == 0,
        spec_first_max_index(spec_score_keys(interfaces, m)) != without_sample,
{
    let keys = spec_score_keys(interfaces, m);
    lemma_first_max_index_props(keys);
    let sample = m[interfaces[with_sample].index];
    assert(400_000_000int / (sample.latency + 1) >= 0) by (nonlinear_arith)
        requires
            sample.latency >= 0,
    ;
    assert(400_000int / (sample.bandwidth_usage + 1) >= 0) by (nonlinear_arith)
        requires
            sample.bandwidth_usage >= 0,
    ;
    assert(keys[with_sample] == spec_interface_score(m, interfaces[with_sample].index));
    assert(keys[without_sample] == 0);
}

/// Confidence bounds: one half exactly when an interface has no metrics,
/// and always a ratio (between zero and one) over well-formed samples.
pub proof fn lemma_confidence_properties(m: Map<u32, PacketMetrics>, index: u32)
    requires
        spec_metrics_wf(m),
    ensures
        !m.dom().contains(index) ==> spec_confidence(m, index) == 500,
        0 <= spec_confidence(m, index) <= 1000,
{
}

/// The latency a selection charges an interface.
fn effective_latency(metrics: &HashMap<u32, PacketMetrics>, index: u32) -> (r: u64)
    ensures
        r as int == spec_effective_latency(metrics@, index),
{
    match metrics.get(&index) {
        Some(m) => m.latency,
        None => DEFAULT_LATENCY_MILLIS,
    }
}

/// The bandwidth usage a selection charges an interface.
fn effective_bandwidth(metrics: &HashMap<u32, PacketMetrics>, index: u32) -> (r: u64)
    ensures
        r as int == spec_effective_bandwidth(metrics@, index),
{
    match metrics.get(&index) {
        Some(m) => m.bandwidth_usage,
        None => u64::MAX,
    }
}

/// The weighted score of one interface, in millionths.
fn calculate_interface_score(metrics: &HashMap<u32, PacketMetrics>, index: u32) -> (r: u64)
    requires
        spec_metrics_wf(metrics@),
    ensures
        r as int == spec_interface_score(metrics@, index),
{
    match metrics.get(&index) {
        Some(m) => {
            let latency_score: u64 = (400_000_000u128 / (m.latency as u128 + 1)) as u64;
            let bandwidth_score: u64 = (400_000u128 / (m.bandwidth_usage as u128 + 1)) as u64;
            let reliability_score: u64 = (200 * (1000 - m.packet_loss)) as u64;
            latency_score + bandwidth_score + reliability_score + 1
        },
        None => 0,
    }
}

/// Confidence in a decision over one interface, in thousandths.
fn calculate_confidence(metrics: &HashMap<u32, PacketMetrics>, index: u32) -> (r: u32)
    requires
        spec_metrics_wf(metrics@),
    ensures
        r as int == spec_confidence(metrics@, index),
        r <= 1000,
{
    match metrics.get(&index) {
        Some(m) => {
            let latency_confidence: u32 = if m.latency < 50 {
                900
            } else {
                600
            };
            let loss_confidence: u32 = 1000 - m.packet_loss;
            (latency_confidence + loss_confidence) / 2
        },
        None => 500,
    }
}

/// Which policy each mode name denotes; any other name is rejected.
pub open spec fn spec_parse_mode(s: Seq<char>) -> Result<LoadBalancingMode, EngineError> {
    if s == "round_robin"@ {
        Ok(LoadBalancingMode::RoundRobin)
    } else if s == "latency_based"@ {
        Ok(LoadBalancingMode::LatencyBased)
    } else if s == "bandwidth_based"@ {
        Ok(LoadBalancingMode::BandwidthBased)
    } else if s == "balanced"@ {
        Ok(LoadBalancingMode::Balanced)
    } else {
        Err(EngineError::InvalidMode)
    }
}

/// Parse a policy-mode name as the control surface spells it.
pub fn parse_load_balancing_mode(mode_name: &str) -> (r: Result<LoadBalancingMode, EngineError>)
    ensures
        r == spec_parse_mode(mode_name@),
{
    let owned = mode_name.to_owned();
    if owned == "round_robin".to_owned() {
        Ok(LoadBalancingMode::RoundRobin)
    } else if owned == "latency_based".to_owned() {
        Ok(LoadBalancingMode::LatencyBased)
    } else if owned == "bandwidth_based".to_owned() {
        Ok(LoadBalancingMode::BandwidthBased)
    } else if owned == "balanced".to_owned() {
        Ok(LoadBalancingMode::Balanced)
    } else {
        Err(EngineError::InvalidMode)
    }
}

/// The reason line a decision carries for each policy.
fn reason_for(mode: LoadBalancingMode) -> (r: String)
    ensures
        r@ == spec_reason(mode),
{
    match mode {
        LoadBalancingMode::RoundRobin => "Selected based on RoundRobin strategy".to_owned(),
        LoadBalancingMode::LatencyBased => "Selected based on LatencyBased strategy".to_owned(),
        LoadBalancingMode::BandwidthBased => "Selected based on BandwidthBased strategy".to_owned(),
        LoadBalancingMode::Balanced => "Selected based on Balanced strategy".to_owned(),
    }
}

/// The routing policy engine: the catalog it routes over, the latest
/// metrics snapshot, the active policy and the round-robin cursor.
pub struct PacketRouter {
    pub interface_manager: InterfaceManager,
    pub interface_metrics: HashMap<u32, PacketMetrics>,
    pub load_balancing_mode: LoadBalancingMode,
    pub round_robin_counter: usize,
}

impl PacketRouter {
    /// Every stored sample is a well-formed ratio.
    pub open spec fn wf(&self) -> bool {
        spec_metrics_wf(self.interface_metrics@)
    }

    /// A fresh router over a catalog: no metrics yet, balanced policy,
    /// cursor at the first interface.
    pub fn new(interface_manager: InterfaceManager) -> (r: Self)
        ensures
            r.interface_manager == interface_manager,
            r.interface_metrics@ == Map::<u32, PacketMetrics>::empty(),
            r.load_balancing_mode == LoadBalancingMode::Balanced,
            r.round_robin_counter == 0,
            r.wf(),
    {
        PacketRouter {
            interface_manager,
            interface_metrics: HashMap::new(),
            load_balancing_mode: LoadBalancingMode::Balanced,
            round_robin_counter: 0,
        }
    }

    /// Classify a packet with the size heuristic. Classification never
    /// fails: anything unparseable degrades to `Unknown`.
    pub fn analyze_packet_simple(&self, packet_data: &[u8]) -> (r: Result<
        TrafficInfo,
        EngineError,
    >)
        ensures
            r == Ok::<TrafficInfo, EngineError>(spec_classify_by_size(packet_data@)),
    {
        Ok(classify_by_size(packet_data))
    }

    /// Select the cursor's interface and advance the cursor by one,
    /// wrapping within the catalog.
    fn select_round_robin(&mut self) -> (r: usize)
        requires
            old(self).interface_manager.interfaces@.len() > 0,
        ensures
            r as int == old(self).round_robin_counter as int
                % old(self).interface_manager.interfaces@.len() as int,
            r < old(self).interface_manager.interfaces@.len(),
            final(self).round_robin_counter as int == (r + 1)
                % old(self).interface_manager.interfaces@.len() as int,
            final(self).interface_manager == old(self).interface_manager,
            final(self).interface_metrics == old(self).interface_metrics,
            final(self).load_balancing_mode == old(self).load_balancing_mode,
    {
        let count = self.interface_manager.interfaces.len();
        let position = self.round_robin_counter % count;
        self.round_robin_counter = (position + 1) % count;
        position
    }

    /// Select the interface with the lowest charged latency; the earliest
    /// of several equals wins.
    fn select_by_latency(&self) -> (r: usize)
        requires
            self.interface_manager.interfaces@.len() > 0,
        ensures
            r as int == spec_first_min_index(
                spec_latency_keys(self.interface_manager.interfaces@, self.interface_metrics@),
            ),
            r < self.interface_manager.interfaces@.len(),
    {
        let ghost keys = spec_latency_keys(
            self.interface_manager.interfaces@,
            self.interface_metrics@,
        );
        let interfaces = &self.interface_manager.interfaces;
        let count = interfaces.len();
        let mut best: usize = 0;
        let mut best_key: u64 = effective_latency(&self.interface_metrics, interfaces[0].index);
        for i in 1..count
            invariant
                count == interfaces@.len(),
                keys == spec_latency_keys(interfaces@, self.interface_metrics@),
                best < i <= count,
                best as int == spec_first_min_index(keys.take(i as int)),
                best_key as int == keys[best as int],
        {
            let key = effective_latency(&self.interface_metrics, interfaces[i].index);
            assert(keys.take(i + 1).drop_last() =~= keys.take(i as int));
            assert(keys.take(i + 1).last() == keys[i as int]);
            if key < best_key {
                best = i;
                best_key = key;
            }
        }
        assert(keys.take(count as int) =~= keys);
        best
    }

    /// Select the interface with the lowest charged bandwidth usage (the
    /// most headroom); the earliest of several equals wins.
    fn select_by_bandwidth(&self) -> (r: usize)
        requires
            self.interface_manager.interfaces@.len() > 0,
        ensures
            r as int == spec_first_min_index(
                spec_bandwidth_keys(self.interface_manager.interfaces@, self.interface_metrics@),
            ),
            r < self.interface_manager.interfaces@.len(),
    {
        let ghost keys = spec_bandwidth_keys(
            self.interface_manager.interfaces@,
            self.interface_metrics@,
        );
        let interfaces = &self.interface_manager.interfaces;
        let count = interfaces.len();
        let mut best: usize = 0;
        let mut best_key: u64 = effective_bandwidth(&self.interface_metrics, interfaces[0].index);
        for i in 1..count
            invariant
                count == interfaces@.len(),
                keys == spec_bandwidth_keys(interfaces@, self.interface_metrics@),
                best < i <= count,
                best as int == spec_first_min_index(keys.take(i as int)),
                best_key as int == keys[best as int],
        {
            let key = effective_bandwidth(&self.interface_metrics, interfaces[i].index);
            assert(keys.take(i + 1).drop_last() =~= keys.take(i as int));
            assert(keys.take(i + 1).last() == keys[i as int]);
            if key < best_key {
                best = i;
                best_key = key;
            }
        }
        assert(keys.take(count as int) =~= keys);
        best
    }

    /// Select the interface with the highest weighted score; the earliest
    /// of several equals wins.
    fn select_weighted_best(&self) -> (r: usize)
        requires
            self.interface_manager.interfaces@.len() > 0,
            self.wf(),
        ensures
            r as int == spec_first_max_index(
                spec_score_keys(self.interface_manager.interfaces@, self.interface_metrics@),
            ),
            r < self.interface_manager.interfaces@.len(),
    {
        let ghost keys = spec_score_keys(
            self.interface_manager.interfaces@,
            self.interface_metrics@,
        );
        let interfaces = &self.interface_manager.interfaces;
        let count = interfaces.len();
        let mut best: usize = 0;
        let mut best_key: u64 = calculate_interface_score(
            &self.interface_metrics,
            interfaces[0].index,
        );
        for i in 1..count
            invariant
                count == interfaces@.len(),
                keys == spec_score_keys(interfaces@, self.interface_metrics@),
                self.wf(),
                best < i <= count,
                best as int == spec_first_max_index(keys.take(i as int)),
                best_key as int == keys[best as int],
        {
            let key = calculate_interface_score(&self.interface_metrics, interfaces[i].index);
            assert(keys.take(i + 1).drop_last() =~= keys.take(i as int));
            assert(keys.take(i + 1).last() == keys[i as int]);
            if key > best_key {
                best = i;
                best_key = key;
            }
        }
        assert(keys.take(count as int) =~= keys);
        best
    }

    /// Dispatch a balanced selection on the packet's traffic class: latency
    /// for gaming, bandwidth headroom for streaming and file transfer, the
    /// weighted score for the rest.
    fn select_balanced(&self, traffic_type: TrafficType) -> (r: usize)
        requires
            self.interface_manager.interfaces@.len() > 0,
            self.wf(),
        ensures
            r as int == spec_selected_position(
                LoadBalancingMode::Balanced,
                traffic_type,
                self.interface_manager.interfaces@,
                self.interface_metrics@,
                self.round_robin_counter as int,
            ),
            r < self.interface_manager.interfaces@.len(),
    {
        match traffic_type {
            TrafficType::Gaming => self.select_by_latency(),
            TrafficType::Streaming => self.select_by_bandwidth(),
            TrafficType::File => self.select_by_bandwidth(),
            TrafficType::Web => self.select_weighted_best(),
            TrafficType::Unknown => self.select_weighted_best(),
        }
    }

    /// Route one packet: classify it, select an interface under the active
    /// policy, and report the decision with its confidence. Fails exactly
    /// when the catalog is empty; only the round-robin policy moves any
    /// state, namely its cursor.
    pub fn route_packet(&mut self, packet_data: &[u8]) -> (r: Result<RoutingDecision, EngineError>)
        requires
            old(self).wf(),
        ensures
            final(self).interface_manager == old(self).interface_manager,
            final(self).interface_metrics == old(self).interface_metrics,
            final(self).load_balancing_mode == old(self).load_balancing_mode,
            final(self).wf(),
            ({
                let interfaces = old(self).interface_manager.interfaces@;
                let metrics = old(self).interface_metrics@;
                let mode = old(self).load_balancing_mode;
                let traffic = spec_classify_by_size(packet_data@).traffic_type;
                if interfaces.len() == 0 {
                    &&& r is Err
                    &&& r->Err_0 == EngineError::NoInterfacesAvailable
                    &&& final(self).round_robin_counter == old(self).round_robin_counter
                } else {
                    let position = spec_selected_position(
                        mode,
                        traffic,
                        interfaces,
                        metrics,
                        old(self).round_robin_counter as int,
                    );
                    &&& r is Ok
                    &&& r->Ok_0.interface_index == interfaces[position].index
                    &&& r->Ok_0.interface_name@ == interfaces[position].name@
                    &&& r->Ok_0.confidence as int == spec_confidence(
                        metrics,
                        interfaces[position].index,
                    )
                    &&& r->Ok_0.reason@ == spec_reason(mode)
                    &&& final(self).round_robin_counter as int == if mode
                        is RoundRobin {
                        (position + 1) % interfaces.len() as int
                    } else {
                        old(self).round_robin_counter as int
                    }
                }
            }),
    {
        let traffic_info = match self.analyze_packet_simple(packet_data) {
            Ok(info) => info,
            Err(e) => {
                return Err(e);
            },
        };

        if self.interface_manager.interfaces.len() == 0 {
            return Err(EngineError::NoInterfacesAvailable);
        }

        let position: usize = match self.load_balancing_mode {
            LoadBalancingMode::RoundRobin => self.select_round_robin(),
            LoadBalancingMode::LatencyBased => self.select_by_latency(),
            LoadBalancingMode::BandwidthBased => self.select_by_bandwidth(),
            LoadBalancingMode::Balanced => self.select_balanced(traffic_info.traffic_type),
        };

        let chosen = &self.interface_manager.interfaces[position];
        let confidence = calculate_confidence(&self.interface_metrics, chosen.index);
        Ok(RoutingDecision {
            interface_index: chosen.index,
            interface_name: chosen.name.clone(),
            confidence,
            reason: reason_for(self.load_balancing_mode),
        })
    }

    /// Overwrite the sample for one interface: last write wins, timestamped
    /// with the update instant.
    pub fn update_interface_metrics(
        &mut self,
        interface_index: u32,
        latency: u64,
        bandwidth_usage: u64,
        packet_loss: u32,
        now: u64,
    )
        requires
            packet_loss <= 1000,
        ensures
            final(self).interface_metrics@ == old(self).interface_metrics@.insert(
                interface_index,
                PacketMetrics { latency, bandwidth_usage, packet_loss, last_updated: now },
            ),
            final(self).interface_manager == old(self).interface_manager,
            final(self).load_balancing_mode == old(self).load_balancing_mode,
            final(self).round_robin_counter == old(self).round_robin_counter,
            old(self).wf() ==> final(self).wf(),
    {
        self.interface_metrics.insert(
            interface_index,
            PacketMetrics { latency, bandwidth_usage, packet_loss, last_updated: now },
        );
    }

    /// Switch the active policy; visible to every subsequent routing call.
    pub fn set_load_balancing_mode(&mut self, mode: LoadBalancingMode)
        ensures
            final(self).load_balancing_mode == mode,
            final(self).interface_manager == old(self).interface_manager,
            final(self).interface_metrics == old(self).interface_metrics,
            final(self).round_robin_counter == old(self).round_robin_counter,
            final(self).wf() == old(self).wf(),
    {
        self.load_balancing_mode = mode;
    }

    /// The catalog the router routes over.
    pub fn get_available_interfaces(&self) -> (r: &Vec<PhysicalInterface>)
        ensures
            r == &self.interface_manager.interfaces,
    {
        self.interface_manager.get_all_interfaces()
    }
}

} // verus!
