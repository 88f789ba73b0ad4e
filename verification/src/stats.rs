use vstd::prelude::*;

verus! {

/// The metrics the aggregator tracks. Additive metrics accumulate with a
/// saturating add; `EnginePacketSenderLen` is a high-water-mark gauge that
/// keeps the maximum value it has been offered.
#[derive(Clone, Copy, PartialEq, Eq, Structural, Debug)]
pub enum Metric {
    HeartbeatCount,
    HeartbeatElapsedUs,
    AoiUpdateCount,
    AoiUpdateElapsedUs,
    AoiAccountsReceived,
    PoiUpdateCount,
    PoiUpdateElapsedUs,
    PoiAccountsReceived,
    NumPacketsReceived,
    PacketFilterElapsedUs,
    PacketForwardElapsedUs,
    EnginePacketSenderLen,
    AuthRefreshCount,
    RefreshAuthElapsedUs,
    PacketForwardCount,
    MetricsDelayUs,
    AccountsOfInterestLen,
    ProgramsOfInterestLen,
    FlushElapsedUs,
}

/// Flat counter/gauge registry for the engine relay path. Every field is a
/// cumulative saturating counter except `engine_packet_sender_len`, which is
/// a running maximum.
#[derive(Clone, Copy, PartialEq, Eq, Structural, Debug)]
pub struct EngineStats {
    pub heartbeat_count: u64,
    pub heartbeat_elapsed_us: u64,
    pub aoi_update_count: u64,
    pub aoi_update_elapsed_us: u64,
    pub aoi_accounts_received: u64,
    pub poi_update_count: u64,
    pub poi_update_elapsed_us: u64,
    pub poi_accounts_received: u64,
    pub num_packets_received: u64,
    pub packet_filter_elapsed_us: u64,
    pub packet_forward_elapsed_us: u64,
    pub engine_packet_sender_len: u64,
    pub auth_refresh_count: u64,
    pub refresh_auth_elapsed_us: u64,
    pub packet_forward_count: u64,
    pub metrics_delay_us: u64,
    pub accounts_of_interest_len: u64,
    pub programs_of_interest_len: u64,
    pub flush_elapsed_us: u64,
}

/// The subset of metrics that a periodic reporter logs, as a plain snapshot.
/// Producing it does not reset anything: windowing is the reporter's concern.
#[derive(Clone, Copy, PartialEq, Eq, Structural, Debug)]
pub struct StatsReport {
    pub heartbeat_count: u64,
    pub aoi_update_count: u64,
    pub poi_update_count: u64,
    pub num_packets_received: u64,
    pub packet_filter_elapsed_us: u64,
    pub packet_forward_elapsed_us: u64,
    pub auth_refresh_count: u64,
    pub metrics_delay_us: u64,
    pub flush_elapsed_us: u64,
}

/// Which metric a textual name denotes, or `None` for a name the aggregator
/// does not track (such names are accepted and ignored).
pub open spec fn metric_of(name: Seq<char>) -> Option<Metric> {
    if name == "heartbeat_count"@ {
        Some(Metric::HeartbeatCount)
    } else if name == "heartbeat_elapsed_us"@ {
        Some(Metric::HeartbeatElapsedUs)
    } else if name == "aoi_update_count"@ {
        Some(Metric::AoiUpdateCount)
    } else if name == "aoi_update_elapsed_us"@ {
        Some(Metric::AoiUpdateElapsedUs)
    } else if name == "aoi_accounts_received"@ {
        Some(Metric::AoiAccountsReceived)
    } else if name == "poi_update_count"@ {
        Some(Metric::PoiUpdateCount)
    } else if name == "poi_update_elapsed_us"@ {
        Some(Metric::PoiUpdateElapsedUs)
    } else if name == "poi_accounts_received"@ {
        Some(Metric::PoiAccountsReceived)
    } else if name == "num_packets_received"@ {
        Some(Metric::NumPacketsReceived)
    } else if name == "packet_filter_elapsed_us"@ {
        Some(Metric::PacketFilterElapsedUs)
    } else if name == "packet_forward_elapsed_us"@ {
        Some(Metric::PacketForwardElapsedUs)
    } else if name == "engine_packet_sender_len"@ {
        Some(Metric::EnginePacketSenderLen)
    } else if name == "auth_refresh_count"@ {
        Some(Metric::AuthRefreshCount)
    } else if name == "refresh_auth_elapsed_us"@ {
        Some(Metric::RefreshAuthElapsedUs)
    } else if name == "packet_forward_count"@ {
        Some(Metric::PacketForwardCount)
    } else if name == "metrics_delay_us"@ {
        Some(Metric::MetricsDelayUs)
    } else if name == "accounts_of_interest_len"@ {
        Some(Metric::AccountsOfInterestLen)
    } else if name == "programs_of_interest_len"@ {
        Some(Metric::ProgramsOfInterestLen)
    } else if name == "flush_elapsed_us"@ {
        Some(Metric::FlushElapsedUs)
    } else {
        None
    }
}

/// String equality over the character sequences the two slices denote.
fn str_eq(a: &str, b: &str) -> (r: bool)
    ensures
        r == (a@ == b@),
{
    a.to_owned() == b.to_owned()
}

impl EngineStats {
    pub open spec fn all_zero(self) -> bool {
        &&& self.heartbeat_count == 0
        &&& self.heartbeat_elapsed_us == 0
        &&& self.aoi_update_count == 0
        &&& self.aoi_update_elapsed_us == 0
        &&& self.aoi_accounts_received == 0
        &&& self.poi_update_count == 0
        &&& self.poi_update_elapsed_us == 0
        &&& self.poi_accounts_received == 0
        &&& self.num_packets_received == 0
        &&& self.packet_filter_elapsed_us == 0
        &&& self.packet_forward_elapsed_us == 0
        &&& self.engine_packet_sender_len == 0
        &&& self.auth_refresh_count == 0
        &&& self.refresh_auth_elapsed_us == 0
        &&& self.packet_forward_count == 0
        &&& self.metrics_delay_us == 0
        &&& self.accounts_of_interest_len == 0
        &&& self.programs_of_interest_len == 0
        &&& self.flush_elapsed_us == 0
    }

    /// The registry after one increment: a saturating add into the addressed
    /// cumulative field, a running maximum for the gauge, the identity for an
    /// unrecognized name. Every other field is untouched.
    pub open spec fn incremented(self, m: Option<Metric>, num: u64) -> EngineStats {
        match m {
            None => self,
            Some(Metric::HeartbeatCount) => EngineStats {
                heartbeat_count: self.heartbeat_count.saturating_add(num),
                ..self
            },
            Some(Metric::HeartbeatElapsedUs) => EngineStats {
                heartbeat_elapsed_us: self.heartbeat_elapsed_us.saturating_add(num),
                ..self
            },
            Some(Metric::AoiUpdateCount) => EngineStats {
                aoi_update_count: self.aoi_update_count.saturating_add(num),
                ..self
            },
            Some(Metric::AoiUpdateElapsedUs) => EngineStats {
                aoi_update_elapsed_us: self.aoi_update_elapsed_us.saturating_add(num),
                ..self
            },
            Some(Metric::AoiAccountsReceived) => EngineStats {
                aoi_accounts_received: self.aoi_accounts_received.saturating_add(num),
                ..self
            },
            Some(Metric::PoiUpdateCount) => EngineStats {
                poi_update_count: self.poi_update_count.saturating_add(num),
                ..self
            },
            Some(Metric::PoiUpdateElapsedUs) => EngineStats {
                poi_update_elapsed_us: self.poi_update_elapsed_us.saturating_add(num),
                ..self
            },
            Some(Metric::PoiAccountsReceived) => EngineStats {
                poi_accounts_received: self.poi_accounts_received.saturating_add(num),
                ..self
            },
            Some(Metric::NumPacketsReceived) => EngineStats {
                num_packets_received: self.num_packets_received.saturating_add(num),
                ..self
            },
            Some(Metric::PacketFilterElapsedUs) => EngineStats {
                packet_filter_elapsed_us: self.packet_filter_elapsed_us.saturating_add(num),
                ..self
            },
            Some(Metric::PacketForwardElapsedUs) => EngineStats {
                packet_forward_elapsed_us: self.packet_forward_elapsed_us.saturating_add(num),
                ..self
            },
            Some(Metric::EnginePacketSenderLen) => EngineStats {
                engine_packet_sender_len: if self.engine_packet_sender_len >= num {
                    self.engine_packet_sender_len
                } else {
                    num
                },
                ..self
            },
            Some(Metric::AuthRefreshCount) => EngineStats {
                auth_refresh_count: self.auth_refresh_count.saturating_add(num),
                ..self
            },
            Some(Metric::RefreshAuthElapsedUs) => EngineStats {
                refresh_auth_elapsed_us: self.refresh_auth_elapsed_us.saturating_add(num),
                ..self
            },
            Some(Metric::PacketForwardCount) => EngineStats {
                packet_forward_count: self.packet_forward_count.saturating_add(num),
                ..self
            },
            Some(Metric::MetricsDelayUs) => EngineStats {
                metrics_delay_us: self.metrics_delay_us.saturating_add(num),
                ..self
            },
            Some(Metric::AccountsOfInterestLen) => EngineStats {
                accounts_of_interest_len: self.accounts_of_interest_len.saturating_add(num),
                ..self
            },
            Some(Metric::ProgramsOfInterestLen) => EngineStats {
                programs_of_interest_len: self.programs_of_interest_len.saturating_add(num),
                ..self
            },
            Some(Metric::FlushElapsedUs) => EngineStats {
                flush_elapsed_us: self.flush_elapsed_us.saturating_add(num),
                ..self
            },
        }
    }

    /// Fresh registry with every metric at zero.
    pub fn new() -> (s: EngineStats)
        ensures
            s.all_zero(),
    {
        EngineStats {
            heartbeat_count: 0,
            heartbeat_elapsed_us: 0,
            aoi_update_count: 0,
            aoi_update_elapsed_us: 0,
            aoi_accounts_received: 0,
            poi_update_count: 0,
            poi_update_elapsed_us: 0,
            poi_accounts_received: 0,
            num_packets_received: 0,
            packet_filter_elapsed_us: 0,
            packet_forward_elapsed_us: 0,
            engine_packet_sender_len: 0,
            auth_refresh_count: 0,
            refresh_auth_elapsed_us: 0,
            packet_forward_count: 0,
            metrics_delay_us: 0,
            accounts_of_interest_len: 0,
            programs_of_interest_len: 0,
            flush_elapsed_us: 0,
        }
    }

    /// Which metric, if any, a name addresses.
    pub fn parse_metric(field: &str) -> (m: Option<Metric>)
        ensures
            m == metric_of(field@),
    {
        if str_eq(field, "heartbeat_count") {
            Some(Metric::HeartbeatCount)
        } else if str_eq(field, "heartbeat_elapsed_us") {
            Some(Metric::HeartbeatElapsedUs)
        } else if str_eq(field, "aoi_update_count") {
            Some(Metric::AoiUpdateCount)
        } else if str_eq(field, "aoi_update_elapsed_us") {
            Some(Metric::AoiUpdateElapsedUs)
        } else if str_eq(field, "aoi_accounts_received") {
            Some(Metric::AoiAccountsReceived)
        } else if str_eq(field, "poi_update_count") {
            Some(Metric::PoiUpdateCount)
        } else if str_eq(field, "poi_update_elapsed_us") {
            Some(Metric::PoiUpdateElapsedUs)
        } else if str_eq(field, "poi_accounts_received") {
            Some(Metric::PoiAccountsReceived)
        } else if str_eq(field, "num_packets_received") {
            Some(Metric::NumPacketsReceived)
        } else if str_eq(field, "packet_filter_elapsed_us") {
            Some(Metric::PacketFilterElapsedUs)
        } else if str_eq(field, "packet_forward_elapsed_us") {
            Some(Metric::PacketForwardElapsedUs)
        } else if str_eq(field, "engine_packet_sender_len") {
            Some(Metric::EnginePacketSenderLen)
        } else if str_eq(field, "auth_refresh_count") {
            Some(Metric::AuthRefreshCount)
        } else if str_eq(field, "refresh_auth_elapsed_us") {
            Some(Metric::RefreshAuthElapsedUs)
        } else if str_eq(field, "packet_forward_count") {
            Some(Metric::PacketForwardCount)
        } else if str_eq(field, "metrics_delay_us") {
            Some(Metric::MetricsDelayUs)
        } else if str_eq(field, "accounts_of_interest_len") {
            Some(Metric::AccountsOfInterestLen)
        } else if str_eq(field, "programs_of_interest_len") {
            Some(Metric::ProgramsOfInterestLen)
        } else if str_eq(field, "flush_elapsed_us") {
            Some(Metric::FlushElapsedUs)
        } else {
            None
        }
    }

    /// Add `num` into the metric named `field`: saturating accumulation for
    /// counters, running maximum for the gauge, and a no-op for a name the
    /// registry does not track.
    pub fn increment(&mut self, field: &str, num: u64)
        ensures
            *final(self) == old(self).incremented(metric_of(field@), num),
    {
        let m = Self::parse_metric(field);
        match m {
            None => {},
            Some(Metric::HeartbeatCount) => {
                self.heartbeat_count = self.heartbeat_count.saturating_add(num);
            },
            Some(Metric::HeartbeatElapsedUs) => {
                self.heartbeat_elapsed_us = self.heartbeat_elapsed_us.saturating_add(num);
            },
            Some(Metric::AoiUpdateCount) => {
                self.aoi_update_count = self.aoi_update_count.saturating_add(num);
            },
            Some(Metric::AoiUpdateElapsedUs) => {
                self.aoi_update_elapsed_us = self.aoi_update_elapsed_us.saturating_add(num);
            },
            Some(Metric::AoiAccountsReceived) => {
                self.aoi_accounts_received = self.aoi_accounts_received.saturating_add(num);
            },
            Some(Metric::PoiUpdateCount) => {
                self.poi_update_count = self.poi_update_count.saturating_add(num);
            },
            Some(Metric::PoiUpdateElapsedUs) => {
                self.poi_update_elapsed_us = self.poi_update_elapsed_us.saturating_add(num);
            },
            Some(Metric::PoiAccountsReceived) => {
                self.poi_accounts_received = self.poi_accounts_received.saturating_add(num);
            },
            Some(Metric::NumPacketsReceived) => {
                self.num_packets_received = self.num_packets_received.saturating_add(num);
            },
            Some(Metric::PacketFilterElapsedUs) => {
                self.packet_filter_elapsed_us = self.packet_filter_elapsed_us.saturating_add(num);
            },
            Some(Metric::PacketForwardElapsedUs) => {
                self.packet_forward_elapsed_us = self.packet_forward_elapsed_us.saturating_add(
                    num,
                );
            },
            Some(Metric::EnginePacketSenderLen) => {
                if num > self.engine_packet_sender_len {
                    self.engine_packet_sender_len = num;
                }
            },
            Some(Metric::AuthRefreshCount) => {
                self.auth_refresh_count = self.auth_refresh_count.saturating_add(num);
            },
            Some(Metric::RefreshAuthElapsedUs) => {
                self.refresh_auth_elapsed_us = self.refresh_auth_elapsed_us.saturating_add(num);
            },
            Some(Metric::PacketForwardCount) => {
                self.packet_forward_count = self.packet_forward_count.saturating_add(num);
            },
            Some(Metric::MetricsDelayUs) => {
                self.metrics_delay_us = self.metrics_delay_us.saturating_add(num);
            },
            Some(Metric::AccountsOfInterestLen) => {
                self.accounts_of_interest_len = self.accounts_of_interest_len.saturating_add(num);
            },
            Some(Metric::ProgramsOfInterestLen) => {
                self.programs_of_interest_len = self.programs_of_interest_len.saturating_add(num);
            },
            Some(Metric::FlushElapsedUs) => {
                self.flush_elapsed_us = self.flush_elapsed_us.saturating_add(num);
            },
        }
    }

    /// Read-only snapshot of the reported metrics; the registry itself is
    /// untouched (no reset).
    pub fn report(&self) -> (r: StatsReport)
        ensures
            r.heartbeat_count == self.heartbeat_count,
            r.aoi_update_count == self.aoi_update_count,
            r.poi_update_count == self.poi_update_count,
            r.num_packets_received == self.num_packets_received,
            r.packet_filter_elapsed_us == self.packet_filter_elapsed_us,
            r.packet_forward_elapsed_us == self.packet_forward_elapsed_us,
            r.auth_refresh_count == self.auth_refresh_count,
            r.metrics_delay_us == self.metrics_delay_us,
            r.flush_elapsed_us == self.flush_elapsed_us,
    {
        StatsReport {
            heartbeat_count: self.heartbeat_count,
            aoi_update_count: self.aoi_update_count,
            poi_update_count: self.poi_update_count,
            num_packets_received: self.num_packets_received,
            packet_filter_elapsed_us: self.packet_filter_elapsed_us,
            packet_forward_elapsed_us: self.packet_forward_elapsed_us,
            auth_refresh_count: self.auth_refresh_count,
            metrics_delay_us: self.metrics_delay_us,
            flush_elapsed_us: self.flush_elapsed_us,
        }
    }
}

impl Default for EngineStats {
    /// Same value as `EngineStats::new`: every metric at zero.
    fn default() -> (s: EngineStats)
        ensures
            s.all_zero(),
    {
        EngineStats::new()
    }
}

/// A cumulative metric never decreases, whatever name and amount an update
/// carries: an increment saturates at `u64::MAX` instead of wrapping, and the
/// gauge keeps its running maximum.
pub proof fn lemma_increment_never_decreases(s: EngineStats, m: Option<Metric>, num: u64)
    ensures
        s.incremented(m, num).heartbeat_count >= s.heartbeat_count,
        s.incremented(m, num).heartbeat_elapsed_us >= s.heartbeat_elapsed_us,
        s.incremented(m, num).aoi_update_count >= s.aoi_update_count,
        s.incremented(m, num).aoi_update_elapsed_us >= s.aoi_update_elapsed_us,
        s.incremented(m, num).aoi_accounts_received >= s.aoi_accounts_received,
        s.incremented(m, num).poi_update_count >= s.poi_update_count,
        s.incremented(m, num).poi_update_elapsed_us >= s.poi_update_elapsed_us,
        s.incremented(m, num).poi_accounts_received >= s.poi_accounts_received,
        s.incremented(m, num).num_packets_received >= s.num_packets_received,
        s.incremented(m, num).packet_filter_elapsed_us >= s.packet_filter_elapsed_us,
        s.incremented(m, num).packet_forward_elapsed_us >= s.packet_forward_elapsed_us,
        s.incremented(m, num).engine_packet_sender_len >= s.engine_packet_sender_len,
        s.incremented(m, num).auth_refresh_count >= s.auth_refresh_count,
        s.incremented(m, num).refresh_auth_elapsed_us >= s.refresh_auth_elapsed_us,
        s.incremented(m, num).packet_forward_count >= s.packet_forward_count,
        s.incremented(m, num).metrics_delay_us >= s.metrics_delay_us,
        s.incremented(m, num).accounts_of_interest_len >= s.accounts_of_interest_len,
        s.incremented(m, num).programs_of_interest_len >= s.programs_of_interest_len,
        s.incremented(m, num).flush_elapsed_us >= s.flush_elapsed_us,
{
}

/// A saturated cumulative metric stays saturated: once a counter stands at
/// `u64::MAX`, further increments leave it there rather than wrapping.
pub proof fn lemma_cumulative_saturates(a: u64, b: u64)
    ensures
        a.saturating_add(b) >= a,
        a.saturating_add(b) >= b,
        a == u64::MAX ==> a.saturating_add(b) == u64::MAX,
{
}

} // verus!
