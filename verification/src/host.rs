//! Per-host running statistics and the events that feed them.

use std::io::ErrorKind;
use vstd::prelude::*;

verus! {

/// `std::io::ErrorKind`, the classification of an I/O error. The library stores
/// such a value and hands it back, and never looks inside: nothing is claimed
/// of it.
#[verifier::external_type_specification]
#[verifier::external_body]
pub struct ExErrorKind(std::io::ErrorKind);

/// A resolved socket address, as plain numbers. Two addresses are the same where
/// the family and every field agree.
#[derive(Debug, Clone, Copy, PartialEq, Eq, Structural)]
#[allow(inconsistent_fields)]
pub enum HostAddress {
    /// An IPv4 address (its four octets as one big-endian number) and a port.
    V4 { ip: u32, port: u16 },
    /// An IPv6 address (its sixteen octets as one big-endian number), a port,
    /// the flow information and the scope.
    V6 { ip: u128, port: u16, flowinfo: u32, scope_id: u32 },
}

impl HostAddress {
    /// Whether this is an IPv4 address.
    pub fn is_ipv4(&self) -> (r: bool)
        ensures
            r == (*self is V4),
    {
        match self {
            HostAddress::V4 { .. } => true,
            HostAddress::V6 { .. } => false,
        }
    }

    /// Whether this is an IPv6 address.
    pub fn is_ipv6(&self) -> (r: bool)
        ensures
            r == (*self is V6),
    {
        match self {
            HostAddress::V4 { .. } => false,
            HostAddress::V6 { .. } => true,
        }
    }
}

/// What the sender and the receiver report to the one owner of the table of
/// hosts. The first field is the index of the host in that table.
#[derive(Debug, Clone, Copy, PartialEq, Eq)]
pub enum StatusUpdate {
    /// An echo request went out.
    Sent(usize),
    /// A reply came back; the second field is the latency in microseconds.
    Received(usize, u64),
    /// Sending failed.
    Error(usize, ErrorKind),
}

impl StatusUpdate {
    /// The index of the host that the update is about.
    pub open spec fn host_index(self) -> usize {
        match self {
            StatusUpdate::Sent(i) => i,
            StatusUpdate::Received(i, _) => i,
            StatusUpdate::Error(i, _) => i,
        }
    }

    /// Whether the sender emits updates of this kind. The receiver emits the
    /// others, the `Received` ones.
    pub open spec fn from_sender(self) -> bool {
        self is Sent || self is Error
    }

    /// The update that the sender emits for host `index` after one attempt to
    /// send: `Error` with the kind of the failure, or `Sent`.
    pub fn from_send_outcome(index: usize, failure: Option<ErrorKind>) -> (update: StatusUpdate)
        ensures
            update == (match failure {
                Some(kind) => StatusUpdate::Error(index, kind),
                None => StatusUpdate::Sent(index),
            }),
    {
        match failure {
            Some(kind) => StatusUpdate::Error(index, kind),
            None => StatusUpdate::Sent(index),
        }
    }
}

/// The running statistics of one monitored host. Times are in microseconds.
#[derive(Clone, Debug)]
pub struct HostInfo {
    /// The host as the user wrote it, kept for display.
    pub host_str: String,
    /// The resolved address; replies are matched to the host by it.
    pub host: HostAddress,
    pub pings_sent: u32,
    pub latest_time: Option<u64>,
    pub sum_times: u64,
    /// Sum of the squared latencies, in square microseconds; it stays at the
    /// largest value once the sum no longer fits.
    pub sum_squared_times_us: u128,
    pub min_time: Option<u64>,
    pub max_time: Option<u64>,
    pub successful: u32,
    pub last_error: Option<ErrorKind>,
}

/// The mathematical content of a [`HostInfo`]: counters and sums without a
/// machine limit, but for the sum of squares, which is capped.
#[verifier::ext_equal]
pub struct HostStats {
    pub host_str: Seq<char>,
    pub host: HostAddress,
    pub pings_sent: nat,
    pub latest_time: Option<nat>,
    pub sum_times: nat,
    pub sum_squared_times_us: nat,
    pub min_time: Option<nat>,
    pub max_time: Option<nat>,
    pub successful: nat,
    pub last_error: Option<ErrorKind>,
}

/// A time that may be absent, as a natural number.
pub open spec fn time_view(time: Option<u64>) -> Option<nat> {
    match time {
        Some(t) => Some(t as nat),
        None => None,
    }
}

impl View for HostInfo {
    type V = HostStats;

    open spec fn view(&self) -> HostStats {
        HostStats {
            host_str: self.host_str@,
            host: self.host,
            pings_sent: self.pings_sent as nat,
            latest_time: time_view(self.latest_time),
            sum_times: self.sum_times as nat,
            sum_squared_times_us: self.sum_squared_times_us as nat,
            min_time: time_view(self.min_time),
            max_time: time_view(self.max_time),
            successful: self.successful as nat,
            last_error: self.last_error,
        }
    }
}

/// The smaller of a new latency and the least one so far.
pub open spec fn lower(bound: Option<nat>, latency: nat) -> Option<nat> {
    match bound {
        Some(b) => if latency < b {
            Some(latency)
        } else {
            Some(b)
        },
        None => Some(latency),
    }
}

/// The larger of a new latency and the greatest one so far.
pub open spec fn higher(bound: Option<nat>, latency: nat) -> Option<nat> {
    match bound {
        Some(b) => if latency > b {
            Some(latency)
        } else {
            Some(b)
        },
        None => Some(latency),
    }
}

/// A sum of squares, capped at the largest value of 128 bits.
pub open spec fn capped(sum: nat) -> nat {
    if sum > u128::MAX {
        u128::MAX as nat
    } else {
        sum
    }
}

impl HostStats {
    /// The statistics of a host to which nothing has happened yet.
    pub open spec fn fresh(host_str: Seq<char>, host: HostAddress) -> HostStats {
        HostStats {
            host_str,
            host,
            pings_sent: 0,
            latest_time: None,
            sum_times: 0,
            sum_squared_times_us: 0,
            min_time: None,
            max_time: None,
            successful: 0,
            last_error: None,
        }
    }

    /// After one more request went out.
    pub open spec fn sent(self) -> HostStats {
        HostStats { pings_sent: self.pings_sent + 1, ..self }
    }

    /// After one more reply came back, `latency` microseconds after its request.
    pub open spec fn received(self, latency: nat) -> HostStats {
        HostStats {
            successful: self.successful + 1,
            last_error: None,
            latest_time: Some(latency),
            sum_times: self.sum_times + latency,
            sum_squared_times_us: capped(self.sum_squared_times_us + latency * latency),
            min_time: lower(self.min_time, latency),
            max_time: higher(self.max_time, latency),
            ..self
        }
    }

    /// After sending failed with an error of kind `kind`.
    pub open spec fn failed(self, kind: ErrorKind) -> HostStats {
        HostStats { last_error: Some(kind), ..self }
    }

    /// The statistics after one update; the index in the update is not read.
    pub open spec fn apply(self, update: StatusUpdate) -> HostStats {
        match update {
            StatusUpdate::Sent(_) => self.sent(),
            StatusUpdate::Received(_, latency) => self.received(latency as nat),
            StatusUpdate::Error(_, kind) => self.failed(kind),
        }
    }

    /// The statistics after a sequence of updates, the first one applied first.
    pub open spec fn apply_all(self, updates: Seq<StatusUpdate>) -> HostStats
        decreases updates.len(),
    {
        if updates.len() == 0 {
            self
        } else {
            self.apply(updates[0]).apply_all(updates.drop_first())
        }
    }

    /// The statistics with the last error forgotten.
    pub open spec fn without_error(self) -> HostStats {
        HostStats { last_error: None, ..self }
    }

    /// Whether the counters and the sum of latencies fit the fields of a
    /// [`HostInfo`].
    pub open spec fn representable(self) -> bool {
        &&& self.pings_sent <= u32::MAX
        &&& self.successful <= u32::MAX
        &&& self.sum_times <= u64::MAX
    }

    /// What holds of the statistics of every host that started fresh: the latest,
    /// least and greatest latency are there exactly once a reply has come, the
    /// latest lies between the other two, and without a reply the sums are zero.
    pub open spec fn wf(self) -> bool {
        &&& (self.successful > 0 <==> self.latest_time is Some)
        &&& (self.min_time is Some <==> self.latest_time is Some)
        &&& (self.max_time is Some <==> self.latest_time is Some)
        &&& (self.latest_time is Some ==> self.min_time->Some_0 <= self.latest_time->Some_0
            <= self.max_time->Some_0)
        &&& (self.successful == 0 ==> self.sum_times == 0 && self.sum_squared_times_us == 0)
    }

    /// The share of requests without a reply, in percent, rounded down. There is
    /// none while no request went out, nor where more replies than requests
    /// were counted.
    pub open spec fn loss_percent(self) -> Option<nat> {
        if self.pings_sent == 0 || self.successful > self.pings_sent {
            None
        } else {
            Some(((self.pings_sent - self.successful) * 100 / (self.pings_sent as int)) as nat)
        }
    }
}

/// Every update keeps what holds of a record that started fresh.
pub proof fn lemma_apply_preserves_wf(stats: HostStats, update: StatusUpdate)
    requires
        stats.wf(),
    ensures
        stats.apply(update).wf(),
        HostStats::fresh(stats.host_str, stats.host).wf(),
{
}

/// The sums never decrease, and only a reply changes them; a reply clears the
/// last error.
pub proof fn lemma_sums_only_grow(stats: HostStats, update: StatusUpdate)
    requires
        stats.sum_squared_times_us <= u128::MAX,
    ensures
        stats.apply(update).sum_times >= stats.sum_times,
        stats.apply(update).sum_squared_times_us >= stats.sum_squared_times_us,
        !(update is Received) ==> stats.apply(update).sum_times == stats.sum_times
            && stats.apply(update).sum_squared_times_us == stats.sum_squared_times_us,
        update is Received ==> stats.apply(update).last_error is None,
{
    if let StatusUpdate::Received(_, latency) = update {
        assert(latency * latency >= 0) by (nonlinear_arith);
    }
}

impl HostStats {
    /// The mean latency in microseconds, rounded down. There is none before the
    /// first reply.
    pub open spec fn average(self) -> Option<nat> {
        if self.successful == 0 {
            None
        } else {
            Some(self.sum_times / self.successful)
        }
    }

    /// The variance of the latencies, multiplied by the square of their number:
    /// the number of replies times the sum of the squares, less the square of
    /// the sum.
    pub open spec fn scaled_variance(self) -> int {
        self.successful * self.sum_squared_times_us - self.sum_times * self.sum_times
    }

    /// Whether the jitter can be told: there is a reply, the sums do not
    /// contradict each other, and their product fits 128 bits.
    pub open spec fn has_jitter(self) -> bool {
        &&& self.successful > 0
        &&& self.successful * self.sum_squared_times_us <= u128::MAX
        &&& self.scaled_variance() >= 0
    }

    /// Whether `jitter` is the standard deviation of the latencies, in
    /// microseconds, rounded down: the deviation is the square root of the
    /// variance, so it lies between `jitter` and `jitter + 1` where the scaled
    /// variance lies between the squares of these two, scaled alike.
    pub open spec fn is_jitter(self, jitter: nat) -> bool {
        (jitter * self.successful) * (jitter * self.successful) <= self.scaled_variance() < ((jitter
            + 1) * self.successful) * ((jitter + 1) * self.successful)
    }

    /// The jitter: the standard deviation of the latencies, in microseconds,
    /// rounded down, where it can be told.
    pub open spec fn jitter(self) -> Option<nat> {
        if self.has_jitter() {
            Some(choose|jitter: nat| self.is_jitter(jitter))
        } else {
            None
        }
    }
}

/// No two numbers are the jitter of the same statistics.
pub proof fn lemma_jitter_is_unique(stats: HostStats, one: nat, other: nat)
    requires
        stats.successful > 0,
        stats.is_jitter(one),
        stats.is_jitter(other),
    ensures
        one == other,
{
    let n = stats.successful as int;
    if one < other {
        assert((one + 1) * n <= other * n) by (nonlinear_arith)
            requires
                one + 1 <= other,
                n > 0,
        ;
        assert(0 <= (one + 1) * n) by (nonlinear_arith)
            requires
                one >= 0,
                n > 0,
        ;
        lemma_square_monotone((one + 1) * n, other * n);
    } else if other < one {
        assert((other + 1) * n <= one * n) by (nonlinear_arith)
            requires
                other + 1 <= one,
                n > 0,
        ;
        assert(0 <= (other + 1) * n) by (nonlinear_arith)
            requires
                other >= 0,
                n > 0,
        ;
        lemma_square_monotone((other + 1) * n, one * n);
    }
}

/// The square of a smaller number is not greater.
proof fn lemma_square_monotone(a: int, b: int)
    by (nonlinear_arith)
    requires
        0 <= a <= b,
    ensures
        a * a <= b * b,
{
}

/// A quotient, multiplied back, brackets the dividend.
proof fn lemma_quotient_brackets(x: int, d: int)
    by (nonlinear_arith)
    requires
        0 <= x,
        0 < d,
    ensures
        (x / d) * d <= x < (x / d + 1) * d,
        0 <= x / d <= x,
{
}

/// The square root of `x`, rounded down.
pub fn floor_sqrt(x: u128) -> (root: u64)
    ensures
        root * root <= x < (root + 1) * (root + 1),
{
    let mut low: u128 = 0;
    let mut high: u128 = 0x1_0000_0000_0000_0000;
    assert(high * high > x) by (nonlinear_arith)
        requires
            high == 0x1_0000_0000_0000_0000,
            x <= u128::MAX,
    ;
    while high - low > 1
        invariant
            low < high <= 0x1_0000_0000_0000_0000,
            low * low <= x < high * high,
        decreases high - low,
    {
        let middle: u128 = low + (high - low) / 2;
        assert(middle * middle <= 0xFFFF_FFFF_FFFF_FFFF * 0xFFFF_FFFF_FFFF_FFFF) by (nonlinear_arith)
            requires
                middle <= 0xFFFF_FFFF_FFFF_FFFF,
        ;
        if middle * middle <= x {
            low = middle;
        } else {
            high = middle;
        }
    }
    low as u64
}

/// How grave the loss of a host is.
#[derive(Debug, Clone, Copy, PartialEq, Eq, Structural)]
pub enum LossLevel {
    /// There is no loss percentage.
    NoData,
    /// Less than 10 percent.
    Low,
    /// From 10 to 50 percent.
    Moderate,
    /// More than 50 percent.
    High,
}

impl HostStats {
    /// How grave the loss is.
    pub open spec fn loss_level(self) -> LossLevel {
        match self.loss_percent() {
            None => LossLevel::NoData,
            Some(percent) => if percent < 10 {
                LossLevel::Low
            } else if percent <= 50 {
                LossLevel::Moderate
            } else {
                LossLevel::High
            },
        }
    }
}

/// A time in microseconds that may be absent, in whole milliseconds.
pub open spec fn millis(microseconds: Option<nat>) -> Option<nat> {
    match microseconds {
        Some(t) => Some(t / 1000),
        None => None,
    }
}

/// Turns a time in microseconds that may be absent into whole milliseconds.
pub fn to_sec(microseconds: Option<u64>) -> (r: Option<u64>)
    ensures
        time_view(r) == millis(time_view(microseconds)),
{
    match microseconds {
        Some(t) => Some(t / 1000),
        None => None,
    }
}

/// The views of the hosts of a table, in order.
pub open spec fn table_view(table: Seq<HostInfo>) -> Seq<HostStats> {
    Seq::new(table.len(), |i: int| table[i]@)
}

/// The table after one update: the host at the update's index has the update
/// applied, every other host is as it was. An update for a host that the table
/// does not have changes nothing.
pub open spec fn apply_to_table(table: Seq<HostStats>, update: StatusUpdate) -> Seq<HostStats> {
    let i = update.host_index() as int;
    if i < table.len() {
        table.update(i, table[i].apply(update))
    } else {
        table
    }
}

/// The table after a sequence of updates, the first one applied first.
pub open spec fn apply_all_to_table(table: Seq<HostStats>, updates: Seq<StatusUpdate>) -> Seq<
    HostStats,
>
    decreases updates.len(),
{
    if updates.len() == 0 {
        table
    } else {
        apply_all_to_table(apply_to_table(table, updates[0]), updates.drop_first())
    }
}

impl HostInfo {
    /// Creates the record of the host that the user named as `host`, from the
    /// addresses that the name resolved to: the last of them is taken. Without
    /// any address there is no record.
    pub fn new(host: &str, resolved: &[HostAddress]) -> (r: Option<HostInfo>)
        ensures
            r is Some <==> resolved@.len() > 0,
            r is Some ==> r->Some_0@ == HostStats::fresh(host@, resolved@.last()),
            r is Some ==> r->Some_0@.wf(),
    {
        let n: usize = resolved.len();
        if n == 0 {
            return None;
        }
        Some(
            HostInfo {
                host_str: host.to_owned(),
                host: resolved[n - 1],
                pings_sent: 0,
                latest_time: None,
                sum_times: 0,
                sum_squared_times_us: 0,
                min_time: None,
                max_time: None,
                successful: 0,
                last_error: None,
            },
        )
    }

    /// Folds one update into the record.
    pub fn record(&mut self, update: &StatusUpdate)
        requires
            old(self)@.apply(*update).representable(),
        ensures
            final(self)@ == old(self)@.apply(*update),
            old(self)@.wf() ==> final(self)@.wf(),
    {
        match update {
            StatusUpdate::Sent(_) => {
                self.pings_sent = self.pings_sent + 1;
            },
            StatusUpdate::Received(_, latency) => {
                let latency: u64 = *latency;
                let wide: u128 = latency as u128;
                assert(wide * wide <= u128::MAX) by (nonlinear_arith)
                    requires
                        wide <= u64::MAX,
                ;
                self.last_error = None;
                self.successful = self.successful + 1;
                self.latest_time = Some(latency);
                self.sum_times = self.sum_times + latency;
                self.sum_squared_times_us = self.sum_squared_times_us.saturating_add(wide * wide);
                self.min_time = match self.min_time {
                    Some(min) if min <= latency => Some(min),
                    _ => Some(latency),
                };
                self.max_time = match self.max_time {
                    Some(max) if max >= latency => Some(max),
                    _ => Some(latency),
                };
            },
            StatusUpdate::Error(_, kind) => {
                self.last_error = Some(*kind);
            },
        }
    }

    /// The share of requests without a reply, in percent, rounded down; `None`
    /// stands for "no data" and is not a loss of zero percent.
    pub fn loss_percent(&self) -> (r: Option<u32>)
        ensures
            self@.loss_percent() == (match r {
                Some(p) => Some(p as nat),
                None => None,
            }),
            self.pings_sent == 0 ==> r is None,
            r is Some ==> r->Some_0 <= 100,
    {
        if self.pings_sent == 0 || self.successful > self.pings_sent {
            return None;
        }
        let lost: u64 = (self.pings_sent - self.successful) as u64;
        let total: u64 = self.pings_sent as u64;
        assert((lost * 100) as int / (total as int) <= 100) by (nonlinear_arith)
            requires
                lost <= total,
                total > 0,
        ;
        Some((lost * 100 / total) as u32)
    }
}

impl HostInfo {
    /// The mean latency in microseconds, rounded down; `None` stands for "not
    /// enough data", which is the case before the first reply.
    pub fn average(&self) -> (r: Option<u64>)
        ensures
            time_view(r) == self@.average(),
            self.successful == 0 ==> r is None,
    {
        if self.successful == 0 {
            return None;
        }
        Some(self.sum_times / (self.successful as u64))
    }

    /// The jitter, that is the standard deviation of the latencies, in
    /// microseconds, rounded down; `None` stands for "not enough data", which is
    /// the case before the first reply, and where the sums contradict each
    /// other or are too large to tell.
    pub fn jitter(&self) -> (r: Option<u64>)
        ensures
            time_view(r) == self@.jitter(),
            r is Some ==> self@.is_jitter(r->Some_0 as nat),
            self.successful == 0 ==> r is None,
    {
        if self.successful == 0 {
            return None;
        }
        let count: u128 = self.successful as u128;
        let sum: u128 = self.sum_times as u128;
        assert(sum * sum <= u128::MAX) by (nonlinear_arith)
            requires
                sum <= u64::MAX,
        ;
        let squared_sum: u128 = sum * sum;
        let scaled_squares: u128 = match count.checked_mul(self.sum_squared_times_us) {
            Some(product) => product,
            None => {
                return None;
            },
        };
        if scaled_squares < squared_sum {
            return None;
        }
        let root: u64 = floor_sqrt(scaled_squares - squared_sum);
        let jitter: u64 = root / (self.successful as u64);
        proof {
            let n = self.successful as int;
            let j = jitter as int;
            lemma_quotient_brackets(root as int, n);
            lemma_square_monotone(j * n, root as int);
            lemma_square_monotone(root + 1, (j + 1) * n);
            assert(self@.is_jitter(jitter as nat));
            lemma_jitter_is_unique(
                self@,
                jitter as nat,
                choose|other: nat| self@.is_jitter(other),
            );
        }
        Some(jitter)
    }
}

impl HostInfo {
    /// How grave the loss of this host is.
    pub fn loss_level(&self) -> (r: LossLevel)
        ensures
            r == self@.loss_level(),
    {
        match self.loss_percent() {
            None => LossLevel::NoData,
            Some(percent) => if percent < 10 {
                LossLevel::Low
            } else if percent <= 50 {
                LossLevel::Moderate
            } else {
                LossLevel::High
            },
        }
    }
}

/// Folds one update into the table of hosts: into the host at the update's
/// index, and into no other.
pub fn update_host_info(update: &StatusUpdate, hinfos: &mut [HostInfo])
    requires
        update.host_index() < old(hinfos)@.len(),
        old(hinfos)@[update.host_index() as int]@.apply(*update).representable(),
    ensures
        final(hinfos)@.len() == old(hinfos)@.len(),
        final(hinfos)@[update.host_index() as int]@ == old(hinfos)@[update.host_index() as int]@.apply(
            *update,
        ),
        forall|j: int|
            #![trigger final(hinfos)@[j]]
            0 <= j < old(hinfos)@.len() && j != update.host_index() ==> final(hinfos)@[j] == old(
                hinfos,
            )@[j],
        forall|j: int|
            #![trigger final(hinfos)@[j]]
            0 <= j < old(hinfos)@.len() && old(hinfos)@[j]@.wf() ==> final(hinfos)@[j]@.wf(),
        table_view(final(hinfos)@) == apply_to_table(table_view(old(hinfos)@), *update),
{
    let i: usize = match update {
        StatusUpdate::Sent(i) => *i,
        StatusUpdate::Received(i, _) => *i,
        StatusUpdate::Error(i, _) => *i,
    };
    hinfos[i].record(update);
    assert(table_view(hinfos@) =~= apply_to_table(table_view(old(hinfos)@), *update));
}

} // verus!
