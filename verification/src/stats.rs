//! The counters of a session, and the data points that they are reported as.
use vstd::prelude::*;

verus! {

/// What a session has done since its counters were last reported.
#[derive(Clone, Copy, Debug, PartialEq, Eq)]
pub struct PbsStageStats {
    pub num_bundles: u64,
    pub num_bundle_packets: u64,
    pub num_missing_deadlines: u64,
    pub num_empty_packet_batches: u64,
    pub num_sanitized_transactions: u64,
    pub num_empty_tx_batches: u64,
    pub num_simulated_transactions: u64,
}

/// One measurement: a field of a series, and its value.
#[derive(Clone, Debug)]
pub struct DataPoint {
    pub name: &'static str,
    pub field: &'static str,
    pub value: i64,
}

/// What a [`DataPoint`] holds.
#[verifier::ext_equal]
pub struct DataPointView {
    pub name: Seq<char>,
    pub field: Seq<char>,
    pub value: i64,
}

impl View for DataPoint {
    type V = DataPointView;

    open spec fn view(&self) -> DataPointView {
        DataPointView { name: self.name@, field: self.field@, value: self.value }
    }
}

/// What each of a list of data points holds.
pub open spec fn points_view(points: Seq<DataPoint>) -> Seq<DataPointView> {
    points.map_values(|point: DataPoint| point@)
}

/// A field of the series of this stage; the counter is reported as a signed number of the same
/// width.
pub open spec fn stats_point(field: Seq<char>, counter: u64) -> DataPointView {
    DataPointView { name: "pbs_stage-stats"@, field, value: counter as i64 }
}

/// A counter that stops at the largest number it can hold.
pub open spec fn saturating_sum(counter: u64, more: nat) -> u64 {
    if counter + more > u64::MAX {
        u64::MAX
    } else {
        (counter + more) as u64
    }
}

/// All counters at zero.
pub open spec fn no_stats() -> PbsStageStats {
    PbsStageStats {
        num_bundles: 0,
        num_bundle_packets: 0,
        num_missing_deadlines: 0,
        num_empty_packet_batches: 0,
        num_sanitized_transactions: 0,
        num_empty_tx_batches: 0,
        num_simulated_transactions: 0,
    }
}

impl Default for PbsStageStats {
    /// All counters at zero.
    fn default() -> (stats: Self)
        ensures
            stats == no_stats(),
    {
        PbsStageStats {
            num_bundles: 0,
            num_bundle_packets: 0,
            num_missing_deadlines: 0,
            num_empty_packet_batches: 0,
            num_sanitized_transactions: 0,
            num_empty_tx_batches: 0,
            num_simulated_transactions: 0,
        }
    }
}

/// A data point of the series of this stage.
fn point(field: &'static str, counter: u64) -> (point: DataPoint)
    ensures
        point@ == stats_point(field@, counter),
{
    DataPoint { name: "pbs_stage-stats", field, value: counter as i64 }
}

impl PbsStageStats {
    /// The data points of a report, in the order in which they are published.
    pub open spec fn reported(self) -> Seq<DataPointView> {
        seq![
            stats_point("num_bundles"@, self.num_bundles),
            stats_point("num_bundle_packets"@, self.num_bundle_packets),
            stats_point("num_missing_deadlines"@, self.num_missing_deadlines),
            stats_point("num_empty_packet_batches"@, self.num_empty_packet_batches),
            stats_point("num_sanitized_transactions"@, self.num_bundles),
            stats_point("num_empty_tx_batches"@, self.num_empty_tx_batches),
            stats_point("num_simulated_transactions"@, self.num_simulated_transactions),
        ]
    }

    /// The data points to publish. The field `num_sanitized_transactions` carries the number of
    /// bundles.
    pub fn report(&self) -> (points: Vec<DataPoint>)
        ensures
            points_view(points@) == self.reported(),
            points@.len() == 7,
    {
        let points = vec![
            point("num_bundles", self.num_bundles),
            point("num_bundle_packets", self.num_bundle_packets),
            point("num_missing_deadlines", self.num_missing_deadlines),
            point("num_empty_packet_batches", self.num_empty_packet_batches),
            point("num_sanitized_transactions", self.num_bundles),
            point("num_empty_tx_batches", self.num_empty_tx_batches),
            point("num_simulated_transactions", self.num_simulated_transactions),
        ];
        assert(points_view(points@) =~= self.reported());
        points
    }
}

/// A report has seven data points of one series. Each gives one counter as it stands, as a signed
/// number; the point for sanitized transactions gives the number of bundles.
pub proof fn counters_are_reported(stats: PbsStageStats)
    ensures
        stats.reported().len() == 7,
        forall|i: int|
            0 <= i < 7 ==> (#[trigger] stats.reported()[i]).name == "pbs_stage-stats"@,
        stats.reported()[0].field == "num_bundles"@,
        stats.reported()[0].value == stats.num_bundles as i64,
        stats.reported()[1].field == "num_bundle_packets"@,
        stats.reported()[1].value == stats.num_bundle_packets as i64,
        stats.reported()[2].field == "num_missing_deadlines"@,
        stats.reported()[2].value == stats.num_missing_deadlines as i64,
        stats.reported()[3].field == "num_empty_packet_batches"@,
        stats.reported()[3].value == stats.num_empty_packet_batches as i64,
        stats.reported()[4].field == "num_sanitized_transactions"@,
        stats.reported()[4].value == stats.num_bundles as i64,
        stats.reported()[5].field == "num_empty_tx_batches"@,
        stats.reported()[5].value == stats.num_empty_tx_batches as i64,
        stats.reported()[6].field == "num_simulated_transactions"@,
        stats.reported()[6].value == stats.num_simulated_transactions as i64,
{
}

/// A counter grows by exactly what is counted, up to the largest number it can hold, at which it
/// stays.
pub proof fn counters_stop_at_their_limit(counter: u64, more: nat)
    ensures
        counter + more <= u64::MAX ==> saturating_sum(counter, more) == counter + more,
        counter + more >= u64::MAX ==> saturating_sum(counter, more) == u64::MAX,
{
}

/// Counting begins at zero.
pub proof fn counting_begins_at_zero()
    ensures
        no_stats().num_bundles == 0,
        no_stats().num_bundle_packets == 0,
        no_stats().num_missing_deadlines == 0,
        no_stats().num_empty_packet_batches == 0,
        no_stats().num_sanitized_transactions == 0,
        no_stats().num_empty_tx_batches == 0,
        no_stats().num_simulated_transactions == 0,
{
}

/// What a list of data points holds is what its data points hold, one by one.
pub proof fn points_are_seen_one_by_one(points: Seq<DataPoint>)
    ensures
        points_view(points).len() == points.len(),
        forall|i: int|
            0 <= i < points.len() ==> {
                &&& (#[trigger] points_view(points)[i]).name == points[i].name@
                &&& points_view(points)[i].field == points[i].field@
                &&& points_view(points)[i].value == points[i].value
            },
{
}

} // verus!
