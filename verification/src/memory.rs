//! The heap statistics that LVGL asks the firmware for.
use vstd::prelude::*;

verus! {

/// What the ESP-IDF heap reports about the heap that serves LVGL.
#[derive(Clone, Copy, Debug, PartialEq, Eq, Structural)]
pub struct HeapInfo {
    pub total_free_bytes: usize,
    pub total_allocated_bytes: usize,
    pub largest_free_block: usize,
    pub minimum_free_bytes: usize,
    pub allocated_blocks: usize,
    pub free_blocks: usize,
    pub total_blocks: usize,
}

/// LVGL's memory monitor record.
#[derive(Clone, Copy, Debug, PartialEq, Eq, Structural)]
pub struct MemMonitor {
    pub total_size: usize,
    pub free_cnt: usize,
    pub free_size: usize,
    pub free_biggest_size: usize,
    pub used_cnt: usize,
    pub max_used: usize,
    pub used_pct: u8,
    pub frag_pct: u8,
}

/// The larger of two sizes.
pub open spec fn max_usize(a: usize, b: usize) -> usize {
    if a >= b { a } else { b }
}

/// The monitor after a heap report: the block counts and the largest free
/// block come from the report, the high-water mark keeps the larger of its
/// old value and the reported number of allocated blocks, and the fields the
/// report says nothing of are left as they were.
pub open spec fn monitor_after(monitor: MemMonitor, info: HeapInfo) -> MemMonitor {
    MemMonitor {
        free_cnt: info.free_blocks,
        used_cnt: info.allocated_blocks,
        free_biggest_size: info.largest_free_block,
        max_used: max_usize(info.allocated_blocks, monitor.max_used),
        ..monitor
    }
}

/// Fills LVGL's memory monitor from a heap report.
pub fn get_memory_stats(monitor: &mut MemMonitor, info: &HeapInfo)
    ensures
        *final(monitor) == monitor_after(*old(monitor), *info),
{
    monitor.free_cnt = info.free_blocks;
    monitor.used_cnt = info.allocated_blocks;
    monitor.free_biggest_size = info.largest_free_block;
    monitor.max_used = if info.allocated_blocks >= monitor.max_used {
        info.allocated_blocks
    } else {
        monitor.max_used
    };
}

/// The high-water mark never goes down, and after a report it is at least
/// the number of blocks that report found allocated.
pub proof fn lemma_max_used_never_decreases(monitor: MemMonitor, info: HeapInfo)
    ensures
        monitor_after(monitor, info).max_used >= monitor.max_used,
        monitor_after(monitor, info).max_used >= info.allocated_blocks,
        monitor_after(monitor, info).max_used == monitor.max_used
            || monitor_after(monitor, info).max_used == info.allocated_blocks,
{
}

/// Applying the same report twice gives what applying it once gives.
pub proof fn lemma_same_report_twice(monitor: MemMonitor, info: HeapInfo)
    ensures
        monitor_after(monitor_after(monitor, info), info) == monitor_after(monitor, info),
{
}

/// After two reports in a row the counts are those of the later report, and
/// the high-water mark is the largest of its starting value and the two
/// reported numbers of allocated blocks.
pub proof fn lemma_two_reports(monitor: MemMonitor, first: HeapInfo, second: HeapInfo)
    ensures
        ({
            let after = monitor_after(monitor_after(monitor, first), second);
            &&& after.free_cnt == second.free_blocks
            &&& after.used_cnt == second.allocated_blocks
            &&& after.free_biggest_size == second.largest_free_block
            &&& after.max_used == max_usize(
                second.allocated_blocks,
                max_usize(first.allocated_blocks, monitor.max_used),
            )
            &&& after.max_used >= monitor.max_used
            &&& after.max_used >= first.allocated_blocks
            &&& after.max_used >= second.allocated_blocks
            &&& after.total_size == monitor.total_size
            &&& after.free_size == monitor.free_size
            &&& after.used_pct == monitor.used_pct
            &&& after.frag_pct == monitor.frag_pct
        }),
{
}


/// The monitor after a run of heap reports, applied in order, one call of
/// [get_memory_stats] each.
pub open spec fn monitor_after_reports(monitor: MemMonitor, reports: Seq<HeapInfo>) -> MemMonitor
    decreases reports.len(),
{
    if reports.len() == 0 {
        monitor
    } else {
        monitor_after(monitor_after_reports(monitor, reports.drop_last()), reports.last())
    }
}

/// One more report after a run of reports is one more call of
/// [get_memory_stats] on the monitor that the run left.
pub proof fn lemma_one_more_report(monitor: MemMonitor, reports: Seq<HeapInfo>, info: HeapInfo)
    ensures
        monitor_after_reports(monitor, reports.push(info)) == monitor_after(
            monitor_after_reports(monitor, reports),
            info,
        ),
{
    assert(reports.push(info).drop_last() =~= reports);
}

/// After any number of heap reports in a row, the high-water mark is the
/// largest of its starting value and all reported numbers of allocated
/// blocks; when there was at least one report, the counts and the largest
/// free block are those of the last report; and the fields the reports say
/// nothing of are as they were at the start.
pub proof fn lemma_many_reports(monitor: MemMonitor, reports: Seq<HeapInfo>)
    ensures
        ({
            let after = monitor_after_reports(monitor, reports);
            &&& after.max_used >= monitor.max_used
            &&& forall|i: int|
                0 <= i < reports.len() ==> after.max_used >= #[trigger] reports[i].allocated_blocks
            &&& (after.max_used == monitor.max_used || exists|i: int|
                0 <= i < reports.len() && after.max_used == #[trigger] reports[i].allocated_blocks)
            &&& reports.len() >= 1 ==> {
                &&& after.free_cnt == reports.last().free_blocks
                &&& after.used_cnt == reports.last().allocated_blocks
                &&& after.free_biggest_size == reports.last().largest_free_block
            }
            &&& after.total_size == monitor.total_size
            &&& after.free_size == monitor.free_size
            &&& after.used_pct == monitor.used_pct
            &&& after.frag_pct == monitor.frag_pct
        }),
    decreases reports.len(),
{
    if reports.len() > 0 {
        let prefix = reports.drop_last();
        lemma_many_reports(monitor, prefix);
        let before = monitor_after_reports(monitor, prefix);
        let last_index = reports.len() - 1;
        assert forall|i: int| 0 <= i < reports.len() implies monitor_after_reports(
            monitor,
            reports,
        ).max_used >= #[trigger] reports[i].allocated_blocks by {
            if i < last_index {
                assert(reports[i] == prefix[i]);
            }
        }
        if before.max_used == monitor.max_used {
        } else {
            let j = choose|j: int|
                0 <= j < prefix.len() && before.max_used == #[trigger] prefix[j].allocated_blocks;
            assert(reports[j] == prefix[j]);
        }
        assert(reports[last_index] == reports.last());
    }
}

} // verus!
