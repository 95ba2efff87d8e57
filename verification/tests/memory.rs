use lcd_panels::memory::{get_memory_stats, HeapInfo, MemMonitor};

fn monitor(max_used: usize) -> MemMonitor {
    MemMonitor {
        total_size: 1000,
        free_cnt: 1,
        free_size: 600,
        free_biggest_size: 2,
        used_cnt: 3,
        max_used,
        used_pct: 40,
        frag_pct: 5,
    }
}

fn report(allocated_blocks: usize, free_blocks: usize, largest_free_block: usize) -> HeapInfo {
    HeapInfo {
        total_free_bytes: 4096,
        total_allocated_bytes: 8192,
        largest_free_block,
        minimum_free_bytes: 1024,
        allocated_blocks,
        free_blocks,
        total_blocks: allocated_blocks + free_blocks,
    }
}

#[test]
fn stats_copy_counts_and_keep_other_fields() {
    let mut m = monitor(0);
    get_memory_stats(&mut m, &report(12, 7, 3000));
    assert_eq!(m.free_cnt, 7);
    assert_eq!(m.used_cnt, 12);
    assert_eq!(m.free_biggest_size, 3000);
    assert_eq!(m.max_used, 12);
    assert_eq!(m.total_size, 1000);
    assert_eq!(m.free_size, 600);
    assert_eq!(m.used_pct, 40);
    assert_eq!(m.frag_pct, 5);
}

#[test]
fn high_water_mark_never_decreases() {
    let mut m = monitor(50);
    get_memory_stats(&mut m, &report(12, 7, 3000));
    assert_eq!(m.max_used, 50);
    assert_eq!(m.used_cnt, 12);
}

#[test]
fn same_report_twice() {
    let r = report(12, 7, 3000);
    let mut once = monitor(4);
    get_memory_stats(&mut once, &r);
    let mut twice = once;
    get_memory_stats(&mut twice, &r);
    assert_eq!(once, twice);
}

#[test]
fn two_reports_in_a_row() {
    let mut m = monitor(4);
    get_memory_stats(&mut m, &report(30, 2, 100));
    get_memory_stats(&mut m, &report(10, 9, 500));
    assert_eq!(m.used_cnt, 10);
    assert_eq!(m.free_cnt, 9);
    assert_eq!(m.free_biggest_size, 500);
    assert_eq!(m.max_used, 30);
}

#[test]
fn many_reports_in_a_row() {
    let mut m = monitor(20);
    let reports = [report(5, 1, 10), report(33, 2, 20), report(7, 3, 30), report(12, 4, 40)];
    for r in &reports {
        get_memory_stats(&mut m, r);
    }
    assert_eq!(m.max_used, 33);
    assert_eq!(m.used_cnt, 12);
    assert_eq!(m.free_cnt, 4);
    assert_eq!(m.free_biggest_size, 40);
    assert_eq!(m.total_size, 1000);
    assert_eq!(m.free_size, 600);
    assert_eq!(m.used_pct, 40);
    assert_eq!(m.frag_pct, 5);
}
