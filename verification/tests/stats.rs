use instar::stats::VmmStats;

#[test]
fn test_format_number() {
    assert_eq!(VmmStats::format_number(0), "0");
    assert_eq!(VmmStats::format_number(123), "123");
    assert_eq!(VmmStats::format_number(1234), "1,234");
    assert_eq!(VmmStats::format_number(1234567), "1,234,567");
}

#[test]
fn test_format_bytes() {
    assert_eq!(VmmStats::format_bytes(500), "500 B");
    assert_eq!(VmmStats::format_bytes(1024), "1.00 KB");
    assert_eq!(VmmStats::format_bytes(1536), "1.50 KB");
    assert_eq!(VmmStats::format_bytes(1048576), "1.00 MB");
    assert_eq!(VmmStats::format_bytes(1073741824), "1.00 GB");
}

#[test]
fn test_counters() {
    let mut stats = VmmStats::new();

    stats.record_io_in();
    stats.record_io_out();
    stats.record_mmio_read();
    stats.record_mmio_write();
    stats.record_hlt();

    assert_eq!(stats.total_exits, 5);
    assert_eq!(stats.io_exits(), 2);
    assert_eq!(stats.mmio_exits(), 2);
    assert_eq!(stats.hlt_exits, 1);
}

#[test]
fn test_data_tracking() {
    let mut stats = VmmStats::new();

    stats.record_read(4096, 1);
    stats.record_write(4096, 1);

    assert_eq!(stats.bytes_read, 4096);
    assert_eq!(stats.bytes_written, 4096);
    assert_eq!(stats.sectors_read, 1);
    assert_eq!(stats.sectors_written, 1);
}

#[test]
fn rare_exits_count_towards_the_total() {
    let mut stats = VmmStats::new();
    stats.record_shutdown();
    stats.record_fail_entry();
    stats.record_unknown();
    stats.record_unknown();
    assert_eq!(stats.total_exits, 4);
    assert_eq!(stats.shutdown_exits, 1);
    assert_eq!(stats.fail_entry_exits, 1);
    assert_eq!(stats.unknown_exits, 2);
}

#[test]
fn sizes_are_rounded_as_floats_are_printed() {
    let sizes: [u64; 16] = [
        0,
        1023,
        1025,
        1029,
        1034,
        1536,
        10239,
        1048575,
        1048576 + 5243,
        1073741823,
        1073741824 * 3 / 2,
        123_456_789_012,
        u64::MAX / 3,
        u64::MAX - 1024,
        u64::MAX,
        (1 << 53) + 1,
    ];
    for n in sizes {
        let float = n as f64;
        let expected = if n < 1024 {
            format!("{} B", n)
        } else if n < 1024 * 1024 {
            format!("{:.2} KB", float / 1024.0)
        } else if n < 1024 * 1024 * 1024 {
            format!("{:.2} MB", float / (1024.0 * 1024.0))
        } else {
            format!("{:.2} GB", float / (1024.0 * 1024.0 * 1024.0))
        };
        assert_eq!(VmmStats::format_bytes(n), expected, "size {}", n);
    }
}

#[test]
fn numbers_are_grouped_in_threes() {
    assert_eq!(VmmStats::format_number(1000), "1,000");
    assert_eq!(VmmStats::format_number(999_999), "999,999");
    assert_eq!(VmmStats::format_number(u64::MAX), "18,446,744,073,709,551,615");
}

#[test]
fn counts_are_shown_with_their_share() {
    let mut stats = VmmStats::new();
    for _ in 0..3 {
        stats.record_hlt();
    }
    let percent = 100.0 * 1.0 / 3.0;
    assert_eq!(stats.format_count_percent(1), format!("1 ({:.1}%)", percent));
    assert_eq!(stats.format_count_percent(3), "3 (100.0%)");
    let empty = VmmStats::new();
    assert_eq!(empty.format_count_percent(0), "0");
}

#[test]
fn shares_are_rounded_as_floats_are_printed() {
    let mut stats = VmmStats::new();
    let totals: [u64; 9] =
        [1, 3, 7, 16, 2000, 999_983, (1 << 53) + 3, u64::MAX / 7, u64::MAX];
    for total in totals {
        stats.total_exits = total;
        for count in [0, 1, 2, 3, 5, 15, 33, total / 3, total / 2, total - 1, total] {
            let percent = (count as f64 / total as f64) * 100.0;
            let expected = format!("{} ({:.1}%)", VmmStats::format_number(count), percent);
            assert_eq!(stats.format_count_percent(count), expected, "{} of {}", count, total);
        }
    }
}

#[test]
fn the_summary_lists_rare_exits_only_where_they_occurred() {
    let mut stats = VmmStats::new();
    stats.record_io_out();
    stats.record_mmio_write();
    assert_eq!(
        stats.format_exits(),
        "Total exits:    2\n  IO in:        0 (0.0%)\n  IO out:       1 (50.0%)\n  \
         MMIO read:    0 (0.0%)\n  MMIO write:   1 (50.0%)\n  HLT:          0 (0.0%)\n"
    );
    stats.record_shutdown();
    stats.record_fail_entry();
    let text = stats.format_exits();
    assert!(text.ends_with("  Shutdown:     1 (25.0%)\n  Fail entry:   1 (25.0%)\n"), "{}", text);
    stats.record_unknown();
    assert!(stats.format_exits().ends_with("  Unknown:      1 (20.0%)\n"));
}

#[test]
fn the_summary_lists_what_was_moved() {
    let mut stats = VmmStats::new();
    stats.record_read(1536, 3);
    stats.record_write(1234 * 512, 1234);
    assert_eq!(
        stats.format_transfer(),
        "Data transfer:\n  Bytes read:   1.50 KB (3 sectors)\n  \
         Bytes written: 617.00 KB (1,234 sectors)\n"
    );
}

#[test]
fn the_clock_runs_forward() {
    let stats = VmmStats::new();
    let first = stats.elapsed_nanos();
    let mut work: u64 = 0;
    for i in 0..200_000u64 {
        work = work.wrapping_mul(31).wrapping_add(i);
    }
    assert_ne!(work, 1);
    let mut later = stats.elapsed_nanos();
    while later == 0 {
        later = stats.elapsed_nanos();
    }
    assert!(later >= first);
    assert!(later > 0);
}

#[test]
fn efficiency_is_rounded_as_floats_are_printed() {
    let mut stats = VmmStats::new();
    assert_eq!(
        stats.format_efficiency(),
        "  MMIO/sector:  0.0 exits/sector\n  Bytes/exit:   0.0\n"
    );
    let counts: [u64; 10] =
        [0, 1, 3, 7, 20, 999, 123_456_789, (1 << 53) + 3, u64::MAX / 7, u64::MAX];
    for a in counts {
        for b in counts {
            stats.mmio_read_exits = a / 2;
            stats.mmio_write_exits = a - a / 2;
            stats.sectors_read = b / 3;
            stats.sectors_written = b - b / 3;
            stats.bytes_read = a;
            stats.total_exits = b;
            let ratio = if b > 0 { a as f64 / b as f64 } else { 0.0 };
            let expected =
                format!("  MMIO/sector:  {ratio:.1} exits/sector\n  Bytes/exit:   {ratio:.1}\n");
            assert_eq!(stats.format_efficiency(), expected, "{} by {}", a, b);
        }
    }
}

#[test]
fn default_statistics_are_empty() {
    let stats = VmmStats::default();
    assert_eq!((stats.total_exits, stats.bytes_read, stats.sectors_written), (0, 0, 0));
}
