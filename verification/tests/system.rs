use visionvoice::system_check::{check_memory, check_memory_line, MemoryReport, LOW_MEMORY_MB};
use visionvoice::text::chars_of;

fn by_the_standard_library(line: &str) -> Option<MemoryReport> {
    if !line.starts_with("MemTotal:") {
        return None;
    }
    let kb = line.split_whitespace().nth(1)?.parse::<u64>().ok()?;
    Some(MemoryReport { total_mb: kb / 1024, low: kb / 1024 < 400 })
}

#[test]
fn memory_line_of_a_small_board() {
    assert_eq!(
        check_memory_line("MemTotal:         427884 kB"),
        Some(MemoryReport { total_mb: 417, low: false })
    );
    assert_eq!(
        check_memory_line("MemTotal:         409599 kB"),
        Some(MemoryReport { total_mb: 399, low: true })
    );
    assert_eq!(
        check_memory_line("MemTotal:         409600 kB"),
        Some(MemoryReport { total_mb: 400, low: false })
    );
    assert_eq!(LOW_MEMORY_MB, 400);
}

#[test]
fn memory_line_rounds_down_to_megabytes() {
    assert_eq!(check_memory_line("MemTotal: 1023"), Some(MemoryReport { total_mb: 0, low: true }));
    assert_eq!(check_memory_line("MemTotal: 1024"), Some(MemoryReport { total_mb: 1, low: true }));
    assert_eq!(check_memory_line("MemTotal: 0"), Some(MemoryReport { total_mb: 0, low: true }));
}

#[test]
fn other_lines_of_the_report_yield_nothing() {
    assert_eq!(check_memory_line("MemFree:          123456 kB"), None);
    assert_eq!(check_memory_line(" MemTotal: 123456 kB"), None);
    assert_eq!(check_memory_line("memtotal: 123456 kB"), None);
    assert_eq!(check_memory_line("MemTotal"), None);
    assert_eq!(check_memory_line(""), None);
}

#[test]
fn memory_line_without_a_number_yields_nothing() {
    assert_eq!(check_memory_line("MemTotal:"), None);
    assert_eq!(check_memory_line("MemTotal:   "), None);
    assert_eq!(check_memory_line("MemTotal: kB"), None);
    assert_eq!(check_memory_line("MemTotal:123 kB"), None);
    assert_eq!(check_memory_line("MemTotal: 12a4 kB"), None);
    assert_eq!(check_memory_line("MemTotal: -5 kB"), None);
    assert_eq!(check_memory_line("MemTotal: + kB"), None);
    assert_eq!(check_memory_line("MemTotal: 1.5 kB"), None);
}

#[test]
fn memory_line_accepts_what_the_standard_library_parses() {
    assert_eq!(check_memory_line("MemTotal: +2048 kB"), Some(MemoryReport { total_mb: 2, low: true }));
    assert_eq!(check_memory_line("MemTotal: 0002048"), Some(MemoryReport { total_mb: 2, low: true }));
    assert_eq!(check_memory_line("MemTotal:\t4096\n"), Some(MemoryReport { total_mb: 4, low: true }));
    assert_eq!(
        check_memory_line("MemTotal: 18446744073709551615 kB"),
        Some(MemoryReport { total_mb: u64::MAX / 1024, low: false })
    );
    assert_eq!(check_memory_line("MemTotal: 18446744073709551616 kB"), None);
    assert_eq!(check_memory_line("MemTotal: 99999999999999999999999 kB"), None);
}

#[test]
fn memory_line_agrees_with_the_standard_library() {
    let lines = [
        "MemTotal:         427884 kB",
        "MemTotal:427884 kB",
        "MemTotal: 427884kB",
        "MemTotal:\u{a0}512000\u{3000}kB",
        "MemTotal:\u{2003}512000",
        "MemTotal: ٣٤ kB",
        "MemTotal: 12\u{a0}34",
        "MemTotal: +",
        "MemTotal: ++1",
        "MemTotal: +0",
        "MemTotal: -0",
        "MemTotal: 18446744073709551615",
        "MemTotal: 18446744073709551616",
        "MemTotal: 184467440737095516150",
        "MemTotal:  \t 1 2 3",
        "MemTotal: 400000 MemTotal: 1",
        "MemTotalx: 5",
        "MemTotal",
        "",
        " ",
        "SwapTotal:        102396 kB",
        "MemTotal:\r\n",
        "MemTotal: 409599\r",
    ];
    for line in lines {
        assert_eq!(check_memory_line(line), by_the_standard_library(line), "{:?}", line);
    }
}

#[test]
fn chars_of_lists_the_characters() {
    assert_eq!(chars_of(""), Vec::<char>::new());
    assert_eq!(chars_of("aб€😀"), vec!['a', 'б', '€', '😀']);
}

fn all_by_the_standard_library(meminfo: &str) -> Vec<MemoryReport> {
    meminfo.lines().filter_map(by_the_standard_library).collect()
}

#[test]
fn memory_report_of_a_small_board() {
    let meminfo = "MemTotal:         427884 kB\nMemFree:          123456 kB\nMemAvailable:     234567 kB\n";
    assert_eq!(check_memory(meminfo), vec![MemoryReport { total_mb: 417, low: false }]);
}

#[test]
fn memory_report_without_the_total_is_empty() {
    assert_eq!(check_memory(""), Vec::new());
    assert_eq!(check_memory("\n\n"), Vec::new());
    assert_eq!(check_memory("MemFree: 1 kB\nSwapTotal: 2 kB"), Vec::new());
    assert_eq!(check_memory("x MemTotal: 5 kB"), Vec::new());
}

#[test]
fn memory_report_has_an_entry_for_each_line_with_the_total() {
    let meminfo = "MemTotal: 2048 kB\nMemFree: 1 kB\nMemTotal: 409600\nMemTotal: none\nMemTotal: 1024";
    assert_eq!(
        check_memory(meminfo),
        vec![
            MemoryReport { total_mb: 2, low: true },
            MemoryReport { total_mb: 400, low: false },
            MemoryReport { total_mb: 1, low: true },
        ]
    );
}

#[test]
fn memory_report_agrees_with_the_standard_library() {
    let reports = [
        "",
        "\n",
        "MemTotal: 1024",
        "MemTotal: 1024\n",
        "MemTotal: 1024\r\nMemFree: 7\r\n",
        "MemTotal:\r\nMemTotal: 5\r",
        "\nMemTotal: 3072 kB\n\nMemTotal: 4096 kB\n\n",
        "MemTotal: 1\rMemTotal: 2\n",
        "MemTotal:\n 2048",
        "MemTotal: 18446744073709551615\nMemTotal: 18446744073709551616\n",
        "Mem\nTotal: 5\nMemTotal:\u{a0}77777\u{2028}kB\n",
    ];
    for meminfo in reports {
        assert_eq!(check_memory(meminfo), all_by_the_standard_library(meminfo), "{:?}", meminfo);
    }
}
