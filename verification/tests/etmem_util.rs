use memlink::{
    IdlePageInfo, IdlePageStats, ProcIdlePageType, accessed_memory_size, bytes_to_pages,
    filter_accessed_pages, idle_memory_size,
    filter_huge_pages, filter_idle_pages, format_bytes, group_by_type, huge_page_align_down,
    is_huge_page_aligned, is_page_aligned, page_align_down, page_align_up, page_shift,
    pages_to_bytes, suggest_page_size, total_memory_size,
};

#[test]
fn test_page_alignment() {
    assert!(is_page_aligned(4096));
    assert!(!is_page_aligned(4097));
    assert!(is_page_aligned(0));

    assert!(is_huge_page_aligned(2 * 1024 * 1024));
    assert!(!is_huge_page_aligned(4096));
}

#[test]
fn test_page_align() {
    assert_eq!(page_align_down(4097), 4096);
    assert_eq!(page_align_up(4097), 8192);
    assert_eq!(page_align_down(8192), 8192);
}

#[test]
fn test_format_bytes() {
    assert_eq!(format_bytes(512), "512.00 B");
    assert_eq!(format_bytes(1024), "1.00 KB");
    assert_eq!(format_bytes(1024 * 1024), "1.00 MB");
    assert_eq!(format_bytes(1024 * 1024 * 1024), "1.00 GB");
}

#[test]
fn test_format_bytes_fractions() {
    assert_eq!(format_bytes(1536), "1.50 KB");
    assert_eq!(format_bytes(1024 * 1024 * 1024 * 1024), "1.00 TB");
    assert_eq!(format_bytes(0), "0.00 B");
    assert_eq!(format_bytes(1023), "1023.00 B");
    // 1100 / 1024 = 1.07421875, shown to two places.
    assert_eq!(format_bytes(1100), "1.07 KB");
}

#[test]
fn test_stats_calculation() {
    let pages = vec![
        IdlePageInfo::new(0x1000, ProcIdlePageType::PteIdle, 1),
        IdlePageInfo::new(0x2000, ProcIdlePageType::PteAccessed, 1),
        IdlePageInfo::new(0x200000, ProcIdlePageType::PmdIdle, 1),
    ];

    let stats = IdlePageStats::from_pages(&pages);
    assert_eq!(stats.total_pages, 3);
    assert_eq!(stats.idle_pages, 2);
    assert_eq!(stats.accessed_pages, 1);
    assert_eq!(stats.huge_pages, 1);
    assert_eq!(stats.total_bytes, 4096 + 4096 + 2 * 1024 * 1024);
}

#[test]
fn test_filter_functions() {
    let pages = vec![
        IdlePageInfo::new(0x1000, ProcIdlePageType::PteIdle, 1),
        IdlePageInfo::new(0x2000, ProcIdlePageType::PteAccessed, 1),
        IdlePageInfo::new(0x200000, ProcIdlePageType::PmdIdle, 1),
    ];

    let idle = filter_idle_pages(&pages);
    assert_eq!(idle.len(), 2);

    let accessed = filter_accessed_pages(&pages);
    assert_eq!(accessed.len(), 1);

    let huge = filter_huge_pages(&pages);
    assert_eq!(huge.len(), 1);
}

#[test]
fn test_page_conversions() {
    assert_eq!(pages_to_bytes(10, 4096), 40960);
    assert_eq!(bytes_to_pages(4097, 4096), 2);
}

#[test]
fn test_memory_sizes() {
    let pages = vec![
        IdlePageInfo::new(0x1000, ProcIdlePageType::PteIdle, 2),
        IdlePageInfo::new(0x3000, ProcIdlePageType::PteAccessed, 1),
        IdlePageInfo::new(0x200000, ProcIdlePageType::PmdHole, 1),
    ];
    assert_eq!(total_memory_size(&pages), 2 * 4096 + 4096 + 0x200000);
    assert_eq!(idle_memory_size(&pages), 2 * 4096);
    assert_eq!(accessed_memory_size(&pages), 4096);
}

#[test]
fn test_group_by_type_groups() {
    let pages = vec![
        IdlePageInfo::new(0x1000, ProcIdlePageType::PteIdle, 1),
        IdlePageInfo::new(0x2000, ProcIdlePageType::PteAccessed, 1),
        IdlePageInfo::new(0x5000, ProcIdlePageType::PteIdle, 1),
    ];
    let groups = group_by_type(&pages);
    assert_eq!(groups.len(), 2);
    assert_eq!(groups[&ProcIdlePageType::PteIdle].len(), 2);
    assert_eq!(groups[&ProcIdlePageType::PteAccessed].len(), 1);
    assert_eq!(groups[&ProcIdlePageType::PteIdle][1].address, 0x5000);
}

#[test]
fn test_suggest_page_size_and_shift() {
    assert_eq!(suggest_page_size(0, 1024 * 1024 * 1024), 1024 * 1024 * 1024);
    assert_eq!(suggest_page_size(0, 2 * 1024 * 1024), 2 * 1024 * 1024);
    assert_eq!(suggest_page_size(4096, 2 * 1024 * 1024), 4096);
    assert_eq!(suggest_page_size(0, 4096), 4096);

    assert_eq!(page_shift(4096), 12);
    assert_eq!(page_shift(2 * 1024 * 1024), 21);
    assert_eq!(page_shift(1024 * 1024 * 1024), 30);
    assert_eq!(page_shift(12345), 12);

    assert_eq!(huge_page_align_down(0x200001), 0x200000);
}
