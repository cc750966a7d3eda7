use raspi3_allocator::{
    align_offset, alloc_test_f64, alloc_test_u32, bump, marked_values, memory_header_word, on_oom,
    set_first_bit, setup_debug, sum_low_halves, vec_growth, Arena, CursorAlloc, Layout, OutOfMemory, Raspi3Alloc,
    Relocation, HEADER_SIZE,
};

fn layout(size: u32, align: u32) -> Layout {
    Layout::from_size_align(size, align).unwrap()
}

fn header_heap(base: u32, limit: u32) -> Raspi3Alloc {
    Raspi3Alloc::new(Arena::new(base, limit).unwrap()).unwrap()
}

#[test]
fn header_variant_concrete_scenario() {
    let heap = header_heap(0x0100_0000, 0x0200_0000);
    let mut allocated_size: u32 = 0;
    assert_eq!(heap.acquire(&mut allocated_size, layout(4, 4)), Ok(0x0100_0100));
    assert_eq!(allocated_size, 4);
    assert_eq!(heap.acquire(&mut allocated_size, layout(8, 8)), Ok(0x0100_0108));
    assert_eq!(allocated_size, 16);
}

#[test]
fn header_variant_exhaustion_keeps_counter() {
    let heap = header_heap(0x1000, 0x1000 + HEADER_SIZE + 16);
    let mut allocated_size: u32 = 12;
    let req = layout(8, 1);
    assert_eq!(heap.acquire(&mut allocated_size, req), Err(OutOfMemory { layout: req }));
    assert_eq!(allocated_size, 12);
    assert_eq!(heap.remaining(allocated_size), 4);
}

#[test]
fn cursor_variant_exhaustion_keeps_head() {
    let mut heap = CursorAlloc::new(Arena::new(0x2000, 0x2010).unwrap());
    assert_eq!(heap.acquire(layout(12, 1)), Ok(0x2000));
    assert_eq!(heap.head(), 0x200C);
    let req = layout(8, 1);
    assert_eq!(heap.acquire(req), Err(OutOfMemory { layout: req }));
    assert_eq!(heap.head(), 0x200C);
    assert_eq!(heap.remaining(), 4);
}

#[test]
fn exact_fit_succeeds_and_one_more_byte_fails() {
    let heap = header_heap(0, HEADER_SIZE + 32);
    let mut used: u32 = 0;
    assert_eq!(heap.acquire(&mut used, layout(32, 8)), Ok(HEADER_SIZE));
    assert_eq!(used, 32);
    assert_eq!(heap.remaining(used), 0);
    assert_eq!(heap.acquire(&mut used, layout(1, 1)), Err(OutOfMemory { layout: layout(1, 1) }));
    assert_eq!(used, 32);

    let mut cursor = CursorAlloc::new(Arena::new(0x100, 0x120).unwrap());
    assert_eq!(cursor.acquire(layout(33, 1)), Err(OutOfMemory { layout: layout(33, 1) }));
    assert_eq!(cursor.head(), 0x100);
    assert_eq!(cursor.acquire(layout(32, 1)), Ok(0x100));
    assert_eq!(cursor.remaining(), 0);
}

#[test]
fn padding_is_counted_in_exhaustion() {
    // 1 byte used, then 8 bytes at alignment 8 need 7 bytes of padding: 16 in all.
    let heap = header_heap(0, HEADER_SIZE + 15);
    let mut used: u32 = 1;
    assert_eq!(heap.acquire(&mut used, layout(8, 8)), Err(OutOfMemory { layout: layout(8, 8) }));
    assert_eq!(used, 1);
    let heap = header_heap(0, HEADER_SIZE + 16);
    assert_eq!(heap.acquire(&mut used, layout(8, 8)), Ok(HEADER_SIZE + 8));
    assert_eq!(used, 16);
}

fn overlaps(a: (u32, u32), b: (u32, u32)) -> bool {
    a.0 < b.0 + b.1 && b.0 < a.0 + a.1
}

#[test]
fn grants_are_aligned_and_disjoint() {
    let requests = [(3, 1), (4, 4), (1, 2), (16, 16), (5, 8), (0, 4), (7, 32), (2, 2)];
    let mut cursor = CursorAlloc::new(Arena::new(0x4001, 0x5000).unwrap());
    let heap = header_heap(0x8000, 0x9000);
    let mut used: u32 = 0;
    let mut from_cursor: Vec<(u32, u32)> = Vec::new();
    let mut from_header: Vec<(u32, u32)> = Vec::new();
    for &(size, align) in requests.iter() {
        let p = cursor.acquire(layout(size, align)).unwrap();
        assert_eq!(p % align, 0);
        assert!(p >= 0x4001 && p + size <= 0x5000);
        from_cursor.push((p, size));
        let q = heap.acquire(&mut used, layout(size, align)).unwrap();
        assert_eq!(q % align, 0);
        assert!(q >= 0x8000 + HEADER_SIZE && q + size <= 0x9000);
        from_header.push((q, size));
    }
    for regions in [&from_cursor, &from_header] {
        for i in 0..regions.len() {
            for j in i + 1..regions.len() {
                assert!(!overlaps(regions[i], regions[j]), "{:?} {:?}", regions[i], regions[j]);
            }
        }
    }
}

#[test]
fn counters_never_decrease() {
    let heap = header_heap(0, HEADER_SIZE + 64);
    let mut used: u32 = 0;
    let mut cursor = CursorAlloc::new(Arena::new(0, 64).unwrap());
    let mut last_used = used;
    let mut last_head = cursor.head();
    for &(size, align) in [(10, 4), (40, 1), (30, 8), (3, 2), (1, 16), (100, 1), (2, 1)].iter() {
        let _ = heap.acquire(&mut used, layout(size, align));
        let _ = cursor.acquire(layout(size, align));
        assert!(used >= last_used);
        assert!(cursor.head() >= last_head);
        last_used = used;
        last_head = cursor.head();
    }
}

#[test]
fn fresh_allocators_have_whole_arena() {
    let arena = Arena::new(0x0100_0000, 0x0200_0000).unwrap();
    let cursor = CursorAlloc::new(arena);
    assert_eq!(cursor.remaining(), 0x0100_0000);
    assert_eq!(cursor.head(), 0x0100_0000);
    let heap = Raspi3Alloc::new(arena).unwrap();
    let fresh = memory_header_word(0).unwrap();
    assert_eq!(fresh, 0);
    assert_eq!(heap.remaining(fresh), 0x0100_0000 - HEADER_SIZE);
}

#[test]
fn alignment_edge_cases() {
    let mut cursor = CursorAlloc::new(Arena::new(0x1001, 0x2000).unwrap());
    assert_eq!(cursor.acquire(layout(3, 1)), Ok(0x1001));
    assert_eq!(cursor.acquire(layout(4, 4)), Ok(0x1004));
    assert_eq!(cursor.acquire(layout(4, 4)), Ok(0x1008));
    assert_eq!(align_offset(0x1001, 1), 0);
    assert_eq!(align_offset(0x1008, 4), 0);
    assert_eq!(align_offset(5, 4), 3);
    assert_eq!(align_offset(6, 8), 2);
}

#[test]
fn bump_core() {
    assert_eq!(bump(5, 32, layout(8, 8)), Some(8));
    assert_eq!(bump(5, 15, layout(8, 8)), None);
    assert_eq!(bump(5, 16, layout(8, 8)), Some(8));
    assert_eq!(bump(u32::MAX - 1, u32::MAX, layout(4, 4)), None);
}

#[test]
fn layout_needs_power_of_two() {
    assert_eq!(Layout::from_size_align(4, 4), Some(Layout { size: 4, align: 4 }));
    assert_eq!(Layout::from_size_align(0, 1).unwrap().align(), 1);
    assert_eq!(Layout::from_size_align(9, 1 << 31).unwrap().size(), 9);
    assert_eq!(Layout::from_size_align(4, 0), None);
    assert_eq!(Layout::from_size_align(4, 3), None);
    assert_eq!(Layout::from_size_align(4, 12), None);
}

#[test]
fn arena_validation() {
    assert!(Arena::new(5, 5).is_none());
    assert!(Arena::new(6, 5).is_none());
    let a = Arena::new(5, 6).unwrap();
    assert_eq!((a.base(), a.limit()), (5, 6));
    assert!(Raspi3Alloc::new(Arena::new(0, HEADER_SIZE - 1).unwrap()).is_none());
    let h = Raspi3Alloc::new(Arena::new(0, HEADER_SIZE).unwrap()).unwrap();
    assert_eq!((h.base(), h.limit()), (0, HEADER_SIZE));
    assert_eq!(h.remaining(0), 0);
}

#[test]
fn release_changes_nothing() {
    let mut cursor = CursorAlloc::new(Arena::new(0, 64).unwrap());
    let p = cursor.acquire(layout(8, 8)).unwrap();
    cursor.release(p, layout(8, 8));
    assert_eq!(cursor.head(), 8);
    let heap = header_heap(0, 0x200);
    let mut used: u32 = 0;
    let q = heap.acquire(&mut used, layout(8, 8)).unwrap();
    heap.release(q, layout(8, 8));
    assert_eq!(heap.acquire(&mut used, layout(8, 8)), Ok(HEADER_SIZE + 8));
}

#[test]
fn oom_report_carries_request() {
    assert_eq!(on_oom(layout(24, 8)), OutOfMemory { layout: Layout { size: 24, align: 8 } });
}

#[test]
fn header_memory_pattern() {
    assert_eq!(memory_header_word(0), Some(0));
    assert_eq!(memory_header_word(0xFF), Some(0));
    assert_eq!(memory_header_word(0x100), None);
    assert_eq!(memory_header_word(0x101), Some(0xFF00_0101));
    assert_eq!(memory_header_word(0xFFFF), Some(0xFF00_FFFF));
    assert_eq!(memory_header_word(0x10000), None);
}

fn reloc(start: u32, len: u32, capacity: u32) -> Relocation {
    Relocation { start, len, capacity }
}

#[test]
fn u32_vector_growth() {
    let heap = header_heap(0x0100_0000, 0x0200_0000);
    let mut used: u32 = 0;
    let report = alloc_test_u32(&heap, &mut used).unwrap();
    assert_eq!(
        report.relocations,
        vec![
            reloc(0x0100_0100, 1, 4),
            reloc(0x0100_0110, 5, 8),
            reloc(0x0100_0130, 9, 16),
            reloc(0x0100_0170, 17, 32),
        ]
    );
    assert_eq!(report.values, (0..32).collect::<Vec<u32>>());
    assert_eq!(used, 240);
}

#[test]
fn f64_vector_growth() {
    let heap = header_heap(0x0100_0000, 0x0200_0000);
    let mut used: u32 = 4;
    let report = alloc_test_f64(&heap, &mut used).unwrap();
    assert_eq!(
        report.relocations,
        vec![
            reloc(0x0100_0108, 1, 4),
            reloc(0x0100_0128, 5, 8),
            reloc(0x0100_0168, 9, 16),
            reloc(0x0100_01E8, 17, 32),
        ]
    );
    assert_eq!(report.values.len(), 32);
    assert_eq!(report.values[31], 31);
    assert_eq!(used, 488);
}

#[test]
fn vector_growth_stops_at_exhaustion() {
    let heap = header_heap(0, HEADER_SIZE + 100);
    let mut used: u32 = 0;
    let r = alloc_test_u32(&heap, &mut used);
    assert_eq!(r.unwrap_err(), OutOfMemory { layout: layout(64, 4) });
    assert_eq!(used, 48);

    let mut used: u32 = 0;
    let r = vec_growth(&heap, &mut used, layout(2, 2), 3).unwrap();
    assert_eq!(r, vec![reloc(HEADER_SIZE, 1, 4)]);
    assert_eq!(used, 8);
    let r = vec_growth(&heap, &mut used, layout(2, 2), 0).unwrap();
    assert!(r.is_empty());
    assert_eq!(used, 8);
}

#[test]
fn jtag_pin_select() {
    assert_eq!(setup_debug(0), 0x006D_B6C0);
    assert_eq!(setup_debug(0xFFFF_FFFF), 0xFF6D_B6FF);
    assert_eq!(setup_debug(0x0000_0009), 0x006D_B6C9);
}

#[test]
fn marked_values_low_half_sum() {
    let v = marked_values(32);
    assert_eq!(v.len(), 32);
    assert_eq!(v[0], 0x00FF_0000);
    assert_eq!(v[31], 0x00FF_001F);
    assert_eq!(sum_low_halves(&v), 496);
    assert_eq!(sum_low_halves(&vec![0xFFFF_FFFF, 0x1234_0001]), 0x1_0000);
    assert_eq!(sum_low_halves(&Vec::new()), 0);
}

#[test]
fn header_variant_aligns_addresses_not_counts() {
    // The user area starts at 0x101, which is odd.
    let heap = header_heap(1, 0x1000);
    let mut used: u32 = 0;
    assert_eq!(heap.acquire(&mut used, layout(1, 2)), Ok(0x102));
    assert_eq!(used, 2);
    assert_eq!(heap.acquire(&mut used, layout(4, 4)), Ok(0x104));
    assert_eq!(used, 7);
    assert_eq!(heap.acquire(&mut used, layout(1, 1)), Ok(0x108));
    assert_eq!(used, 8);
    assert_eq!(heap.acquire(&mut used, layout(16, 256)), Ok(0x200));
    assert_eq!(used, 0x10F);
}

#[test]
fn header_counter_past_capacity_is_exhausted() {
    let heap = header_heap(0, HEADER_SIZE + 16);
    let mut used: u32 = 0x20;
    assert_eq!(heap.acquire(&mut used, layout(0, 1)), Err(OutOfMemory { layout: layout(0, 1) }));
    assert_eq!(used, 0x20);
    assert_eq!(heap.remaining(used), 0);
    let mut used: u32 = u32::MAX;
    assert_eq!(heap.acquire(&mut used, layout(1, 1)), Err(OutOfMemory { layout: layout(1, 1) }));
    assert_eq!(used, u32::MAX);
}

#[test]
fn vector_growth_in_unaligned_user_area() {
    let heap = header_heap(1, 0x1001);
    let mut used: u32 = 0;
    let report = alloc_test_u32(&heap, &mut used).unwrap();
    assert_eq!(
        report.relocations,
        vec![reloc(0x104, 1, 4), reloc(0x114, 5, 8), reloc(0x134, 9, 16), reloc(0x174, 17, 32)]
    );
    assert_eq!(used, 243);

    let heap = header_heap(4, 0x1004);
    let mut used: u32 = 0;
    let report = alloc_test_f64(&heap, &mut used).unwrap();
    assert_eq!(
        report.relocations,
        vec![reloc(0x108, 1, 4), reloc(0x128, 5, 8), reloc(0x168, 9, 16), reloc(0x1E8, 17, 32)]
    );
    assert_eq!(used, 484);
}

#[test]
fn first_bit_set() {
    assert_eq!(set_first_bit(0), 1);
    assert_eq!(set_first_bit(1), 1);
    assert_eq!(set_first_bit(0xFFFF_FFFE), 0xFFFF_FFFF);
    assert_eq!(set_first_bit(0x0000_0010), 0x0000_0011);
}
