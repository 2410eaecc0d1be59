use repac_splitter::mem_table::MemTable;
use repac_splitter::memory::calculate_time_bonus;

#[test]
fn sums_the_listed_elements() {
    let mut mem = MemTable::new();
    mem.insert(0x110, 0x200); // backing-array pointer
    mem.insert(0x118, 3); // element count
    mem.insert(0x220, 5);
    mem.insert(0x224, 7);
    mem.insert(0x228, 8);
    assert_eq!(calculate_time_bonus(&mem, 0x100), 20);
}

#[test]
fn an_unreadable_element_contributes_zero() {
    let mut mem = MemTable::new();
    mem.insert(0x110, 0x200);
    mem.insert(0x118, 3);
    mem.insert(0x220, 5);
    mem.insert(0x228, 8);
    // The element at index 1 is unreadable; the rest still count.
    assert_eq!(calculate_time_bonus(&mem, 0x100), 13);
}

#[test]
fn indices_at_or_past_the_length_are_never_read() {
    let mut mem = MemTable::new();
    mem.insert(0x110, 0x200);
    mem.insert(0x118, 2);
    mem.insert(0x220, 5);
    mem.insert(0x224, 7);
    // Allocated but out-of-length data must not count.
    mem.insert(0x228, 1000);
    assert_eq!(calculate_time_bonus(&mem, 0x100), 12);
}

#[test]
fn an_unreadable_backing_pointer_sums_to_zero() {
    let mut mem = MemTable::new();
    mem.insert(0x118, 3);
    assert_eq!(calculate_time_bonus(&mem, 0x100), 0);
}

#[test]
fn an_unreadable_length_sums_to_zero() {
    let mut mem = MemTable::new();
    mem.insert(0x110, 0x200);
    mem.insert(0x220, 5);
    assert_eq!(calculate_time_bonus(&mem, 0x100), 0);
}

#[test]
fn an_empty_list_sums_to_zero() {
    let mut mem = MemTable::new();
    mem.insert(0x110, 0x200);
    mem.insert(0x118, 0);
    assert_eq!(calculate_time_bonus(&mem, 0x100), 0);
}
