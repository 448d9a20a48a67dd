use heapsize::allocator::{AllocTable, BlockPtr};
use heapsize::containers::BorrowCell;
use heapsize::measure::MaybeOwned;
use heapsize::owned::{HeapBox, HeapString, HeapVec, SharedSeq, array_children, slice_children};
use heapsize::{EMPTY, HeapSizeOf, do_heap_size_of};
use std::rc::Rc;
use std::sync::Arc;

fn ptr(addr: usize, align: usize) -> BlockPtr {
    BlockPtr { addr, align }
}

#[test]
fn check_empty() {
    // The reserved non-null marker address for allocation-free states.
    assert_eq!(EMPTY, 0x1);
    // Querying through the sentinel short-circuit yields 0 without ever
    // consulting the allocator: an empty table serves fine.
    let table = AllocTable::new();
    assert_eq!(do_heap_size_of(&table, ptr(EMPTY, 1)), 0);
}

#[test]
fn test_heap_size() {
    let mut table = AllocTable::new();
    table.insert(0x1000, 8);
    table.insert(0x2000, 16);
    table.insert(0x3000, 32);

    // EMPTY is the special non-null address used to represent zero-size
    // allocations.
    assert_eq!(do_heap_size_of(&table, ptr(EMPTY, 1)), 0);

    // Not on the heap; 0 bytes.
    let x = 0i64;
    assert_eq!(x.heap_size_of_children(&table), 0);

    // An i64 is 8 bytes.
    let x = HeapBox { ptr: ptr(0x1000, 8), value: Box::new(0i64) };
    assert_eq!(x.heap_size_of_children(&table), 8);

    // An ascii string with 16 chars is 16 bytes in UTF-8.
    let s = HeapString { ptr: ptr(0x2000, 1), value: String::from("0123456789abcdef") };
    assert_eq!(s.heap_size_of_children(&table), 16);

    // Not on the heap.
    let x: Option<i32> = None;
    assert_eq!(x.heap_size_of_children(&table), 0);

    // Not on the heap.
    let x = Some(0i64);
    assert_eq!(x.heap_size_of_children(&table), 0);

    // The `Some` is not on the heap, but the owned block is.
    let x = Some(HeapBox { ptr: ptr(0x1000, 8), value: Box::new(0i64) });
    assert_eq!(x.heap_size_of_children(&table), 8);

    // Not on the heap.
    let x = Arc::new(0i64);
    assert_eq!(x.heap_size_of_children(&table), 0);

    // The `Arc` is not on the heap, but the owned block is.
    let x = Arc::new(HeapBox { ptr: ptr(0x1000, 8), value: Box::new(0i64) });
    assert_eq!(x.heap_size_of_children(&table), 8);

    // Zero elements, no heap storage: the dangling pointer is a sentinel.
    let x: HeapVec<i64> = HeapVec { ptr: ptr(8, 8), items: vec![] };
    assert_eq!(x.heap_size_of_children(&table), 0);

    // Four elements, 8 bytes per element.
    let x = HeapVec { ptr: ptr(0x3000, 8), items: vec![0i64, 1i64, 2i64, 3i64] };
    assert_eq!(x.heap_size_of_children(&table), 32);
}

#[test]
fn sanity_check_heapsize_works_as_expected() {
    let mut table = AllocTable::new();
    table.insert(0x1000, std::mem::size_of::<u8>());
    table.insert(0x2000, 4);
    table.insert(0x3000, 4);
    let boxed = HeapBox { ptr: ptr(0x1000, 1), value: Box::new(1u8) };
    assert_eq!(boxed.heap_size_of_children(&table), std::mem::size_of::<u8>());
    let pair = [
        HeapBox { ptr: ptr(0x2000, 4), value: Box::new(1i32) },
        HeapBox { ptr: ptr(0x3000, 4), value: Box::new(2i32) },
    ];
    assert_eq!(array_children(&pair, &table), 2 * 4);
}

#[test]
fn leaf_types_contribute_their_registered_constant() {
    let table = AllocTable::new();
    assert_eq!(0u8.heap_size_of_children(&table), 0);
    assert_eq!(0u16.heap_size_of_children(&table), 0);
    assert_eq!(0u32.heap_size_of_children(&table), 0);
    assert_eq!(0u64.heap_size_of_children(&table), 0);
    assert_eq!(0usize.heap_size_of_children(&table), 0);
    assert_eq!(0i8.heap_size_of_children(&table), 0);
    assert_eq!(0i16.heap_size_of_children(&table), 0);
    assert_eq!(0i32.heap_size_of_children(&table), 0);
    assert_eq!((-1i64).heap_size_of_children(&table), 0);
    assert_eq!(0isize.heap_size_of_children(&table), 0);
    assert_eq!(true.heap_size_of_children(&table), 0);
    assert_eq!('x'.heap_size_of_children(&table), 0);
    assert_eq!(().heap_size_of_children(&table), 0);
    assert_eq!(
        core::sync::atomic::AtomicBool::new(false).heap_size_of_children(&table),
        0
    );
    assert_eq!(
        core::sync::atomic::AtomicIsize::new(-5).heap_size_of_children(&table),
        0
    );
    assert_eq!(
        core::sync::atomic::AtomicUsize::new(5).heap_size_of_children(&table),
        0
    );
    assert_eq!(
        core::marker::PhantomData::<String>.heap_size_of_children(&table),
        0
    );
}

#[test]
fn borrowed_references_are_never_traversed() {
    let mut table = AllocTable::new();
    table.insert(0x1000, 8);
    let owned = HeapBox { ptr: ptr(0x1000, 8), value: Box::new(0i64) };
    // A borrowed reference to a measurable value still contributes 0: the
    // borrower does not own the block.
    let borrowed: &HeapBox<i64> = &owned;
    assert_eq!(
        <&HeapBox<i64> as HeapSizeOf<AllocTable>>::heap_size_of_children(&borrowed, &table),
        0
    );
}

#[test]
fn tuples_sum_their_components() {
    let mut table = AllocTable::new();
    table.insert(0x1000, 8);
    table.insert(0x2000, 16);
    let a = HeapBox { ptr: ptr(0x1000, 8), value: Box::new(0i64) };
    let b = HeapBox { ptr: ptr(0x2000, 8), value: Box::new(0i64) };
    let pair = (a, b);
    assert_eq!(pair.heap_size_of_children(&table), 24);
    let triple = (0u8, HeapBox { ptr: ptr(0x1000, 8), value: Box::new(0i64) }, 0u32);
    assert_eq!(triple.heap_size_of_children(&table), 8);
}

#[test]
fn results_and_cows_delegate_to_the_present_alternative() {
    let mut table = AllocTable::new();
    table.insert(0x1000, 8);
    let ok: Result<HeapBox<i64>, u8> =
        Ok(HeapBox { ptr: ptr(0x1000, 8), value: Box::new(0i64) });
    assert_eq!(ok.heap_size_of_children(&table), 8);
    let err: Result<HeapBox<i64>, u8> = Err(3);
    assert_eq!(err.heap_size_of_children(&table), 0);

    let borrowed: MaybeOwned<HeapBox<i64>> = MaybeOwned::Borrowed;
    assert_eq!(borrowed.heap_size_of_children(&table), 0);
    let owned = MaybeOwned::Owned(HeapBox { ptr: ptr(0x1000, 8), value: Box::new(0i64) });
    assert_eq!(owned.heap_size_of_children(&table), 8);
}

#[test]
fn shared_sequences_charge_only_their_buffer() {
    let mut table = AllocTable::new();
    table.insert(0x4000, 24);
    let seq = SharedSeq {
        ptr: ptr(0x4000, 8),
        items: vec![Rc::new(1u32), Rc::new(2u32), Rc::new(3u32)],
    };
    // The backing buffer is charged; the shared pointees are not.
    assert_eq!(seq.heap_size_of_children(&table), 24);
}

#[test]
fn slices_and_arrays_sum_element_children() {
    let mut table = AllocTable::new();
    table.insert(0x1000, 8);
    table.insert(0x2000, 16);
    let items = [
        HeapBox { ptr: ptr(0x1000, 8), value: Box::new(0i64) },
        HeapBox { ptr: ptr(0x2000, 8), value: Box::new(0i64) },
    ];
    assert_eq!(array_children(&items, &table), 24);
    assert_eq!(slice_children(&items[..1], &table), 8);
}

#[test]
fn borrow_cell_delegates_to_its_value() {
    let mut table = AllocTable::new();
    table.insert(0x1000, 8);
    let cell = BorrowCell {
        value: HeapBox { ptr: ptr(0x1000, 8), value: Box::new(0i64) },
        mutably_borrowed: false,
    };
    assert_eq!(cell.heap_size_of_children(&table), 8);
}

#[test]
fn measuring_twice_yields_identical_results() {
    let mut table = AllocTable::new();
    table.insert(0x1000, 8);
    table.insert(0x3000, 32);
    let value = HeapVec {
        ptr: ptr(0x3000, 8),
        items: vec![
            HeapBox { ptr: ptr(0x1000, 8), value: Box::new(0i64) },
        ],
    };
    let first = value.heap_size_of_children(&table);
    let second = value.heap_size_of_children(&table);
    assert_eq!(first, second);
    assert_eq!(first, 40);
}

#[test]
fn table_allocator_reports_recorded_blocks() {
    let mut table = AllocTable::new();
    table.insert(0x1000, 64);
    table.insert(0x2000, 256);
    // A recorded block reports its recorded usable size, through the
    // non-sentinel path.
    assert_eq!(do_heap_size_of(&table, ptr(0x1000, 8)), 64);
    assert_eq!(do_heap_size_of(&table, ptr(0x2000, 1)), 256);
    // Re-recording an address shadows the earlier entry.
    table.insert(0x1000, 128);
    assert_eq!(do_heap_size_of(&table, ptr(0x1000, 8)), 128);
}
