use bootcore::cell::{HalVtableEntry, HalVtableEntryWriter, VolatileCell};
use bootcore::failure::Failure;
use bootcore::hal::{PortSlot, PortVectors};
use bootcore::vtable::{HalVectorTable, HalVtableAC};

const F: usize = 0x1000;
const G: usize = 0x2000;

fn f(port: u16) -> u16 {
    (port & 0xff) + 3
}

fn g(port: u16) -> u16 {
    (port & 0xff) + 5
}

fn call(port: u16) -> impl FnOnce(usize) -> u16 {
    move |vector: usize| match vector {
        F => f(port),
        G => g(port),
        _ => 0xffff,
    }
}

fn table() -> HalVtableAC<PortVectors> {
    HalVtableAC::new(0, PortVectors::new(F, 0x1100, 0x1200, 0x1300, 0x1400, 0x1500))
}

#[test]
fn dispatch_calls_the_default_vector() {
    let mut t = table();
    assert_eq!(t.dispatch(PortSlot::InB, call(0x3f8)), Ok(0xfb));
}

#[test]
fn dispatch_observes_a_modify_that_completed() {
    let mut t = table();
    assert_eq!(t.dispatch(PortSlot::InB, call(0x3f8)), Ok(0xfb));
    assert_eq!(t.modify(PortSlot::InB, G), Ok(()));
    assert_eq!(t.dispatch(PortSlot::InB, call(0x3f8)), Ok(0xfd));
}

#[test]
fn reader_that_started_before_modify_sees_the_prior_vector() {
    let mut t = table();
    let loaded = t.begin_dispatch(PortSlot::InB).unwrap();
    assert_eq!(t.lease_count(), 1);
    assert!(!t.try_modify(PortSlot::InB, G));
    assert_eq!(t.finish_dispatch(loaded, call(0x3f8)), Ok(0xfb));
    assert_eq!(t.lease_count(), 0);
    assert!(t.try_modify(PortSlot::InB, G));
    assert_eq!(t.dispatch(PortSlot::InB, call(0x3f8)), Ok(0xfd));
}

#[test]
fn sequential_use_never_blocks() {
    let mut t = table();
    for _ in 0..50 {
        assert_eq!(t.dispatch(PortSlot::InB, call(0x2f8)), Ok(0xfb));
        assert_eq!(t.lease_count(), 0);
    }
    assert_eq!(t.modify(PortSlot::InB, G), Ok(()));
    assert_eq!(t.lease_count(), 0);
    assert_eq!(t.dispatch(PortSlot::InB, call(0x2f8)), Ok(0xfd));
    assert_eq!(t.lease_count(), 0);
}

#[test]
fn readers_proceed_together() {
    let mut t = table();
    let a = t.begin_dispatch(PortSlot::InB).unwrap();
    let b = t.begin_dispatch(PortSlot::InW).unwrap();
    let c = t.begin_dispatch(PortSlot::InB).unwrap();
    assert_eq!(t.lease_count(), 3);
    assert_eq!((a, b, c), (F, 0x1100, F));
    assert!(!t.try_modify(PortSlot::InW, G));
    assert_eq!(t.finish_dispatch(b, |v| v), Ok(0x1100));
    assert_eq!(t.finish_dispatch(a, |v| v), Ok(F));
    assert!(!t.try_modify(PortSlot::InW, G));
    assert_eq!(t.finish_dispatch(c, |v| v), Ok(F));
    assert_eq!(t.lease_count(), 0);
    assert!(t.try_modify(PortSlot::InW, G));
    assert_eq!(t.dispatch(PortSlot::InW, |v| v), Ok(G));
}

#[test]
fn modify_changes_one_slot_only() {
    let mut t = table();
    assert_eq!(t.modify(PortSlot::OutW, 0x4242), Ok(()));
    assert_eq!(t.dispatch(PortSlot::InB, |v| v), Ok(F));
    assert_eq!(t.dispatch(PortSlot::InW, |v| v), Ok(0x1100));
    assert_eq!(t.dispatch(PortSlot::InD, |v| v), Ok(0x1200));
    assert_eq!(t.dispatch(PortSlot::OutB, |v| v), Ok(0x1300));
    assert_eq!(t.dispatch(PortSlot::OutW, |v| v), Ok(0x4242));
    assert_eq!(t.dispatch(PortSlot::OutD, |v| v), Ok(0x1500));
}

#[test]
fn initialize_records_the_base_once() {
    let mut t = table();
    assert_eq!(t.recorded_base(), 0);
    t.relocate(0x7c00);
    assert_eq!(t.current_address(), 0x7c00);
    assert_eq!(t.initialize(), Ok(0x7c00));
    assert_eq!(t.recorded_base(), 0x7c00);
    assert_eq!(t.initialize(), Err(0x7c00));
    t.relocate(0x9000);
    assert_eq!(t.initialize(), Err(0x7c00));
    assert_eq!(t.recorded_base(), 0x7c00);
    assert_eq!(t.lease_count(), 0);
}

#[test]
fn initialize_of_an_unplaced_table_leaves_the_base_unset() {
    let mut t = table();
    assert_eq!(t.initialize(), Ok(0));
    assert_eq!(t.recorded_base(), 0);
    t.relocate(0x7c00);
    assert_eq!(t.initialize(), Ok(0x7c00));
}

#[test]
fn dispatch_translates_after_relocation() {
    let mut t = table();
    t.relocate(0x800);
    assert_eq!(t.initialize(), Ok(0x800));
    assert_eq!(t.dispatch(PortSlot::InB, |v| v), Ok(F));
    t.relocate(0x10800);
    assert_eq!(t.dispatch(PortSlot::InB, |v| v), Ok(F + 0x10000));
    assert_eq!(t.translate(0x700), Ok(0x10700));
    t.relocate(0x400);
    assert_eq!(t.dispatch(PortSlot::InB, |v| v), Ok(F - 0x400));
}

#[test]
fn dispatch_fails_when_the_base_is_unset() {
    let mut t = table();
    t.relocate(0x7c00);
    assert_eq!(t.dispatch(PortSlot::InB, call(0x3f8)), Err(Failure::UnsetBase));
    assert_eq!(t.lease_count(), 0);
    assert_eq!(t.modify(PortSlot::InB, G), Ok(()));
    assert_eq!(t.initialize(), Ok(0x7c00));
    assert_eq!(t.dispatch(PortSlot::InB, call(0x3f8)), Ok(0xfd));
}

#[test]
fn dispatch_fails_when_the_target_leaves_the_address_space() {
    let mut t = table();
    t.relocate(0x2000);
    assert_eq!(t.initialize(), Ok(0x2000));
    t.relocate(0x100);
    assert_eq!(t.dispatch(PortSlot::InB, call(0x3f8)), Err(Failure::TargetOverflow));
    assert_eq!(t.lease_count(), 0);
    assert_eq!(t.translate(0x1f00), Ok(0));
}

#[test]
fn dispatch_fails_when_the_offset_is_unrepresentable() {
    let mut t = HalVtableAC::new(0, PortVectors::new(usize::MAX, 0, 0, 0, 0, 0));
    t.relocate(1);
    assert_eq!(t.initialize(), Ok(1));
    t.relocate(2);
    assert_eq!(t.dispatch(PortSlot::InB, |v| v), Err(Failure::UnrepresentableOffset));
    assert_eq!(t.lease_count(), 0);
}

#[test]
fn begin_dispatch_is_refused_while_a_writer_holds_the_table() {
    let mut t = table();
    assert!(t.begin_modify());
    assert_eq!(t.lease_count(), -1);
    assert_eq!(t.begin_dispatch(PortSlot::InB), None);
    assert_eq!(t.lease_count(), -1);
    assert!(!t.begin_modify());
    assert!(!t.try_modify(PortSlot::InB, 0x3000));
    t.finish_modify(PortSlot::InB, G);
    assert_eq!(t.lease_count(), 0);
    assert_eq!(t.begin_dispatch(PortSlot::InB), Some(G));
    assert_eq!(t.finish_dispatch(G, call(0x3f8)), Ok(0xfd));
}

#[test]
fn begin_modify_is_refused_while_a_reader_holds_the_table() {
    let mut t = table();
    let loaded = t.begin_dispatch(PortSlot::OutB).unwrap();
    assert!(!t.begin_modify());
    assert_eq!(t.lease_count(), 1);
    assert_eq!(t.finish_dispatch(loaded, |v| v), Ok(0x1300));
    assert!(t.begin_modify());
    t.finish_modify(PortSlot::OutB, 0x1301);
    assert_eq!(t.dispatch(PortSlot::OutB, |v| v), Ok(0x1301));
}

#[test]
fn port_vectors_select_and_replace() {
    let mut vt = PortVectors::new(1, 2, 3, 4, 5, 6);
    assert_eq!(vt.entry(PortSlot::InB).load(), 1);
    assert_eq!(vt.entry(PortSlot::InW).load(), 2);
    assert_eq!(vt.entry(PortSlot::InD).load(), 3);
    assert_eq!(vt.entry(PortSlot::OutB).load(), 4);
    assert_eq!(vt.entry(PortSlot::OutW).load(), 5);
    assert_eq!(vt.entry(PortSlot::OutD).load(), 6);
    vt.replace(PortSlot::InD, 33);
    vt.replace(PortSlot::OutD, 66);
    assert_eq!(vt.entry(PortSlot::InB).load(), 1);
    assert_eq!(vt.entry(PortSlot::InD).load(), 33);
    assert_eq!(vt.entry(PortSlot::OutD).load(), 66);
}

#[test]
fn volatile_cell_loads_what_was_stored() {
    let mut cell = VolatileCell::new(7u32);
    assert_eq!(cell.load(), 7);
    cell.store(9);
    assert_eq!(cell.load(), 9);
    *cell.get_mut() += 1;
    assert_eq!(cell.load(), 10);
    let copy = cell;
    assert_eq!(copy.load(), 10);
}

#[test]
fn entry_and_writer_share_the_vector() {
    let entry = HalVtableEntry::new(0x1234usize);
    assert_eq!(entry.load(), 0x1234);
    assert_eq!(entry.get_cell().load(), 0x1234);
    let mut writer: HalVtableEntryWriter<usize> = entry.into_writer();
    assert_eq!(writer.load(), 0x1234);
    writer.store(0x5678);
    assert_eq!(writer.load(), 0x5678);
    *writer.get_mut() = 0x9abc;
    let entry = writer.into_entry();
    assert_eq!(entry.load(), 0x9abc);
}
