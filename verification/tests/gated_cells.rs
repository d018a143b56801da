use ctxcell::CriticalSection;
use ctxcell::InitCtx;
use ctxcell::InitCtxCell;
use ctxcell::IrqCtx;
use ctxcell::MainCtx;
use ctxcell::MainCtxCell;
use std::rc::Rc;

/// Payload whose teardown has an observable side effect: it bumps a
/// shared counter every time it is dropped.
struct DropCounter {
    hits: Rc<std::cell::Cell<u32>>,
}

impl Drop for DropCounter {
    fn drop(&mut self) {
        self.hits.set(self.hits.get() + 1);
    }
}

#[test]
fn main_cell_scenario() {
    let m = MainCtx::new();
    let mut c = MainCtxCell::new(42u16);
    assert_eq!(c.get(&m), 42);
    c.set(&m, 43);
    assert_eq!(c.get(&m), 43);
    assert_eq!(c.replace(&m, 44), 43);
    assert_eq!(c.get(&m), 44);
}

#[test]
fn init_pair_scenario() {
    let mut cell: InitCtxCell<u16> = InitCtxCell::uninit();
    let (m, returned) = MainCtx::new_with_init(
        |ic: &InitCtx, arg: u16| -> u16 {
            assert_eq!(arg, 15);
            let _cs = ic.cs();
            let stored = *cell.init(ic, 14);
            assert_eq!(stored, 14);
            assert_eq!(*cell.read(), 14);
            16
        },
        15,
    );
    assert_eq!(returned, 16);
    assert_eq!(*cell.read(), 14);
    let counter = MainCtxCell::new(0u8);
    assert_eq!(counter.get(&m), 0);
}

#[test]
fn init_cell_yields_value_on_every_read() {
    let mut cell = InitCtxCell::uninit();
    let (_m, _) = MainCtx::new_with_init(
        |ic: &InitCtx, v: u32| {
            let first = *cell.init(ic, v);
            assert_eq!(first, 0xdead_beef);
        },
        0xdead_beefu32,
    );
    let mut round: usize = 0;
    while round < 3 {
        assert_eq!(*cell.read(), 0xdead_beef);
        round += 1;
    }
}

#[test]
fn as_ref_sees_stored_value() {
    let m = MainCtx::new();
    let mut c = MainCtxCell::new(String::from("boot"));
    assert_eq!(c.as_ref(&m).as_str(), "boot");
    let prev = c.replace(&m, String::from("run"));
    assert_eq!(prev, "boot");
    assert_eq!(c.as_ref(&m).as_str(), "run");
}

#[test]
fn zero_sized_payload_adds_no_bookkeeping() {
    assert_eq!(std::mem::size_of::<MainCtxCell<()>>(), 0);
    assert_eq!(
        std::mem::size_of::<MainCtxCell<u16>>(),
        std::mem::size_of::<u16>()
    );
    assert_eq!(std::mem::size_of::<MainCtx>(), 0);
    assert_eq!(std::mem::size_of::<IrqCtx>(), 0);
    assert_eq!(std::mem::size_of::<InitCtx>(), 0);
    assert_eq!(std::mem::size_of::<CriticalSection>(), 0);
}

#[test]
fn drop_runs_once_and_never_before_init() {
    let hits = Rc::new(std::cell::Cell::new(0u32));
    let mut cell = InitCtxCell::uninit();
    let (_m, _) = MainCtx::new_with_init(
        |ic: &InitCtx, h: Rc<std::cell::Cell<u32>>| {
            cell.init(ic, DropCounter { hits: h });
        },
        Rc::clone(&hits),
    );
    let _ = cell.read();
    assert_eq!(hits.get(), 0);
    drop(cell);
    assert_eq!(hits.get(), 1);
}

#[test]
fn uninitialized_cell_tears_down_without_payload_drop() {
    let cell: InitCtxCell<DropCounter> = InitCtxCell::uninit();
    drop(cell);
}

#[test]
fn irq_context_hands_out_copyable_critical_section() {
    let irq = IrqCtx::new();
    let cs = irq.cs();
    let cs_copy = cs;
    assert_eq!(std::mem::size_of_val(&cs_copy), 0);
    assert_eq!(std::mem::size_of_val(&cs), 0);
}
