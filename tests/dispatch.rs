use micecoreos::interrupts::{
    forward_key, init_idt, Action, Controller, ControllerPair, DecoderSlot, EnableError, Entry,
    Handler, InterruptCore, Key, RemapError,
};
use micecoreos::serial::{print, SerialError, SerialSink, SERIAL_IO_BASE};
use micecoreos::vga::Writer;

fn remapped_core() -> InterruptCore {
    let mut pics = ControllerPair::new();
    assert_eq!(pics.remap(0x20, 0x28), Ok(()));
    let mut core = InterruptCore::install(pics);
    assert_eq!(core.enable(), Ok(()));
    core
}

#[test]
fn vector_table_binds_four_handlers() {
    let idt = init_idt();
    assert_eq!(idt.entry(3), Some(Entry { handler: Handler::Breakpoint, stack_index: None }));
    assert_eq!(idt.entry(8), Some(Entry { handler: Handler::DoubleFault, stack_index: Some(0) }));
    assert_eq!(idt.entry(0x20), Some(Entry { handler: Handler::Timer, stack_index: None }));
    assert_eq!(idt.entry(0x21), Some(Entry { handler: Handler::Keyboard, stack_index: None }));
    assert_eq!(idt.entry(0x22), None);
    assert_eq!(idt.entry(0), None);
    assert_eq!(idt.entry(255), None);
}

#[test]
fn dispatch_actions() {
    let core = remapped_core();
    assert_eq!(core.dispatch(3), Action::ReportAndResume);
    assert_eq!(core.dispatch(8), Action::ReportAndHalt(0));
    assert_eq!(core.dispatch(0x21), Action::ReadScancode(0x21));
    assert_eq!(core.dispatch(14), Action::Halt);
}

#[test]
fn timer_acknowledges_primary_only() {
    let core = remapped_core();
    assert!(core.is_enabled());
    assert_eq!(core.dispatch(0x20), Action::Acknowledge(0x20));
    assert_eq!(core.timer_interrupt(), vec![Controller::Primary]);
    let pics = core.controllers();
    assert_eq!(pics.acknowledge(0x20), vec![Controller::Primary]);
    assert_eq!(pics.acknowledge(0x28), vec![Controller::Secondary, Controller::Primary]);
    assert_eq!(pics.acknowledge(0x30), vec![]);
}

#[test]
fn enable_requires_remap() {
    let mut core = InterruptCore::install(ControllerPair::new());
    assert_eq!(core.enable(), Err(EnableError::ControllersNotRemapped));
    assert!(!core.is_enabled());
}

#[test]
fn malformed_remaps_are_refused() {
    let mut pics = ControllerPair::new();
    assert_eq!(pics.remap(0x10, 0x28), Err(RemapError::ReservedRange));
    assert_eq!(pics.remap(0x20, 0xF9), Err(RemapError::ReservedRange));
    assert_eq!(pics.remap(0x20, 0x24), Err(RemapError::Overlapping));
    assert_eq!(pics, ControllerPair::new());
    assert!(!pics.handles_interrupt(0x20));
    assert_eq!(pics.remap(0x20, 0x28), Ok(()));
    assert!(pics.handles_interrupt(0x2F));
    assert!(!pics.handles_interrupt(0x30));
}

#[test]
fn key_press_and_release_print_one_char() {
    let core = remapped_core();
    let before = core.controllers();
    let mut slot = DecoderSlot::Uninitialized;
    let mut w = Writer::new();
    let eoi = core.keyboard_interrupt(&mut slot, &mut w, 0x1E);
    assert_eq!(eoi, vec![Controller::Primary]);
    assert_eq!(w.char_at(0, 0).ascii_char, b'a');
    assert_eq!(w.column_position(), 1);
    let eoi = core.keyboard_interrupt(&mut slot, &mut w, 0x9E);
    assert_eq!(eoi, vec![Controller::Primary]);
    assert_eq!(w.column_position(), 1);
    assert_eq!(w.char_at(0, 1).ascii_char, b' ');
    assert_eq!(core.controllers(), before);
}

#[test]
fn key_without_character_prints_its_name() {
    let core = remapped_core();
    let mut slot = DecoderSlot::Uninitialized;
    let mut w = Writer::new();
    core.keyboard_interrupt(&mut slot, &mut w, 0x3B);
    assert_eq!(w.column_position(), 2);
    assert_eq!(w.char_at(0, 0).ascii_char, b'F');
    assert_eq!(w.char_at(0, 1).ascii_char, b'1');
}

#[test]
fn forward_key_writes_text() {
    let mut w = Writer::new();
    forward_key(&mut w, Some(Key::Named(String::from("Escape"))));
    forward_key(&mut w, None);
    forward_key(&mut w, Some(Key::Char('!')));
    assert_eq!(w.column_position(), 7);
    assert_eq!(w.char_at(0, 6).ascii_char, b'!');
}

#[test]
fn serial_init_once_then_print() {
    let mut sink = SerialSink::new(SERIAL_IO_BASE);
    assert!(!sink.initialized);
    assert_eq!(sink.init(), Ok(()));
    assert_eq!(sink.init(), Err(SerialError::AlreadyInitialized));
    assert_eq!(sink.io_base, 0x3F8);
    assert_eq!(print(&sink, "ok\n"), b"ok\n".to_vec());
    assert_eq!(print(&sink, ""), Vec::<u8>::new());
}
