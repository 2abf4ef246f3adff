//! Vector table, chained interrupt controller pair, and the decisions taken on each delivery.
use vstd::prelude::*;
use pc_keyboard::layouts::Uk105Key;
use pc_keyboard::{DecodedKey, Keyboard, ScancodeSet1};
use crate::vga::{write_string_spec, Writer};

verus! {

pub const PIC_1_OFFSET: u8 = 0x20;

pub const PIC_2_OFFSET: u8 = 0x28;

pub const TIMER_INTERRUPT_ID: u8 = 0x20;

pub const KEYBOARD_INTERRUPT_ID: u8 = 0x21;

pub const BREAKPOINT_VECTOR: u8 = 3;

pub const DOUBLE_FAULT_VECTOR: u8 = 8;

/// Alternate stack used by the double-fault handler.
pub const DOUBLE_FAULT_IST_INDEX: u16 = 0;

/// I/O port that delivers keyboard scancodes.
pub const KEYBOARD_DATA_PORT: u16 = 0x60;

pub const IDT_ENTRIES: usize = 256;

/// Vectors below this one are reserved for CPU exceptions.
pub const FIRST_DEVICE_VECTOR: u8 = 32;

#[derive(Debug, Clone, Copy, PartialEq, Eq, Structural)]
pub enum Handler {
    Breakpoint,
    DoubleFault,
    Timer,
    Keyboard,
}

/// A bound slot: its handler, and the alternate stack it runs on, if any.
#[derive(Debug, Clone, Copy, PartialEq, Eq, Structural)]
pub struct Entry {
    pub handler: Handler,
    pub stack_index: Option<u16>,
}

/// The interrupt vector table: one slot per vector, empty or bound to a handler.
pub struct VectorTable {
    entries: Vec<Option<Entry>>,
}

impl View for VectorTable {
    type V = Seq<Option<Entry>>;

    closed spec fn view(&self) -> Seq<Option<Entry>> {
        self.entries@
    }
}

impl VectorTable {
    pub fn new() -> (r: VectorTable)
        ensures
            r@ == Seq::new(IDT_ENTRIES as nat, |i: int| None::<Entry>),
    {
        let mut entries: Vec<Option<Entry>> = Vec::new();
        let mut i: usize = 0;
        while i < IDT_ENTRIES
            invariant
                i <= IDT_ENTRIES,
                entries@ == Seq::new(i as nat, |j: int| None::<Entry>),
            decreases IDT_ENTRIES - i,
        {
            entries.push(None);
            i = i + 1;
            assert(entries@ =~= Seq::new(i as nat, |j: int| None::<Entry>));
        }
        VectorTable { entries }
    }

    /// Binds `vector` to `handler` on the current stack.
    pub fn set_handler(&mut self, vector: u8, handler: Handler)
        requires
            old(self)@.len() == IDT_ENTRIES,
        ensures
            final(self)@ == old(self)@.update(
                vector as int,
                Some(Entry { handler, stack_index: None }),
            ),
    {
        self.entries.set(vector as usize, Some(Entry { handler, stack_index: None }));
    }

    /// Makes the handler bound to `vector` run on alternate stack `index`.
    pub fn set_stack_index(&mut self, vector: u8, index: u16)
        requires
            old(self)@.len() == IDT_ENTRIES,
            old(self)@[vector as int] is Some,
        ensures
            final(self)@ == old(self)@.update(
                vector as int,
                Some(Entry { handler: old(self)@[vector as int]->Some_0.handler, stack_index: Some(index) }),
            ),
    {
        let handler = self.entries[vector as usize].unwrap().handler;
        self.entries.set(vector as usize, Some(Entry { handler, stack_index: Some(index) }));
    }

    pub fn entry(&self, vector: u8) -> (r: Option<Entry>)
        requires
            self@.len() == IDT_ENTRIES,
        ensures
            r == self@[vector as int],
    {
        self.entries[vector as usize]
    }
}

/// The table this system installs: breakpoint, double fault on its own stack, timer, keyboard.
pub open spec fn idt_spec() -> Seq<Option<Entry>> {
    Seq::new(
        IDT_ENTRIES as nat,
        |i: int|
            if i == BREAKPOINT_VECTOR {
                Some(Entry { handler: Handler::Breakpoint, stack_index: None })
            } else if i == DOUBLE_FAULT_VECTOR {
                Some(Entry { handler: Handler::DoubleFault, stack_index: Some(DOUBLE_FAULT_IST_INDEX) })
            } else if i == TIMER_INTERRUPT_ID {
                Some(Entry { handler: Handler::Timer, stack_index: None })
            } else if i == KEYBOARD_INTERRUPT_ID {
                Some(Entry { handler: Handler::Keyboard, stack_index: None })
            } else {
                None
            },
    )
}

/// Builds the vector table with every handler of the system registered.
pub fn init_idt() -> (r: VectorTable)
    ensures
        r@ == idt_spec(),
{
    let mut idt = VectorTable::new();
    idt.set_handler(BREAKPOINT_VECTOR, Handler::Breakpoint);
    idt.set_handler(DOUBLE_FAULT_VECTOR, Handler::DoubleFault);
    idt.set_stack_index(DOUBLE_FAULT_VECTOR, DOUBLE_FAULT_IST_INDEX);
    idt.set_handler(TIMER_INTERRUPT_ID, Handler::Timer);
    idt.set_handler(KEYBOARD_INTERRUPT_ID, Handler::Keyboard);
    assert(idt@ =~= idt_spec());
    idt
}

#[derive(Debug, Clone, Copy, PartialEq, Eq, Structural)]
pub enum Controller {
    Primary,
    Secondary,
}

#[derive(Debug, Clone, Copy, PartialEq, Eq, Structural)]
pub enum RemapError {
    /// A range would start below the first device vector or run past vector 255.
    ReservedRange,
    /// The two ranges of eight vectors overlap.
    Overlapping,
}

/// Two chained 8-vector controllers and the vector bases they are mapped to.
#[derive(Debug, Clone, Copy, PartialEq, Eq, Structural)]
pub struct ControllerPair {
    pub primary_offset: u8,
    pub secondary_offset: u8,
    pub remapped: bool,
}

pub open spec fn range_in_device_vectors(offset: u8) -> bool {
    FIRST_DEVICE_VECTOR <= offset && offset as int + 8 <= 256
}

pub open spec fn valid_remap(primary_offset: u8, secondary_offset: u8) -> bool {
    &&& range_in_device_vectors(primary_offset)
    &&& range_in_device_vectors(secondary_offset)
    &&& (primary_offset + 8 <= secondary_offset || secondary_offset + 8 <= primary_offset)
}

pub open spec fn controller_handles(offset: u8, vector: u8) -> bool {
    offset <= vector < offset + 8
}

/// End-of-interrupt commands for `vector`, in the order they are issued.
pub open spec fn eoi_spec(p: ControllerPair, vector: u8) -> Seq<Controller> {
    if controller_handles(p.secondary_offset, vector) {
        seq![Controller::Secondary, Controller::Primary]
    } else if controller_handles(p.primary_offset, vector) {
        seq![Controller::Primary]
    } else {
        seq![]
    }
}

impl ControllerPair {
    /// The pair as the firmware leaves it: bases 0x08 and 0x70, not yet remapped.
    pub fn new() -> (r: ControllerPair)
        ensures
            r.primary_offset == 0x08,
            r.secondary_offset == 0x70,
            !r.remapped,
    {
        ControllerPair { primary_offset: 0x08, secondary_offset: 0x70, remapped: false }
    }

    pub open spec fn wf(self) -> bool {
        self.remapped ==> valid_remap(self.primary_offset, self.secondary_offset)
    }

    /// Moves the two controllers to the given bases and chains them.
    pub fn remap(&mut self, primary_offset: u8, secondary_offset: u8) -> (r: Result<(), RemapError>)
        ensures
            r is Ok <==> valid_remap(primary_offset, secondary_offset),
            r == Err::<(), RemapError>(RemapError::ReservedRange) <==> !range_in_device_vectors(primary_offset)
                || !range_in_device_vectors(secondary_offset),
            r == Err::<(), RemapError>(RemapError::Overlapping) <==> range_in_device_vectors(
                primary_offset,
            ) && range_in_device_vectors(secondary_offset) && !valid_remap(
                primary_offset,
                secondary_offset,
            ),
            r is Ok ==> *final(self) == (ControllerPair { primary_offset, secondary_offset, remapped: true }),
            r is Err ==> *final(self) == *old(self),
    {
        if primary_offset < FIRST_DEVICE_VECTOR || primary_offset > 248 || secondary_offset
            < FIRST_DEVICE_VECTOR || secondary_offset > 248 {
            return Err(RemapError::ReservedRange);
        }
        if !(primary_offset as u16 + 8 <= secondary_offset as u16 || secondary_offset as u16 + 8
            <= primary_offset as u16) {
            return Err(RemapError::Overlapping);
        }
        self.primary_offset = primary_offset;
        self.secondary_offset = secondary_offset;
        self.remapped = true;
        Ok(())
    }

    pub fn handles_interrupt(&self, vector: u8) -> (r: bool)
        requires
            self.wf(),
        ensures
            r == (controller_handles(self.primary_offset, vector) || controller_handles(
                self.secondary_offset,
                vector,
            )),
    {
        (self.primary_offset <= vector && vector - self.primary_offset < 8) || (
        self.secondary_offset <= vector && vector - self.secondary_offset < 8)
    }

    /// The end-of-interrupt commands for a serviced `vector`: the secondary and then the
    /// primary when the secondary raised it, the primary alone otherwise.
    pub fn acknowledge(&self, vector: u8) -> (r: Vec<Controller>)
        requires
            self.remapped,
            self.wf(),
        ensures
            r@ == eoi_spec(*self, vector),
    {
        let mut r: Vec<Controller> = Vec::new();
        if self.secondary_offset <= vector && vector - self.secondary_offset < 8 {
            r.push(Controller::Secondary);
            r.push(Controller::Primary);
        } else if self.primary_offset <= vector && vector - self.primary_offset < 8 {
            r.push(Controller::Primary);
        }
        assert(r@ =~= eoi_spec(*self, vector));
        r
    }
}

/// What the dispatch core does for one delivered vector.
#[derive(Debug, Clone, Copy, PartialEq, Eq, Structural)]
pub enum Action {
    /// Print the machine context and resume after the trap.
    ReportAndResume,
    /// Print the machine context on the given alternate stack, then halt for good.
    ReportAndHalt(u16),
    /// Acknowledge the vector to the controller pair; no other work.
    Acknowledge(u8),
    /// Read one scancode from the keyboard port, decode and forward it, then acknowledge.
    ReadScancode(u8),
    /// No handler is bound: the system halts.
    Halt,
}

pub open spec fn dispatch_spec(table: Seq<Option<Entry>>, vector: u8) -> Action {
    match table[vector as int] {
        None => Action::Halt,
        Some(e) => match e.handler {
            Handler::Breakpoint => Action::ReportAndResume,
            Handler::DoubleFault => Action::ReportAndHalt(
                match e.stack_index {
                    Some(i) => i,
                    None => DOUBLE_FAULT_IST_INDEX,
                },
            ),
            Handler::Timer => Action::Acknowledge(vector),
            Handler::Keyboard => Action::ReadScancode(vector),
        },
    }
}

#[derive(Debug, Clone, Copy, PartialEq, Eq, Structural)]
pub enum EnableError {
    /// The controller pair still uses the firmware's vector bases.
    ControllersNotRemapped,
}

/// The installed vector table, the controller pair, and whether interrupts are unmasked.
pub struct InterruptCore {
    table: VectorTable,
    pics: ControllerPair,
    enabled: bool,
}

impl InterruptCore {
    pub closed spec fn table(&self) -> Seq<Option<Entry>> {
        self.table@
    }

    pub closed spec fn pics(&self) -> ControllerPair {
        self.pics
    }

    pub closed spec fn enabled(&self) -> bool {
        self.enabled
    }

    pub open spec fn wf(&self) -> bool {
        self.table() == idt_spec() && self.pics().wf()
    }

    /// Builds and installs the vector table; interrupts stay masked.
    pub fn install(pics: ControllerPair) -> (r: InterruptCore)
        requires
            pics.wf(),
        ensures
            r.wf(),
            r.pics() == pics,
            !r.enabled(),
    {
        InterruptCore { table: init_idt(), pics, enabled: false }
    }

    pub fn controllers(&self) -> (r: ControllerPair)
        ensures
            r == self.pics(),
    {
        self.pics
    }

    pub fn is_enabled(&self) -> (r: bool)
        ensures
            r == self.enabled(),
    {
        self.enabled
    }

    /// Unmasks interrupts, which is allowed only once the controller pair is remapped.
    pub fn enable(&mut self) -> (r: Result<(), EnableError>)
        ensures
            r is Ok <==> old(self).pics().remapped,
            r is Err ==> r == Err::<(), EnableError>(EnableError::ControllersNotRemapped),
            final(self).enabled() == (old(self).enabled() || r is Ok),
            final(self).table() == old(self).table(),
            final(self).pics() == old(self).pics(),
    {
        if !self.pics.remapped {
            return Err(EnableError::ControllersNotRemapped);
        }
        self.enabled = true;
        Ok(())
    }

    /// The action bound to a delivered vector.
    pub fn dispatch(&self, vector: u8) -> (r: Action)
        requires
            self.wf(),
        ensures
            r == dispatch_spec(self.table(), vector),
    {
        match self.table.entry(vector) {
            None => Action::Halt,
            Some(e) => match e.handler {
                Handler::Breakpoint => Action::ReportAndResume,
                Handler::DoubleFault => Action::ReportAndHalt(
                    match e.stack_index {
                        Some(i) => i,
                        None => DOUBLE_FAULT_IST_INDEX,
                    },
                ),
                Handler::Timer => Action::Acknowledge(vector),
                Handler::Keyboard => Action::ReadScancode(vector),
            },
        }
    }

    /// The timer handler's whole duty: acknowledge the timer vector.
    pub fn timer_interrupt(&self) -> (r: Vec<Controller>)
        requires
            self.wf(),
            self.pics().remapped,
        ensures
            r@ == eoi_spec(self.pics(), TIMER_INTERRUPT_ID),
    {
        self.pics.acknowledge(TIMER_INTERRUPT_ID)
    }

    /// Feeds one scancode to the decoder, building it first if this is its first use,
    /// forwards the key it completes, if any, to the console, and returns the
    /// acknowledgement of the keyboard vector.
    pub fn keyboard_interrupt(
        &self,
        decoder: &mut DecoderSlot,
        writer: &mut Writer,
        scancode: u8,
    ) -> (r: Vec<Controller>)
        requires
            self.wf(),
            self.pics().remapped,
            old(writer).wf(),
        ensures
            r@ == eoi_spec(self.pics(), KEYBOARD_INTERRUPT_ID),
            *final(decoder) is Ready,
            slot_scancodes(*final(decoder)) == slot_scancodes(*old(decoder)).push(scancode),
            final(writer).wf(),
            final(writer)@ == match decoded_text(slot_scancodes(*final(decoder))) {
                None => old(writer)@,
                Some(text) => write_string_spec(old(writer)@, vstd::utf8::encode_utf8(text)),
            },
    {
        let key = match decoder {
            DecoderSlot::Ready(d) => decode_scancode(d, scancode),
            DecoderSlot::Uninitialized => {
                let mut d = new_decoder();
                let key = decode_scancode(&mut d, scancode);
                *decoder = DecoderSlot::Ready(d);
                key
            },
        };
        forward_key(writer, key);
        self.pics.acknowledge(KEYBOARD_INTERRUPT_ID)
    }
}

/// A decoded key: a character, or the symbolic name of a key that has none.
#[derive(Debug, PartialEq, Eq)]
pub enum Key {
    Char(char),
    Named(String),
}

/// The text that the console shows for a decoded key.
pub open spec fn key_text(k: Key) -> Seq<char> {
    match k {
        Key::Char(c) => seq![c],
        Key::Named(name) => name@,
    }
}

pub open spec fn key_text_of(k: Option<Key>) -> Option<Seq<char>> {
    match k {
        Some(k) => Some(key_text(k)),
        None => None,
    }
}

/// The bytes that the console receives for a decoded key.
pub open spec fn key_bytes(k: Key) -> Seq<u8> {
    vstd::utf8::encode_utf8(key_text(k))
}

/// Writes a decoded key, if any, to the console.
pub fn forward_key(writer: &mut Writer, key: Option<Key>)
    requires
        old(writer).wf(),
    ensures
        final(writer).wf(),
        final(writer)@ == match key {
            None => old(writer)@,
            Some(k) => write_string_spec(old(writer)@, key_bytes(k)),
        },
{
    match key {
        None => {},
        Some(Key::Char(c)) => writer.write_char(c),
        Some(Key::Named(name)) => writer.write_string(name.as_str()),
    }
}

/// The scancode decoder: a UK 105-key layout over scancode set 1.
#[verifier::external_body]
pub struct KeyDecoder {
    keyboard: Keyboard<Uk105Key, ScancodeSet1>,
}

/// The scancodes fed to a decoder since it was built.
pub uninterp spec fn scancodes_fed(d: KeyDecoder) -> Seq<u8>;

/// The text of the key that the last scancode of `scancodes` completes, when the whole
/// stream is decoded from the start state; `None` when it completes no key.
pub uninterp spec fn decoded_text(scancodes: Seq<u8>) -> Option<Seq<char>>;

/// The decoder of the interrupt path, built on the first keyboard interrupt.
pub enum DecoderSlot {
    Uninitialized,
    Ready(KeyDecoder),
}

/// The scancodes the slot's decoder has been fed; none before it is built.
pub open spec fn slot_scancodes(slot: DecoderSlot) -> Seq<u8> {
    match slot {
        DecoderSlot::Ready(d) => scancodes_fed(d),
        DecoderSlot::Uninitialized => Seq::empty(),
    }
}

/// Relies on `pc_keyboard::Keyboard::new`: a decoder in its start state, fed nothing yet.
#[verifier::external_body]
fn new_decoder() -> (r: KeyDecoder)
    ensures
        scancodes_fed(r) == Seq::<u8>::empty(),
{
    KeyDecoder { keyboard: Keyboard::new(Uk105Key, ScancodeSet1) }
}

/// Relies on the decoding cycle of `pc_keyboard::Keyboard`: `add_byte` takes the scancode
/// (a decoding error completes no key), and `process_keyevent` maps the key event it
/// completes, if any, through the modifiers and the layout; `KeyCode`'s `Debug` names keys
/// without a character. The decoder's state, and so the result, depends only on the
/// scancodes fed through this cycle since `Keyboard::new`.
#[verifier::external_body]
fn decode_scancode(decoder: &mut KeyDecoder, scancode: u8) -> (r: Option<Key>)
    ensures
        scancodes_fed(*final(decoder)) == scancodes_fed(*old(decoder)).push(scancode),
        key_text_of(r) == decoded_text(scancodes_fed(*final(decoder))),
{
    let event = match decoder.keyboard.add_byte(scancode) {
        Ok(event) => event?,
        Err(_) => return None,
    };
    match decoder.keyboard.process_keyevent(event)? {
        DecodedKey::Unicode(c) => Some(Key::Char(c)),
        DecodedKey::RawKey(code) => Some(Key::Named(format!("{:?}", code))),
    }
}

} // verus!
