//! The memory bus and the peripherals mapped on it.

use vstd::prelude::*;
use crate::bus::cartridge::{Cartridge, CartridgeView};
use crate::bus::consts::{
    MMAP_IO_PORTS, MMAP_RAM_BANK_SW, MMAP_RAM_ECHO, MMAP_RAM_HIGH, MMAP_RAM_INTERNAL,
    MMAP_ROM_BANK0, MMAP_ROM_BANK_SW, MMAP_SPRITE_OAM, MMAP_VIDEO_RAM,
};
use crate::bus::io::{io_read, io_write, IoPorts, IO_DMA, IO_IE, IO_IF, IO_SIZE};
use crate::bus::joypad::{Joypad, JoypadView, IO_P1};
use crate::bus::memory_range::in_range;
use crate::bus::ppu::{Ppu, PpuView, MMAP_IO_DISPLAY, OAM_SIZE};
use crate::bus::ram::{InternalRam, RamView};
use crate::bus::timer::{Timer, TimerView, MMAP_IO_TIMER};
use crate::config::Config;
use crate::cpu::interrupts::{
    highest_priority, Interrupt, InterruptIter, InterruptMask, InterruptSource,
};
use crate::GameboyError;

pub mod cartridge;
pub mod consts;
pub mod memory_range;
pub mod ppu;
pub mod io;
pub mod joypad;
pub mod ram;
pub mod rtc;
pub mod timer;

verus! {

/// A peripheral that the processor reads and writes through the bus.
///
/// Addresses are absolute bus addresses. An access to an address that the
/// peripheral does not answer to fails and leaves the peripheral unchanged.
pub trait Memory: Sized {
    /// The peripheral's internal invariant.
    spec fn valid(&self) -> bool;

    /// What a read of `address` returns.
    spec fn read_spec(&self, address: u16) -> Result<u8, GameboyError>;

    /// Relates the peripheral before and after a write of `value` to
    /// `address` that returned `result`.
    spec fn write_spec(
        pre: &Self,
        post: &Self,
        address: u16,
        value: u8,
        result: Result<(), GameboyError>,
    ) -> bool;

    /// Writes `value` to `address`.
    fn write(&mut self, address: u16, value: u8) -> (result: Result<(), GameboyError>)
        requires
            old(self).valid(),
        ensures
            final(self).valid(),
            Self::write_spec(old(self), final(self), address, value, result),
    ;

    /// Reads the byte at `address`.
    fn read(&self, address: u16) -> (result: Result<u8, GameboyError>)
        requires
            self.valid(),
        ensures
            result == self.read_spec(address),
    ;
}

/// The peripherals that share the bus.
#[derive(Clone, Copy, Debug, PartialEq, Eq, Structural)]
pub enum Region {
    /// The cartridge: its ROM and its RAM.
    Cartridge,
    /// The internal RAM.
    Ram,
    /// The timer.
    Timer,
    /// The registers that the bus holds itself: the transfer register and
    /// the two interrupt registers.
    Bus,
    /// The display controller.
    Ppu,
    /// The joypad.
    Joypad,
    /// The stored I/O registers.
    Io,
}

/// The peripheral that answers to `address`, if any does.
pub open spec fn spec_region(address: u16) -> Option<Region> {
    if in_range(MMAP_ROM_BANK0, address) || in_range(MMAP_ROM_BANK_SW, address) || in_range(
        MMAP_RAM_BANK_SW,
        address,
    ) {
        Some(Region::Cartridge)
    } else if in_range(MMAP_RAM_INTERNAL, address) || in_range(MMAP_RAM_ECHO, address) || in_range(
        MMAP_RAM_HIGH,
        address,
    ) {
        Some(Region::Ram)
    } else if in_range(MMAP_IO_TIMER, address) {
        Some(Region::Timer)
    } else if address == IO_DMA || address == IO_IF || address == IO_IE {
        Some(Region::Bus)
    } else if in_range(MMAP_IO_DISPLAY, address) || in_range(MMAP_VIDEO_RAM, address) || in_range(
        MMAP_SPRITE_OAM,
        address,
    ) {
        Some(Region::Ppu)
    } else if address == IO_P1 {
        Some(Region::Joypad)
    } else if in_range(MMAP_IO_PORTS, address) {
        Some(Region::Io)
    } else {
        None
    }
}

/// Returns the peripheral that answers to `address`.
#[verifier::when_used_as_spec(spec_region)]
pub fn region(address: u16) -> (region: Option<Region>)
    ensures
        region == spec_region(address),
{
    if in_range(MMAP_ROM_BANK0, address) || in_range(MMAP_ROM_BANK_SW, address) || in_range(
        MMAP_RAM_BANK_SW,
        address,
    ) {
        Some(Region::Cartridge)
    } else if in_range(MMAP_RAM_INTERNAL, address) || in_range(MMAP_RAM_ECHO, address) || in_range(
        MMAP_RAM_HIGH,
        address,
    ) {
        Some(Region::Ram)
    } else if in_range(MMAP_IO_TIMER, address) {
        Some(Region::Timer)
    } else if address == IO_DMA || address == IO_IF || address == IO_IE {
        Some(Region::Bus)
    } else if in_range(MMAP_IO_DISPLAY, address) || in_range(MMAP_VIDEO_RAM, address) || in_range(
        MMAP_SPRITE_OAM,
        address,
    ) {
        Some(Region::Ppu)
    } else if address == IO_P1 {
        Some(Region::Joypad)
    } else if in_range(MMAP_IO_PORTS, address) {
        Some(Region::Io)
    } else {
        None
    }
}

/// The mathematical state of the bus and of its peripherals.
#[verifier::ext_equal]
pub struct BusView {
    /// The cartridge.
    pub cartridge: CartridgeView,
    /// The display controller.
    pub ppu: PpuView,
    /// The stored I/O registers.
    pub io: Seq<u8>,
    /// The timer.
    pub timer: TimerView,
    /// The joypad.
    pub joypad: JoypadView,
    /// The internal RAM.
    pub ram: RamView,
    /// The interrupt-flag register: the interrupts that wait to be served.
    pub interrupt_flag: InterruptMask,
    /// The interrupt-enable register: the interrupts that the program lets
    /// through.
    pub interrupt_enable: InterruptMask,
}

impl BusView {
    /// The bus at boot around `cartridge`: every peripheral in its state at
    /// boot, the two RAMs filled with zeros, no interrupt waiting and none
    /// enabled.
    pub open spec fn boot(model: crate::config::HardwareModel, cartridge: CartridgeView) -> BusView {
        BusView {
            cartridge,
            ppu: crate::bus::ppu::boot_state(),
            io: crate::bus::io::reset_registers(Seq::new(IO_SIZE as nat, |i: int| 0u8), model),
            timer: TimerView::boot(model),
            joypad: JoypadView { data: 0, select: 0, interrupt_flag: 0 },
            ram: RamView {
                data: Seq::new(crate::bus::ram::RAM_SIZE as nat, |i: int| 0u8),
                high_data: Seq::new(crate::bus::ram::HIGH_RAM_SIZE as nat, |i: int| 0u8),
            },
            interrupt_flag: 0,
            interrupt_enable: 0,
        }
    }

    /// The invariant of the bus: the invariants of its peripherals.
    pub open spec fn wf(self) -> bool {
        &&& self.cartridge.wf()
        &&& self.ppu.wf()
        &&& self.io.len() == IO_SIZE
        &&& self.timer.wf()
        &&& self.ram.wf()
    }

    /// What a read of `address` returns: what the peripheral that answers to
    /// the address returns. The transfer register reads as zero. An address
    /// that no peripheral answers to fails.
    pub open spec fn read(self, address: u16) -> Result<u8, GameboyError> {
        match spec_region(address) {
            Some(Region::Cartridge) => self.cartridge.read(address),
            Some(Region::Ram) => self.ram.read(address),
            Some(Region::Timer) => self.timer.read(address),
            Some(Region::Bus) => if address == IO_DMA {
                Ok(0)
            } else if address == IO_IF {
                Ok(self.interrupt_flag)
            } else {
                Ok(self.interrupt_enable)
            },
            Some(Region::Ppu) => self.ppu.read(address),
            Some(Region::Joypad) => self.joypad.read(address),
            Some(Region::Io) => io_read(self.io, address),
            None => Err(GameboyError::Io("Accessed an unmapped region.")),
        }
    }

    /// The state with byte `index` of the object attribute memory replaced.
    pub open spec fn with_oam(self, index: int, value: u8) -> BusView {
        BusView { ppu: PpuView { oam: self.ppu.oam.update(index, value), ..self.ppu }, ..self }
    }

    /// The state after the bytes from `index` on were transferred to the
    /// object attribute memory, each read at `source + index` through the
    /// bus, and what the transfer returns: it stops at the first read that
    /// fails.
    pub open spec fn dma_from(self, source: u16, index: nat) -> (BusView, Result<(), GameboyError>)
        decreases OAM_SIZE - index,
    {
        if index >= OAM_SIZE {
            (self, Ok(()))
        } else {
            match self.read((source + index) as u16) {
                Err(error) => (self, Err(error)),
                Ok(byte) => self.with_oam(index as int, byte).dma_from(source, index + 1),
            }
        }
    }

    /// The state after a write of `value` to `address`, and what the write
    /// returns. A write to the transfer register copies the 160 bytes of the
    /// page `value` to the object attribute memory.
    pub open spec fn write(self, address: u16, value: u8) -> (BusView, Result<(), GameboyError>) {
        match spec_region(address) {
            Some(Region::Cartridge) => (
                BusView { cartridge: self.cartridge.write(address, value).0, ..self },
                self.cartridge.write(address, value).1,
            ),
            Some(Region::Ram) => (
                BusView { ram: self.ram.write(address, value).0, ..self },
                self.ram.write(address, value).1,
            ),
            Some(Region::Timer) => (
                BusView { timer: self.timer.write(address, value).0, ..self },
                self.timer.write(address, value).1,
            ),
            Some(Region::Bus) => if address == IO_DMA {
                self.dma_from((value * 256) as u16, 0)
            } else if address == IO_IF {
                (BusView { interrupt_flag: value, ..self }, Ok(()))
            } else {
                (BusView { interrupt_enable: value, ..self }, Ok(()))
            },
            Some(Region::Ppu) => (
                BusView { ppu: self.ppu.write(address, value).0, ..self },
                self.ppu.write(address, value).1,
            ),
            Some(Region::Joypad) => (
                BusView { joypad: self.joypad.write(address, value).0, ..self },
                self.joypad.write(address, value).1,
            ),
            Some(Region::Io) => (
                BusView { io: io_write(self.io, address, value).0, ..self },
                io_write(self.io, address, value).1,
            ),
            None => (self, Err(GameboyError::Io("Accessed an unmapped region."))),
        }
    }

    /// The state after the bytes of `bytes` were written from `address` on,
    /// and what the writes return: they stop at the first write that fails.
    pub open spec fn write_all(self, address: u16, bytes: Seq<u8>) -> (
        BusView,
        Result<(), GameboyError>,
    )
        decreases bytes.len(),
    {
        if bytes.len() == 0 {
            (self, Ok(()))
        } else {
            match self.write(address, bytes[0]).1 {
                Err(error) => (self.write(address, bytes[0]).0, Err(error)),
                Ok(_) => self.write(address, bytes[0]).0.write_all(
                    (address + 1) as u16,
                    bytes.skip(1),
                ),
            }
        }
    }

    /// The state after the peripherals advanced by `cycles` cycles; a tick
    /// of no cycle counts as four. The interrupts that the peripherals
    /// raised join those that wait, the interrupts that are not enabled are
    /// dropped, and the peripherals' masks are cleared.
    pub open spec fn process(self, cycles: usize) -> BusView {
        let elapsed: usize = if cycles > 0 {
            cycles
        } else {
            4
        };
        let ppu = self.ppu.advance(elapsed as nat);
        let timer = self.timer.process(elapsed);
        BusView {
            ppu: PpuView { interrupt_flag: 0, ..ppu },
            timer: TimerView { interrupt_flag: 0, ..timer },
            joypad: JoypadView { interrupt_flag: 0, ..self.joypad },
            interrupt_flag: (((self.interrupt_flag | ppu.interrupt_flag) | timer.interrupt_flag)
                | self.joypad.interrupt_flag) & self.interrupt_enable,
            ..self
        }
    }

    /// The interrupt to serve: the one of highest priority among those that
    /// wait and are enabled.
    pub open spec fn next_interrupt(self) -> Option<Interrupt> {
        highest_priority(self.interrupt_flag & self.interrupt_enable)
    }

    /// The state after the interrupt to serve was taken: it waits no more.
    pub open spec fn fetch_interrupt(self) -> BusView {
        match self.next_interrupt() {
            Some(interrupt) => BusView {
                interrupt_flag: self.interrupt_flag & !interrupt.spec_value(),
                ..self
            },
            None => self,
        }
    }
}

/// The memory bus, with the peripherals mapped on it.
pub struct SystemBus {
    /// The cartridge.
    pub cartridge: Cartridge,
    /// The display controller.
    pub ppu: Ppu,
    /// The stored I/O registers.
    pub io: IoPorts,
    /// The timer.
    pub timer: Timer,
    /// The joypad.
    pub joypad: Joypad,
    /// The internal RAM.
    pub ram: InternalRam,
    /// The interrupt-flag register.
    pub interrupt_flag: InterruptMask,
    /// The interrupt-enable register.
    pub interrupt_enable: InterruptMask,
}

impl View for SystemBus {
    type V = BusView;

    open spec fn view(&self) -> BusView {
        BusView {
            cartridge: self.cartridge@,
            ppu: self.ppu@,
            io: self.io@,
            timer: self.timer@,
            joypad: self.joypad@,
            ram: self.ram@,
            interrupt_flag: self.interrupt_flag,
            interrupt_enable: self.interrupt_enable,
        }
    }
}

impl SystemBus {
    /// Creates the bus around `cartridge`, with every peripheral in its
    /// state at boot.
    pub fn new(config: &Config, cartridge: Cartridge) -> (bus: SystemBus)
        requires
            cartridge@.wf(),
        ensures
            bus@ == BusView::boot(config.model, cartridge@),
            bus@.wf(),
    {
        SystemBus {
            cartridge,
            ppu: Ppu::new(),
            io: IoPorts::new(config),
            timer: Timer::new(config),
            joypad: Joypad::new(),
            ram: InternalRam::new(),
            interrupt_flag: 0,
            interrupt_enable: 0,
        }
    }

    /// Advances the peripherals by `cycles` cycles and collects the
    /// interrupts they raise.
    pub fn process(&mut self, cycles: usize)
        requires
            old(self)@.wf(),
        ensures
            final(self)@ == old(self)@.process(cycles),
            final(self)@.wf(),
    {
        let elapsed = if cycles > 0 {
            cycles
        } else {
            4
        };
        self.ppu.process(elapsed);
        self.timer.process(elapsed);
        self.joypad.process(elapsed);
        self.interrupt_flag = self.interrupt_flag | self.ppu.interrupts();
        self.interrupt_flag = self.interrupt_flag | self.timer.interrupts();
        self.interrupt_flag = self.interrupt_flag | self.joypad.interrupts();
        self.interrupt_flag = self.interrupt_flag & self.interrupt_enable;
        self.ppu.clear();
        self.timer.clear();
        self.joypad.clear();
    }

    /// Writes `value` to `address`.
    pub fn write(&mut self, address: u16, value: u8) -> (result: Result<(), GameboyError>)
        requires
            old(self)@.wf(),
        ensures
            (final(self)@, result) == old(self)@.write(address, value),
            final(self)@.wf(),
    {
        match region(address) {
            Some(Region::Cartridge) => self.cartridge.write(address, value),
            Some(Region::Ram) => self.ram.write(address, value),
            Some(Region::Timer) => self.timer.write(address, value),
            Some(Region::Bus) => self.write_register(address, value),
            Some(Region::Ppu) => self.ppu.write(address, value),
            Some(Region::Joypad) => self.joypad.write(address, value),
            Some(Region::Io) => self.io.write(address, value),
            None => Err(GameboyError::Io("Accessed an unmapped region.")),
        }
    }

    /// Reads the byte at `address`.
    pub fn read(&self, address: u16) -> (result: Result<u8, GameboyError>)
        requires
            self@.wf(),
        ensures
            result == self@.read(address),
    {
        match region(address) {
            Some(Region::Cartridge) => self.cartridge.read(address),
            Some(Region::Ram) => self.ram.read(address),
            Some(Region::Timer) => self.timer.read(address),
            Some(Region::Bus) => {
                if address == IO_DMA {
                    Ok(0)
                } else if address == IO_IF {
                    Ok(self.interrupt_flag)
                } else {
                    Ok(self.interrupt_enable)
                }
            },
            Some(Region::Ppu) => self.ppu.read(address),
            Some(Region::Joypad) => self.joypad.read(address),
            Some(Region::Io) => self.io.read(address),
            None => Err(GameboyError::Io("Accessed an unmapped region.")),
        }
    }

    /// Writes one of the registers that the bus holds itself.
    fn write_register(&mut self, address: u16, value: u8) -> (result: Result<(), GameboyError>)
        requires
            old(self)@.wf(),
            spec_region(address) == Some(Region::Bus),
        ensures
            (final(self)@, result) == old(self)@.write(address, value),
            final(self)@.wf(),
    {
        if address == IO_DMA {
            let source: u16 = (value as u16) * 256;
            let mut index: usize = 0;
            while index < OAM_SIZE
                invariant
                    index <= OAM_SIZE,
                    address == IO_DMA,
                    source == value * 256,
                    self@.wf(),
                    self@.dma_from(source, index as nat) == old(self)@.dma_from(source, 0),
                decreases OAM_SIZE - index,
            {
                let data = match self.read(source + (index as u16)) {
                    Ok(data) => data,
                    Err(error) => {
                        assert(self@.dma_from(source, index as nat) == (
                            self@,
                            Err::<(), GameboyError>(error),
                        ));
                        return Err(error);
                    },
                };
                assert(self@.dma_from(source, index as nat) == self@.with_oam(
                    index as int,
                    data,
                ).dma_from(source, (index + 1) as nat));
                self.ppu.set_oam(index, data);
                index += 1;
            }
            Ok(())
        } else if address == IO_IF {
            self.interrupt_flag = value;
            Ok(())
        } else {
            self.interrupt_enable = value;
            Ok(())
        }
    }

    /// Takes the interrupt to serve, if there is one.
    pub fn fetch_interrupt(&mut self) -> (interrupt: Option<Interrupt>)
        ensures
            interrupt == old(self)@.next_interrupt(),
            final(self)@ == old(self)@.fetch_interrupt(),
    {
        let mut iter = InterruptIter::new(self.interrupt_flag & self.interrupt_enable);
        let interrupt = iter.next();
        match interrupt {
            Some(served) => {
                self.interrupt_flag = self.interrupt_flag & !served.value();
            },
            None => {},
        }
        interrupt
    }

    /// Writes the bytes of `array` from `address` on.
    pub fn write_all(&mut self, address: u16, array: &[u8]) -> (result: Result<(), GameboyError>)
        requires
            old(self)@.wf(),
            address + array@.len() <= 0x1_0000,
        ensures
            (final(self)@, result) == old(self)@.write_all(address, array@),
            final(self)@.wf(),
    {
        let mut index: usize = 0;
        assert(array@.skip(0) =~= array@);
        while index < array.len()
            invariant
                index <= array@.len(),
                address + array@.len() <= 0x1_0000,
                self@.wf(),
                self@.write_all((address + index) as u16, array@.skip(index as int)) == old(
                    self,
                )@.write_all(address, array@),
            decreases array@.len() - index,
        {
            proof {
                let rest = array@.skip(index as int);
                assert(rest.skip(1) =~= array@.skip(index + 1));
                assert(rest[0] == array@[index as int]);
            }
            match self.write(address + (index as u16), array[index]) {
                Ok(_) => {},
                Err(error) => {
                    return Err(error);
                },
            }
            index += 1;
        }
        Ok(())
    }
}

/// The mirror of the work RAM, seen through the bus: each address from
/// 0xC000 to 0xDDFF and the address 0x2000 above it show the same byte, and a
/// write to either is read back at both.
pub proof fn lemma_echo_ram(v: BusView, address: u16, value: u8)
    requires
        v.wf(),
        0xC000 <= address < 0xDE00,
    ensures
        v.read(address) is Ok,
        v.read(address) == v.read((address + 0x2000) as u16),
        v.write(address, value).1 is Ok,
        v.write((address + 0x2000) as u16, value).1 is Ok,
        v.write(address, value).0.read((address + 0x2000) as u16) == Ok::<u8, GameboyError>(
            value,
        ),
        v.write((address + 0x2000) as u16, value).0.read(address) == Ok::<u8, GameboyError>(
            value,
        ),
        v.write(address, value).0 == v.write((address + 0x2000) as u16, value).0,
{
    crate::bus::ram::lemma_echo(v.ram, address, value);
}

/// The address of byte `index` of the page `page`.
pub open spec fn dma_address(page: u8, index: int) -> u16 {
    (page * 256 + index) as u16
}

/// The 160 bytes of the page `page`, as the bus shows them: the source of a
/// transfer to the object attribute memory.
pub open spec fn dma_source(v: BusView, page: u8) -> Seq<u8> {
    Seq::new(OAM_SIZE as nat, |i: int| v.read(dma_address(page, i))->Ok_0)
}

proof fn lemma_dma_from(v: BusView, w: BusView, page: u8, index: nat)
    requires
        v.wf(),
        index <= OAM_SIZE,
        forall|i: int| 0 <= i < OAM_SIZE ==> (#[trigger] v.read(dma_address(page, i))) is Ok,
        w == (BusView { ppu: PpuView { oam: w.ppu.oam, ..v.ppu }, ..v }),
        w.ppu.oam.len() == OAM_SIZE,
        forall|j: int|
            0 <= j < index ==> #[trigger] w.ppu.oam[j] == v.read(dma_address(page, j))->Ok_0,
        forall|j: int| index <= j < OAM_SIZE ==> #[trigger] w.ppu.oam[j] == v.ppu.oam[j],
    ensures
        w.dma_from((page * 256) as u16, index) == (
            BusView { ppu: PpuView { oam: dma_source(v, page), ..v.ppu }, ..v },
            Ok::<(), GameboyError>(()),
        ),
    decreases OAM_SIZE - index,
{
    let source = (page * 256) as u16;
    if index >= OAM_SIZE {
        assert(w.ppu.oam =~= dma_source(v, page));
    } else {
        let address = dma_address(page, index as int);
        assert(address == (source + index) as u16);
        assert(v.read(address) is Ok);
        assert(w.ppu.oam[index as int] == v.ppu.oam[index as int]);
        assert(w.read(address) == v.read(address));
        let byte = v.read(address)->Ok_0;
        lemma_dma_from(v, w.with_oam(index as int, byte), page, index + 1);
    }
}

/// A transfer whose source the bus can read copies the 160 bytes of the
/// source page to the object attribute memory and changes nothing else.
pub proof fn lemma_dma_transfer(v: BusView, page: u8)
    requires
        v.wf(),
        forall|i: int| 0 <= i < OAM_SIZE ==> (#[trigger] v.read(dma_address(page, i))) is Ok,
    ensures
        v.write(IO_DMA, page) == (
            BusView { ppu: PpuView { oam: dma_source(v, page), ..v.ppu }, ..v },
            Ok::<(), GameboyError>(()),
        ),
{
    lemma_dma_from(v, v, page, 0);
}

/// A tick keeps the invariant of the bus.
pub proof fn lemma_process_wf(v: BusView, cycles: usize)
    requires
        v.wf(),
    ensures
        v.process(cycles).wf(),
{
    let elapsed: usize = if cycles > 0 {
        cycles
    } else {
        4
    };
    if v.ppu.lcdc.spec_power() {
        crate::bus::ppu::lemma_advance_position(v.ppu, elapsed as nat);
    }
}

} // verus!
