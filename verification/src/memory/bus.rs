use vstd::prelude::*;

use super::MemoryBus;

verus! {

/// The DMG memory map: cartridge ROM, video RAM, external RAM, work RAM (with
/// its echo), object attribute memory, the serial port, the interrupt
/// registers and high RAM.
///
/// A write to the serial control register with bit 7 set sends the serial
/// data byte: it is appended to the serial output, which the host drains with
/// `take_serial_output`, and bit 7 is cleared.
pub struct Bus {
    rom: Vec<u8>,
    vram: [u8; 0x2000],
    eram: [u8; 0x2000],
    wram: [u8; 0x2000],
    oam: [u8; 0xA0],
    hram: [u8; 0x7F],
    pub ie: u8,
    pub if_reg: u8,
    sb: u8,
    sc: u8,
    serial_out: Vec<u8>,
}

/// The abstract state of a `Bus`.
pub struct BusView {
    pub rom: Seq<u8>,
    pub vram: Seq<u8>,
    pub eram: Seq<u8>,
    pub wram: Seq<u8>,
    pub oam: Seq<u8>,
    pub hram: Seq<u8>,
    pub ie: u8,
    pub if_reg: u8,
    pub sb: u8,
    pub sc: u8,
    /// The bytes sent over the serial port and not yet taken by the host.
    pub serial: Seq<u8>,
}

impl BusView {
    /// Each RAM region has the size of its window in the address space.
    pub open spec fn wf(self) -> bool {
        &&& self.vram.len() == 0x2000
        &&& self.eram.len() == 0x2000
        &&& self.wram.len() == 0x2000
        &&& self.oam.len() == 0xA0
        &&& self.hram.len() == 0x7F
    }
}

impl View for Bus {
    type V = BusView;

    closed spec fn view(&self) -> BusView {
        BusView {
            rom: self.rom@,
            vram: self.vram@,
            eram: self.eram@,
            wram: self.wram@,
            oam: self.oam@,
            hram: self.hram@,
            ie: self.ie,
            if_reg: self.if_reg,
            sb: self.sb,
            sc: self.sc,
            serial: self.serial_out@,
        }
    }
}

/// Where an address lands in the memory map, with the offset into its region.
enum Addr {
    Rom(usize),
    Vram(usize),
    Eram(usize),
    Wram(usize),
    Oam(usize),
    Hram(usize),
    Ie,
    IfReg,
    Sb,
    Sc,
    Unusable,
    Unmapped,
}

spec fn spec_resolve(addr: u16) -> Addr {
    if addr <= 0x7FFF {
        Addr::Rom(addr as usize)
    } else if addr <= 0x9FFF {
        Addr::Vram((addr - 0x8000) as usize)
    } else if addr <= 0xBFFF {
        Addr::Eram((addr - 0xA000) as usize)
    } else if addr <= 0xDFFF {
        Addr::Wram((addr - 0xC000) as usize)
    } else if addr <= 0xFDFF {
        Addr::Wram((addr - 0xE000) as usize)
    } else if addr <= 0xFE9F {
        Addr::Oam((addr - 0xFE00) as usize)
    } else if addr <= 0xFEFF {
        Addr::Unusable
    } else if addr == 0xFF01 {
        Addr::Sb
    } else if addr == 0xFF02 {
        Addr::Sc
    } else if addr == 0xFF0F {
        Addr::IfReg
    } else if 0xFF80 <= addr <= 0xFFFE {
        Addr::Hram((addr - 0xFF80) as usize)
    } else if addr == 0xFFFF {
        Addr::Ie
    } else {
        Addr::Unmapped
    }
}

impl Bus {
    /// A bus over the given cartridge ROM, with all RAM and registers zero and
    /// no serial output.
    pub fn new(rom: Vec<u8>) -> (r: Self)
        ensures
            r@ == (BusView {
                rom: rom@,
                vram: Seq::new(0x2000, |_i: int| 0u8),
                eram: Seq::new(0x2000, |_i: int| 0u8),
                wram: Seq::new(0x2000, |_i: int| 0u8),
                oam: Seq::new(0xA0, |_i: int| 0u8),
                hram: Seq::new(0x7F, |_i: int| 0u8),
                ie: 0,
                if_reg: 0,
                sb: 0,
                sc: 0,
                serial: Seq::empty(),
            }),
    {
        let r = Self {
            rom,
            vram: [0u8; 0x2000],
            eram: [0u8; 0x2000],
            wram: [0u8; 0x2000],
            oam: [0u8; 0xA0],
            hram: [0u8; 0x7F],
            ie: 0,
            if_reg: 0,
            sb: 0,
            sc: 0,
            serial_out: Vec::new(),
        };
        assert(r.vram@ =~= Seq::new(0x2000, |_i: int| 0u8));
        assert(r.eram@ =~= Seq::new(0x2000, |_i: int| 0u8));
        assert(r.wram@ =~= Seq::new(0x2000, |_i: int| 0u8));
        assert(r.oam@ =~= Seq::new(0xA0, |_i: int| 0u8));
        assert(r.hram@ =~= Seq::new(0x7F, |_i: int| 0u8));
        r
    }

    fn resolve(addr: u16) -> (r: Addr)
        ensures
            r == spec_resolve(addr),
    {
        match addr {
            0x0000..=0x7FFF => Addr::Rom(addr as usize),
            0x8000..=0x9FFF => Addr::Vram((addr - 0x8000) as usize),
            0xA000..=0xBFFF => Addr::Eram((addr - 0xA000) as usize),
            0xC000..=0xDFFF => Addr::Wram((addr - 0xC000) as usize),
            0xE000..=0xFDFF => Addr::Wram((addr - 0xE000) as usize),
            0xFE00..=0xFE9F => Addr::Oam((addr - 0xFE00) as usize),
            0xFEA0..=0xFEFF => Addr::Unusable,
            0xFF01 => Addr::Sb,
            0xFF02 => Addr::Sc,
            0xFF0F => Addr::IfReg,
            0xFF80..=0xFFFE => Addr::Hram((addr - 0xFF80) as usize),
            0xFFFF => Addr::Ie,
            _ => Addr::Unmapped,
        }
    }

    /// The interrupt enable register (0xFFFF).
    pub fn ie(&self) -> (r: u8)
        ensures
            r == self@.ie,
    {
        self.ie
    }

    /// The interrupt flag register (0xFF0F).
    pub fn if_reg(&self) -> (r: u8)
        ensures
            r == self@.if_reg,
    {
        self.if_reg
    }

    /// Hands over the bytes sent on the serial port since the last call, in
    /// the order they were sent, and forgets them.
    pub fn take_serial_output(&mut self) -> (r: Vec<u8>)
        ensures
            r@ == old(self)@.serial,
            final(self)@ == (BusView { serial: Seq::empty(), ..old(self)@ }),
    {
        let mut out: Vec<u8> = Vec::new();
        std::mem::swap(&mut out, &mut self.serial_out);
        out
    }
}

impl MemoryBus for Bus {
    open spec fn spec_read(v: BusView, addr: u16) -> u8 {
        if addr <= 0x7FFF {
            if (addr as int) < v.rom.len() {
                v.rom[addr as int]
            } else {
                0xFF
            }
        } else if addr <= 0x9FFF {
            v.vram[addr - 0x8000]
        } else if addr <= 0xBFFF {
            v.eram[addr - 0xA000]
        } else if addr <= 0xDFFF {
            v.wram[addr - 0xC000]
        } else if addr <= 0xFDFF {
            v.wram[addr - 0xE000]
        } else if addr <= 0xFE9F {
            v.oam[addr - 0xFE00]
        } else if addr <= 0xFEFF {
            0xFF
        } else if addr == 0xFF01 {
            v.sb
        } else if addr == 0xFF02 {
            v.sc
        } else if addr == 0xFF0F {
            v.if_reg
        } else if 0xFF80 <= addr <= 0xFFFE {
            v.hram[addr - 0xFF80]
        } else if addr == 0xFFFF {
            v.ie
        } else {
            0xFF
        }
    }

    open spec fn spec_write(v: BusView, addr: u16, value: u8) -> BusView {
        if addr <= 0x7FFF {
            v
        } else if addr <= 0x9FFF {
            BusView { vram: v.vram.update(addr - 0x8000, value), ..v }
        } else if addr <= 0xBFFF {
            BusView { eram: v.eram.update(addr - 0xA000, value), ..v }
        } else if addr <= 0xDFFF {
            BusView { wram: v.wram.update(addr - 0xC000, value), ..v }
        } else if addr <= 0xFDFF {
            BusView { wram: v.wram.update(addr - 0xE000, value), ..v }
        } else if addr <= 0xFE9F {
            BusView { oam: v.oam.update(addr - 0xFE00, value), ..v }
        } else if addr <= 0xFEFF {
            v
        } else if addr == 0xFF01 {
            BusView { sb: value, ..v }
        } else if addr == 0xFF02 {
            if value & 0x80 != 0 {
                BusView { sc: value & 0x7F, serial: v.serial.push(v.sb), ..v }
            } else {
                BusView { sc: value, ..v }
            }
        } else if addr == 0xFF0F {
            BusView { if_reg: value, ..v }
        } else if 0xFF80 <= addr <= 0xFFFE {
            BusView { hram: v.hram.update(addr - 0xFF80, value), ..v }
        } else if addr == 0xFFFF {
            BusView { ie: value, ..v }
        } else {
            v
        }
    }

    fn read(&self, addr: u16) -> (r: u8) {
        match Bus::resolve(addr) {
            Addr::Rom(i) => {
                if i < self.rom.len() {
                    self.rom[i]
                } else {
                    0xFF
                }
            },
            Addr::Vram(i) => self.vram[i],
            Addr::Eram(i) => self.eram[i],
            Addr::Wram(i) => self.wram[i],
            Addr::Oam(i) => self.oam[i],
            Addr::Hram(i) => self.hram[i],
            Addr::Ie => self.ie,
            Addr::IfReg => self.if_reg,
            Addr::Sb => self.sb,
            Addr::Sc => self.sc,
            Addr::Unusable | Addr::Unmapped => 0xFF,
        }
    }

    fn write(&mut self, addr: u16, value: u8) {
        match Bus::resolve(addr) {
            Addr::Rom(_) | Addr::Unusable | Addr::Unmapped => {},
            Addr::Vram(i) => self.vram[i] = value,
            Addr::Eram(i) => self.eram[i] = value,
            Addr::Wram(i) => self.wram[i] = value,
            Addr::Oam(i) => self.oam[i] = value,
            Addr::Hram(i) => self.hram[i] = value,
            Addr::Ie => self.ie = value,
            Addr::IfReg => self.if_reg = value,
            Addr::Sb => self.sb = value,
            Addr::Sc => {
                self.sc = value;
                if value & 0x80 != 0 {
                    self.serial_out.push(self.sb);
                    self.sc = self.sc & !0x80u8;
                    assert(value & !0x80u8 == value & 0x7F) by (bit_vector);
                }
            },
        }
    }
}

} // verus!

verus! {

/// Whether `addr` names memory or a register that a read gives back as
/// written: VRAM, external RAM, work RAM and its echo, OAM, SB, IF, high RAM
/// and IE.
pub open spec fn is_read_write(addr: u16) -> bool {
    ||| 0x8000 <= addr <= 0xFE9F
    ||| addr == 0xFF01
    ||| addr == 0xFF0F
    ||| 0xFF80 <= addr
}

/// Whether a write to `addr` changes nothing: ROM, the unusable region and
/// unmapped I/O.
pub open spec fn is_write_ignored(addr: u16) -> bool {
    !is_read_write(addr) && addr != 0xFF02
}

/// The address that `addr` stands for: echo RAM stands for work RAM.
pub open spec fn canonical(addr: u16) -> u16 {
    if 0xE000 <= addr <= 0xFDFF {
        (addr - 0x2000) as u16
    } else {
        addr
    }
}

/// A read gives back what was written, wherever memory or a plain register
/// sits; writes keep the state well formed.
pub proof fn lemma_bus_read_after_write(v: BusView, addr: u16, value: u8)
    requires
        v.wf(),
    ensures
        Bus::spec_write(v, addr, value).wf(),
        is_read_write(addr) ==> Bus::spec_read(Bus::spec_write(v, addr, value), addr) == value,
{
}

/// A write changes no read at any other address (echo RAM and work RAM being
/// one address each), and no serial output unless it is to SC.
pub proof fn lemma_bus_write_frame(v: BusView, addr: u16, value: u8, other: u16)
    requires
        v.wf(),
        canonical(addr) != canonical(other),
    ensures
        Bus::spec_read(Bus::spec_write(v, addr, value), other) == Bus::spec_read(v, other),
        addr != 0xFF02 ==> Bus::spec_write(v, addr, value).serial == v.serial,
{
}

/// Writes to ROM, to the unusable region and to unmapped I/O are ignored;
/// reads there (and of ROM past its end) give 0xFF.
pub proof fn lemma_bus_ignored(v: BusView, addr: u16, value: u8)
    ensures
        is_write_ignored(addr) ==> Bus::spec_write(v, addr, value) == v,
        is_write_ignored(addr) && addr > 0x7FFF ==> Bus::spec_read(v, addr) == 0xFF,
        addr <= 0x7FFF && addr as int >= v.rom.len() ==> Bus::spec_read(v, addr) == 0xFF,
{
}

/// Echo RAM (0xE000..=0xFDFF) reads and writes work RAM 0x2000 lower.
pub proof fn lemma_echo_ram(v: BusView, addr: u16, value: u8)
    requires
        0xE000 <= addr <= 0xFDFF,
    ensures
        Bus::spec_read(v, addr) == Bus::spec_read(v, (addr - 0x2000) as u16),
        Bus::spec_write(v, addr, value) == Bus::spec_write(v, (addr - 0x2000) as u16, value),
{
}

/// Writing SC with bit 7 set sends SB: it is appended to the serial output
/// and SC then reads back with bit 7 clear. Without bit 7 SC just stores.
pub proof fn lemma_serial_transfer(v: BusView, value: u8)
    ensures
        value & 0x80 != 0 ==> Bus::spec_write(v, 0xFF02, value).serial == v.serial.push(v.sb),
        value & 0x80 == 0 ==> Bus::spec_write(v, 0xFF02, value).serial == v.serial,
        Bus::spec_read(Bus::spec_write(v, 0xFF02, value), 0xFF02) == value & 0x7F,
{
    assert(value & 0x80 == 0 ==> value & 0x7F == value) by (bit_vector);
}

/// Every bus is well formed: each RAM region has the size of its window.
pub proof fn lemma_bus_wf(bus: &Bus)
    ensures
        bus@.wf(),
{
}

/// The memory map: each address reads the byte at its own offset inside its
/// region. ROM addresses read the cartridge byte at exactly that address;
/// VRAM, external RAM, work RAM, OAM and high RAM are read at the address
/// minus their base; echo RAM reads work RAM 0x2000 lower.
pub proof fn lemma_bus_memory_map(v: BusView, addr: u16)
    ensures
        addr <= 0x7FFF && (addr as int) < v.rom.len() ==> Bus::spec_read(v, addr) == v.rom[addr as int],
        0x8000 <= addr <= 0x9FFF ==> Bus::spec_read(v, addr) == v.vram[addr - 0x8000],
        0xA000 <= addr <= 0xBFFF ==> Bus::spec_read(v, addr) == v.eram[addr - 0xA000],
        0xC000 <= addr <= 0xDFFF ==> Bus::spec_read(v, addr) == v.wram[addr - 0xC000],
        0xE000 <= addr <= 0xFDFF ==> Bus::spec_read(v, addr) == v.wram[addr - 0xE000],
        0xFE00 <= addr <= 0xFE9F ==> Bus::spec_read(v, addr) == v.oam[addr - 0xFE00],
        0xFF80 <= addr <= 0xFFFE ==> Bus::spec_read(v, addr) == v.hram[addr - 0xFF80],
        addr == 0xFF01 ==> Bus::spec_read(v, addr) == v.sb,
        addr == 0xFF02 ==> Bus::spec_read(v, addr) == v.sc,
        addr == 0xFF0F ==> Bus::spec_read(v, addr) == v.if_reg,
        addr == 0xFFFF ==> Bus::spec_read(v, addr) == v.ie,
{
}

/// Writes land at the same place reads look: a write to a RAM address
/// changes the byte of its region at the address minus the region's base.
pub proof fn lemma_bus_write_map(v: BusView, addr: u16, value: u8)
    ensures
        0x8000 <= addr <= 0x9FFF ==> Bus::spec_write(v, addr, value).vram == v.vram.update(addr - 0x8000, value),
        0xA000 <= addr <= 0xBFFF ==> Bus::spec_write(v, addr, value).eram == v.eram.update(addr - 0xA000, value),
        0xC000 <= addr <= 0xDFFF ==> Bus::spec_write(v, addr, value).wram == v.wram.update(addr - 0xC000, value),
        0xE000 <= addr <= 0xFDFF ==> Bus::spec_write(v, addr, value).wram == v.wram.update(addr - 0xE000, value),
        0xFE00 <= addr <= 0xFE9F ==> Bus::spec_write(v, addr, value).oam == v.oam.update(addr - 0xFE00, value),
        0xFF80 <= addr <= 0xFFFE ==> Bus::spec_write(v, addr, value).hram == v.hram.update(addr - 0xFF80, value),
        Bus::spec_write(v, addr, value).rom == v.rom,
{
}

} // verus!
