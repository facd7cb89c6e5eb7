//! The machine: processor and hardware, stepped one instruction at a time.
//!
//! Interrupts whose vector points into the BIOS ROM segment are served by
//! the host: when the processor arrives at F000:n, service n is performed
//! before the IRET that stands there is executed.
use vstd::prelude::*;
use crate::address::wrap16;
use crate::bios::{bda8, with_default_vectors, BIOS, ROM_SEG};
use crate::cpu::{registers_reset, CPU};
use crate::crtc::CRTC;
use crate::dac::{component, next_index, next_pel, with_component};
use crate::flags::Flags;
use crate::gpu::{created_video, GPU, Video};
use crate::loader::{load_result, LoadError};
use crate::memory::MEMORY_SIZE;
use crate::modes::GFXMode;
use crate::modeset::{
    chargen_rows, cursor_moved, dac_block_read, dac_block_set, dac_color, mode_known, mode_row_for,
    mode_set_screen, mode_set_video, page_selected, vector_set,
};
use crate::palette::scale6;
use crate::pixel::{draws, pixel_written};
use crate::register::{join_bytes, Register16};
use crate::semantics::Effect;
use crate::state::State;
use crate::memory::Memory;
use crate::teletype::{
    chars_written, is_typable, string_start, string_typable, string_typed, teletyped, typable,
    write_page, Screen,
};

verus! {

/// Frames per second.
pub const FPS: usize = 60;

/// Instructions between two ticks of the peripherals.
pub const TICK_INTERVAL: usize = 100;

/// A counter of the interval timer.
pub struct Counter {
    pub count: u16,
}

impl Counter {
    /// One tick: the counter decreases by 1 and wraps from 0 to FFFFh.
    pub fn dec(&mut self)
        ensures
            final(self).count == wrap16(old(self).count - 1),
    {
        self.count = if self.count == 0 {
            0xFFFF
        } else {
            self.count - 1
        };
    }
}

/// The programmable interval timer.
pub struct PIT {
    pub counter0: Counter,
}

/// What surrounds the processor: video adapter, BIOS and timer.
pub struct Hardware {
    pub gpu: GPU,
    pub bios: BIOS,
    pub pit: PIT,
}

/// Processor and hardware.
pub struct Machine {
    pub hw: Hardware,
    pub cpu: CPU,
}

/// A copy of the registers at one moment.
#[derive(Clone, Copy, Debug)]
pub struct RegisterSnapshot {
    pub ip: u16,
    pub r16: [Register16; 8],
    pub sreg16: [Register16; 6],
    pub flags: Flags,
}

/// The machine as a mathematical value.
pub struct MachineView {
    pub cpu: State,
    pub video: Video,
    /// counter 0 of the interval timer
    pub pit: u16,
}

/// The host services.
#[derive(Clone, Copy, Debug, PartialEq, Eq, Structural)]
pub enum Service {
    /// int 10h, ah = 00h: the mode is AL without its top bit
    SetMode,
    /// int 10h, ah = 02h: row DH, column DL, page BH
    SetCursor,
    /// int 10h, ah = 05h: page AL
    SetPage,
    /// int 10h, ah = 0Ah: character AL, attribute BL, page BH, count CX
    WriteChar,
    /// int 10h, ah = 0Ch: column CX, row DX, page BH, colour AL
    WritePixel,
    /// int 10h, ah = 0Eh: character AL, page BH, attribute BL
    Teletype,
    /// int 10h, ah = 0Fh: AH takes the columns, AL the mode, BH the page
    GetMode,
    /// int 10h, ax = 1010h: register BL, red DH, green CH, blue CL
    SetDacRegister,
    /// int 10h, ax = 1012h: first register BX, count CX, table ES:DX
    SetDacBlock,
    /// int 10h, ax = 1015h: register BL; DH, CH, CL take red, green, blue
    GetDacRegister,
    /// int 10h, ax = 1017h: first register BX, count CX, buffer ES:DX
    ReadDacBlock,
    /// int 10h, ax = 1124h: row specifier BL, rows DL
    LoadChars,
    /// int 10h, ah = 13h: row DH, column DL, flags AL, attribute BL, string
    /// ES:BP, count CX, page BH
    WriteString,
    /// int 16h, ah = 00h: there is no keyboard; AX takes 0
    KeyRead,
    /// int 20h, and int 21h with ah = 4Ch: the program ends
    Terminate,
    /// int 21h, ah = 02h: character DL on the active page
    PrintChar,
    /// int 21h, ah = 09h: the string at DS:DX, up to its "$", on the active
    /// page
    PrintString,
    Unknown,
}

/// The service for an interrupt number and the values of AH and AL.
pub open spec fn service_of(n: u8, ah: u8, al: u8) -> Service {
    if n == 0x10 {
        if ah == 0x00 {
            Service::SetMode
        } else if ah == 0x02 {
            Service::SetCursor
        } else if ah == 0x05 {
            Service::SetPage
        } else if ah == 0x0A {
            Service::WriteChar
        } else if ah == 0x0C {
            Service::WritePixel
        } else if ah == 0x0E {
            Service::Teletype
        } else if ah == 0x0F {
            Service::GetMode
        } else if ah == 0x10 && al == 0x10 {
            Service::SetDacRegister
        } else if ah == 0x10 && al == 0x12 {
            Service::SetDacBlock
        } else if ah == 0x10 && al == 0x15 {
            Service::GetDacRegister
        } else if ah == 0x10 && al == 0x17 {
            Service::ReadDacBlock
        } else if ah == 0x11 && al == 0x24 {
            Service::LoadChars
        } else if ah == 0x13 {
            Service::WriteString
        } else {
            Service::Unknown
        }
    } else if n == 0x16 && ah == 0x00 {
        Service::KeyRead
    } else if n == 0x20 {
        Service::Terminate
    } else if n == 0x21 && ah == 0x4C {
        Service::Terminate
    } else if n == 0x21 && ah == 0x02 {
        Service::PrintChar
    } else if n == 0x21 && ah == 0x09 {
        Service::PrintString
    } else {
        Service::Unknown
    }
}

pub fn service_for(n: u8, ah: u8, al: u8) -> (s: Service)
    ensures
        s == service_of(n, ah, al),
{
    if n == 0x10 {
        if ah == 0x00 {
            Service::SetMode
        } else if ah == 0x02 {
            Service::SetCursor
        } else if ah == 0x05 {
            Service::SetPage
        } else if ah == 0x0A {
            Service::WriteChar
        } else if ah == 0x0C {
            Service::WritePixel
        } else if ah == 0x0E {
            Service::Teletype
        } else if ah == 0x0F {
            Service::GetMode
        } else if ah == 0x10 && al == 0x10 {
            Service::SetDacRegister
        } else if ah == 0x10 && al == 0x12 {
            Service::SetDacBlock
        } else if ah == 0x10 && al == 0x15 {
            Service::GetDacRegister
        } else if ah == 0x10 && al == 0x17 {
            Service::ReadDacBlock
        } else if ah == 0x11 && al == 0x24 {
            Service::LoadChars
        } else if ah == 0x13 {
            Service::WriteString
        } else {
            Service::Unknown
        }
    } else if n == 0x16 && ah == 0x00 {
        Service::KeyRead
    } else if n == 0x20 {
        Service::Terminate
    } else if n == 0x21 && ah == 0x4C {
        Service::Terminate
    } else if n == 0x21 && ah == 0x02 {
        Service::PrintChar
    } else if n == 0x21 && ah == 0x09 {
        Service::PrintString
    } else {
        Service::Unknown
    }
}

impl MachineView {
    pub open spec fn screen(self) -> Screen {
        Screen { mem: self.cpu.mem, regs: self.video.crtc }
    }

    pub open spec fn with_screen(self, s: Screen) -> MachineView {
        MachineView {
            cpu: State { mem: s.mem, ..self.cpu },
            video: Video { crtc: s.regs, ..self.video },
            ..self
        }
    }

    pub open spec fn with_mem(self, mem: Seq<u8>) -> MachineView {
        MachineView { cpu: State { mem, ..self.cpu }, ..self }
    }

    /// The service that interrupt `n` asks for.
    pub open spec fn service(self, n: u8) -> Service {
        service_of(n, self.cpu.reg8(4), self.cpu.reg8(0))
    }

    /// Whether the service can be performed in the current video mode: the
    /// mode to set is known; pixels can be written where the service draws;
    /// and each character that goes to teletype output can be typed.
    pub open spec fn can_serve(self, s: Service) -> bool {
        let c = self.cpu;
        let v = self.video;
        match s {
            Service::SetMode => mode_known(v, (c.reg8(0) % 128) as u8),
            Service::WriteChar | Service::WritePixel => draws(v.mode.kind),
            Service::Teletype => typable(v.mode.kind, c.reg8(0)),
            Service::PrintChar => typable(v.mode.kind, c.reg8(2)),
            Service::WriteString => string_typable(
                string_start(self.screen(), c.reg8(6), c.reg8(2), c.reg8(7)),
                v.mode,
                v.card,
                c.sreg(0),
                c.reg16(5),
                c.reg8(3),
                c.reg8(0),
                c.reg8(7),
                c.reg16(1) as nat,
            ),
            Service::PrintString => dollar_string_typable(
                self.screen(),
                v,
                c.sreg(3),
                c.reg16(2),
                bda8(c.mem, 0x62),
                MAX_STRING as nat,
            ),
            Service::Unknown => false,
            _ => true,
        }
    }

    /// The machine after the service `SetMode`.
    pub open spec fn after_set_mode(self) -> MachineView {
        let c = self.cpu;
        let v = self.video;
        let mode = (c.reg8(0) % 128) as u8;
        MachineView {
            cpu: State {
                mem: mode_set_screen(self.screen(), v, mode_row_for(v, mode)).mem,
                ..c
            },
            video: mode_set_video(v, c.mem, mode),
            ..self
        }
    }

    /// The machine after the service `SetCursor`.
    pub open spec fn after_set_cursor(self) -> MachineView {
        let c = self.cpu;
        self.with_screen(
            cursor_moved(self.screen(), c.reg8(6), c.reg8(2), c.reg8(7)),
        )
    }

    /// The machine after the service `SetPage`.
    pub open spec fn after_set_page(self) -> MachineView {
        let c = self.cpu;
        let v = self.video;
        self.with_screen(
            page_selected(self.screen(), v.card, v.mode, c.reg8(0)),
        )
    }

    /// The machine after the service `WriteChar`.
    pub open spec fn after_write_char(self) -> MachineView {
        let c = self.cpu;
        let v = self.video;
        let p = write_page(v.mode, v.card, c.reg8(7));
        self.with_mem(
            chars_written(
                c.mem,
                v.mode,
                v.card,
                crate::bios::cursor_col(c.mem, p),
                crate::bios::cursor_row(c.mem, p),
                p,
                c.reg8(0),
                c.reg8(3),
                !v.mode.spec_is_text(),
                crate::bios::bda16(c.mem, 0x4A),
                c.reg16(1) as nat,
            ).0,
        )
    }

    /// The machine after the service `WritePixel`.
    pub open spec fn after_write_pixel(self) -> MachineView {
        let c = self.cpu;
        let v = self.video;
        self.with_mem(
            pixel_written(c.mem, v.mode.kind, v.card, c.reg16(1), c.reg16(2), c.reg8(0)),
        )
    }

    /// The machine after the service `Teletype`.
    pub open spec fn after_teletype(self) -> MachineView {
        let c = self.cpu;
        let v = self.video;
        self.with_screen(
            teletyped(
                self.screen(),
                v.mode,
                v.card,
                c.reg8(0),
                c.reg8(3),
                c.reg8(7),
                v.mode.kind != GFXMode::TEXT,
            ),
        )
    }

    /// The machine after the service `GetMode`.
    pub open spec fn after_get_mode(self) -> MachineView {
        let c = self.cpu;
        MachineView {
            cpu: c.with_reg16(0, join_bytes(bda8(c.mem, 0x4A), bda8(c.mem, 0x49))).with_reg8(
                7,
                bda8(c.mem, 0x62),
            ),
            ..self
        }
    }

    /// The machine after the service `SetDacRegister`.
    pub open spec fn after_set_dac_register(self) -> MachineView {
        let c = self.cpu;
        let v = self.video;
        MachineView {
            video: Video {
                pal: v.pal.update(
                    c.reg8(3) as int,
                    dac_color(c.reg8(6), c.reg8(5), c.reg8(1), bda8(c.mem, 0x89) & 0x06 != 0),
                ),
                write_index: ((c.reg8(3) + 1) % 256) as u8,
                pel_index: 0,
                ..v
            },
            ..self
        }
    }

    /// The machine after the service `SetDacBlock`.
    pub open spec fn after_set_dac_block(self) -> MachineView {
        let c = self.cpu;
        let v = self.video;
        let r = dac_block_set(
            v.pal,
            c.mem,
            c.sreg(0),
            c.reg16(2),
            (c.reg16(3) % 256) as u8,
            bda8(c.mem, 0x89) & 0x06 != 0,
            c.reg16(1) as nat,
        );
        MachineView { video: Video { pal: r.0, write_index: r.2, pel_index: 0, ..v }, ..self }
    }

    /// The machine after the service `GetDacRegister`.
    pub open spec fn after_get_dac_register(self) -> MachineView {
        let c = self.cpu;
        let v = self.video;
        let col = v.pal[c.reg8(3) as int];
        MachineView {
            cpu: c.with_reg8(6, component(col, 0) / 4).with_reg8(
                5,
                component(col, 1) / 4,
            ).with_reg8(1, component(col, 2) / 4),
            video: Video {
                read_index: ((c.reg8(3) + 1) % 256) as u8,
                pel_index: 0,
                ..v
            },
            ..self
        }
    }

    /// The machine after the service `ReadDacBlock`.
    pub open spec fn after_read_dac_block(self) -> MachineView {
        let c = self.cpu;
        let v = self.video;
        let r = dac_block_read(
            c.mem,
            v.pal,
            c.sreg(0),
            c.reg16(2),
            (c.reg16(3) % 256) as u8,
            c.reg16(1) as nat,
        );
        MachineView {
            cpu: State { mem: r.0, ..c },
            video: Video { read_index: r.2, pel_index: 0, ..v },
            ..self
        }
    }

    /// The machine after the service `LoadChars`.
    pub open spec fn after_load_chars(self) -> MachineView {
        let c = self.cpu;
        let v = self.video;
        if v.card.spec_is_vga() {
            self.with_mem(
                crate::memory::store16(
                    vector_set(c.mem, 0x43, v.font_16),
                    crate::bios::bda(0x85),
                    16,
                ).update(crate::bios::bda(0x84), chargen_rows(c.reg8(3), c.reg8(2))),
            )
        } else {
            self
        }
    }

    /// The machine after the service `WriteString`.
    pub open spec fn after_write_string(self) -> MachineView {
        let c = self.cpu;
        let v = self.video;
        self.with_screen(
            string_written(
                self.screen(),
                v,
                c.reg8(6),
                c.reg8(2),
                c.reg8(0),
                c.reg8(3),
                c.sreg(0),
                c.reg16(5),
                c.reg16(1),
                c.reg8(7),
            ),
        )
    }

    /// The machine after the service `KeyRead`.
    pub open spec fn after_key_read(self) -> MachineView {
        let c = self.cpu;
        MachineView { cpu: c.with_reg16(0, 0), ..self }
    }

    /// The machine after the service `Terminate`.
    pub open spec fn after_terminate(self) -> MachineView {
        let c = self.cpu;
        MachineView { cpu: State { halted: true, ..c }, ..self }
    }

    /// The machine after the service `PrintChar`.
    pub open spec fn after_print_char(self) -> MachineView {
        let c = self.cpu;
        let v = self.video;
        self.with_screen(
            teletyped(
                self.screen(),
                v.mode,
                v.card,
                c.reg8(2),
                7,
                bda8(c.mem, 0x62),
                v.mode.kind != GFXMode::TEXT,
            ),
        )
    }

    /// The machine after the service `PrintString`.
    pub open spec fn after_print_string(self) -> MachineView {
        let c = self.cpu;
        let v = self.video;
        self.with_screen(
            dollar_string_typed(
                self.screen(),
                v,
                c.sreg(3),
                c.reg16(2),
                bda8(c.mem, 0x62),
                MAX_STRING as nat,
            ).0,
        )
    }

    /// The machine after a host service, with the arguments taken from the
    /// registers.
    pub open spec fn performed(self, s: Service) -> MachineView {
        match s {
            Service::SetMode => self.after_set_mode(),
            Service::SetCursor => self.after_set_cursor(),
            Service::SetPage => self.after_set_page(),
            Service::WriteChar => self.after_write_char(),
            Service::WritePixel => self.after_write_pixel(),
            Service::Teletype => self.after_teletype(),
            Service::GetMode => self.after_get_mode(),
            Service::SetDacRegister => self.after_set_dac_register(),
            Service::SetDacBlock => self.after_set_dac_block(),
            Service::GetDacRegister => self.after_get_dac_register(),
            Service::ReadDacBlock => self.after_read_dac_block(),
            Service::LoadChars => self.after_load_chars(),
            Service::WriteString => self.after_write_string(),
            Service::KeyRead => self.after_key_read(),
            Service::Terminate => self.after_terminate(),
            Service::PrintChar => self.after_print_char(),
            Service::PrintString => self.after_print_string(),
            Service::Unknown => self,
        }
    }

    /// The machine after interrupt `n` was served by the host. A service
    /// that is unknown, or cannot be performed, changes nothing.
    pub open spec fn served(self, n: u8) -> MachineView {
        if self.can_serve(self.service(n)) {
            self.performed(self.service(n))
        } else {
            self
        }
    }
}

/// The most characters that the string service prints: the bytes of a
/// segment.
pub const MAX_STRING: u32 = 0x1_0000;

/// The screen after the characters of the string at `seg:off` went to
/// teletype output, up to the first "$" or to `budget` characters; with it
/// the offset at which the output stopped.
pub open spec fn dollar_string_typed(
    s: Screen,
    v: Video,
    seg: u16,
    off: u16,
    page: u8,
    budget: nat,
) -> (Screen, u16)
    decreases budget,
{
    let chr = crate::pixel::byte_or_zero(s.mem, seg, off);
    if budget == 0 || chr == 0x24 {
        (s, off)
    } else {
        dollar_string_typed(
            teletyped(s, v.mode, v.card, chr, 7, page, v.mode.kind != GFXMode::TEXT),
            v,
            seg,
            wrap16(off + 1),
            page,
            (budget - 1) as nat,
        )
    }
}

/// Whether each character of the string at `seg:off`, up to the first "$"
/// or to `budget` characters, can go to teletype output.
pub open spec fn dollar_string_typable(
    s: Screen,
    v: Video,
    seg: u16,
    off: u16,
    page: u8,
    budget: nat,
) -> bool
    decreases budget,
{
    let chr = crate::pixel::byte_or_zero(s.mem, seg, off);
    budget == 0 || chr == 0x24 || (typable(v.mode.kind, chr) && dollar_string_typable(
        teletyped(s, v.mode, v.card, chr, 7, page, v.mode.kind != GFXMode::TEXT),
        v,
        seg,
        wrap16(off + 1),
        page,
        (budget - 1) as nat,
    ))
}

/// The screen after WRITE STRING.
pub open spec fn string_written(
    s: Screen,
    v: Video,
    row: u8,
    col: u8,
    flag: u8,
    attr: u8,
    seg: u16,
    off: u16,
    count: u16,
    page: u8,
) -> Screen {
    let cur_row = crate::bios::cursor_row(s.mem, page);
    let cur_col = crate::bios::cursor_col(s.mem, page);
    let r = if row == 0xFF {
        cur_row
    } else {
        row
    };
    let c = if row == 0xFF {
        cur_col
    } else {
        col
    };
    let s1 = string_typed(
        cursor_moved(s, r, c, page),
        v.mode,
        v.card,
        seg,
        off,
        attr,
        flag,
        page,
        count as nat,
    ).0;
    if flag & 1 == 0 {
        cursor_moved(s1, cur_row, cur_col, page)
    } else {
        s1
    }
}

/// Memory before the first mode set: zero but for the default interrupt
/// vector table.
pub open spec fn boot_memory() -> Seq<u8> {
    with_default_vectors(Seq::new(MEMORY_SIZE as nat, |i: int| 0u8))
}

/// Memory and CRT controller of a machine that was switched on: after the
/// mode set to mode 3.
pub open spec fn switched_on_screen() -> Screen {
    mode_set_screen(
        Screen { mem: boot_memory(), regs: created_video().crtc },
        created_video(),
        mode_row_for(created_video(), 3),
    )
}

/// The adapter, as it is created, knows mode 3.
pub proof fn lemma_mode_3_is_known()
    ensures
        mode_known(created_video(), 3),
        mode_row_for(created_video(), 3) == crate::modes::mode_row(crate::modes::GraphicCard::VGA, 3),
{
    reveal_with_fuel(crate::gpu::last_row, 16);
    let v = created_video();
    assert(v.modes.len() == 15);
    assert(v.modes[14].mode == 0x13);
    assert(v.modes[13].mode == 0x12);
    assert(v.modes[12].mode == 0x11);
    assert(v.modes[11].mode == 0x10);
    assert(v.modes[10].mode == 0x0F);
    assert(v.modes[9].mode == 0x0E);
    assert(v.modes[8].mode == 0x0D);
    assert(v.modes[7].mode == 0x07);
    assert(v.modes[6].mode == 0x06);
    assert(v.modes[5].mode == 0x05);
    assert(v.modes[4].mode == 0x04);
    assert(v.modes[3].mode == 0x03);
}

/// The CGA status register: bits 0 and 3 are set while the scan line is 0.
pub open spec fn status_bits(scanline: u32) -> u8 {
    if scanline == 0 {
        0x09
    } else {
        0
    }
}

/// The scan line after one tick: it goes back to 0 after the width of the
/// screen.
pub open spec fn next_scanline(v: Video) -> u32 {
    if v.scanline >= v.mode.swidth {
        0
    } else {
        (v.scanline + 1) as u32
    }
}

impl MachineView {
    /// What a read of an 8-bit port gives, and the machine after it. Port
    /// 3C9h reads the DAC, 3DAh the status register, 3D5h the CRT
    /// controller, 40h the low byte of the timer; any other port reads as 0.
    pub open spec fn port_in8(self, port: u16) -> (u8, MachineView) {
        let v = self.video;
        if port == 0x3C9 {
            (
                component(v.pal[v.read_index as int], v.pel_index as int) / 4,
                MachineView {
                    video: Video {
                        read_index: next_index(v.read_index, v.pel_index),
                        pel_index: next_pel(v.pel_index),
                        ..v
                    },
                    ..self
                },
            )
        } else if port == 0x3DA {
            (status_bits(v.scanline), self)
        } else if port == 0x3D5 {
            (CRTC::current(v.crtc), self)
        } else if port == 0x40 {
            ((self.pit % 256) as u8, self)
        } else {
            (0, self)
        }
    }

    /// The machine after a write to an 8-bit port. Ports 3C7h and 3C8h set
    /// the read and write index of the DAC, 3C9h writes the DAC, 3D4h and
    /// 3D5h select and write a register of the CRT controller; a write to
    /// any other port is ignored.
    pub open spec fn port_out8(self, port: u16, b: u8) -> MachineView {
        let v = self.video;
        if port == 0x3C7 {
            MachineView { video: Video { read_index: b, pel_index: 0, ..v }, ..self }
        } else if port == 0x3C8 {
            MachineView { video: Video { write_index: b, pel_index: 0, ..v }, ..self }
        } else if port == 0x3C9 {
            MachineView {
                video: Video {
                    pal: v.pal.update(
                        v.write_index as int,
                        with_component(v.pal[v.write_index as int], v.pel_index as int, scale6(b)),
                    ),
                    write_index: next_index(v.write_index, v.pel_index),
                    pel_index: next_pel(v.pel_index),
                    ..v
                },
                ..self
            }
        } else if port == 0x3D4 {
            MachineView { video: Video { crtc: CRTC::selected(v.crtc, b), ..v }, ..self }
        } else if port == 0x3D5 {
            MachineView { video: Video { crtc: CRTC::written_current(v.crtc, b), ..v }, ..self }
        } else {
            self
        }
    }

    /// A read of a port: at 16 bits the low byte comes from the port, the
    /// high byte from the next port.
    pub open spec fn port_in(self, port: u16, wide: bool) -> (u16, MachineView) {
        let low = self.port_in8(port);
        if wide {
            let high = low.1.port_in8(wrap16(port + 1));
            (join_bytes(high.0, low.0), high.1)
        } else {
            (low.0 as u16, low.1)
        }
    }

    /// A write to a port: at 16 bits the low byte goes to the port, the high
    /// byte to the next port.
    pub open spec fn port_out(self, port: u16, value: u16, wide: bool) -> MachineView {
        let m = self.port_out8(port, crate::register::lo_byte(value));
        if wide {
            m.port_out8(wrap16(port + 1), crate::register::hi_byte(value))
        } else {
            m
        }
    }

    /// The machine after the hardware did what an instruction asked for.
    pub open spec fn completed(self, e: Effect) -> MachineView {
        match e {
            Effect::Done => self,
            Effect::PortIn { port, wide } => {
                let r = self.port_in(port, wide);
                MachineView { cpu: r.1.cpu.with_accumulator(r.0, wide), ..r.1 }
            },
            Effect::PortInString { port, seg, offset, wide } => {
                let r = self.port_in(port, wide);
                MachineView { cpu: r.1.cpu.store(seg, offset, r.0, wide), ..r.1 }
            },
            Effect::PortOut { port, value, wide } => self.port_out(port, value, wide),
        }
    }

    /// The machine after the peripherals were given their chance to tick:
    /// whenever the cycle count is a multiple of 100, the scan line moves on
    /// and counter 0 of the timer decreases.
    pub open spec fn ticked(self) -> MachineView {
        if self.cpu.cycle_count % TICK_INTERVAL == 0 {
            MachineView {
                video: Video { scanline: next_scanline(self.video), ..self.video },
                pit: wrap16(self.pit - 1),
                ..self
            }
        } else {
            self
        }
    }

    /// One step of the machine: if CS is the BIOS ROM segment, the interrupt
    /// whose number is the low byte of IP is served; then the instruction
    /// at CS:IP is run, the hardware does what it asks for, and the
    /// peripherals tick.
    #[verifier::opaque]
    pub open spec fn step(self) -> MachineView {
        let m1 = if self.cpu.sreg(1) == ROM_SEG {
            self.served((self.cpu.ip % 256) as u8)
        } else {
            self
        };
        let e = m1.cpu.next_effect();
        let m2 = MachineView { cpu: m1.cpu.next(), ..m1 };
        m2.completed(e).ticked()
    }

    /// `n` steps of the machine.
    pub open spec fn steps(self, n: nat) -> MachineView
        decreases n,
    {
        if n == 0 {
            self
        } else {
            self.steps((n - 1) as nat).step()
        }
    }

    /// Whether the machine has come to a stop.
    pub open spec fn stopped(self) -> bool {
        self.cpu.fatal || self.cpu.halted
    }

    /// Number of instructions in one frame.
    pub open spec fn frame_cycles(self) -> int {
        self.cpu.clock_hz as int / FPS as int
    }

    /// The machine after one video frame of at most `budget` steps: it steps
    /// until it stops, or until the cycle count exceeds the instructions of
    /// a frame, in which case the cycle count starts again at 0.
    pub open spec fn frame(self, budget: nat) -> MachineView
        decreases budget,
    {
        if budget == 0 {
            self
        } else {
            let m = self.step();
            if m.stopped() {
                m
            } else if m.cpu.cycle_count > m.frame_cycles() {
                MachineView { cpu: State { cycle_count: 0, ..m.cpu }, ..m }
            } else {
                m.frame((budget - 1) as nat)
            }
        }
    }
}

impl View for Machine {
    type V = MachineView;

    open spec fn view(&self) -> MachineView {
        MachineView { cpu: self.cpu@, video: self.hw.gpu@, pit: self.hw.pit.counter0.count }
    }
}

impl Machine {
    pub open spec fn wf(&self) -> bool {
        &&& self.cpu.wf()
        &&& self.hw.gpu.wf()
    }

    /// Whether pixels can be written in the current video mode.
    fn can_draw(&self) -> (r: bool)
        ensures
            r == draws(self.hw.gpu.mode.kind),
    {
        match self.hw.gpu.mode.kind {
            GFXMode::TEXT | GFXMode::CGA4 | GFXMode::VGA => true,
            _ => false,
        }
    }

    fn do_set_mode(&mut self)
        requires
            old(self).wf(),
            old(self)@.can_serve(Service::SetMode),
        ensures
            final(self).wf(),
            final(self)@ == old(self)@.after_set_mode(),
    {
        let al = self.cpu.get_r8(0);
        self.hw.gpu.set_mode(&mut self.cpu.mmu, &mut self.hw.bios, al % 128);
    }

    fn do_set_cursor(&mut self)
        requires
            old(self).wf(),
        ensures
            final(self).wf(),
            final(self)@ == old(self)@.after_set_cursor(),
    {
        let dh = self.cpu.get_r8(6);
        let dl = self.cpu.get_r8(2);
        let bh = self.cpu.get_r8(7);
        self.hw.gpu.set_cursor_pos(&mut self.cpu.mmu, dh, dl, bh);
    }

    fn do_set_page(&mut self)
        requires
            old(self).wf(),
        ensures
            final(self).wf(),
            final(self)@ == old(self)@.after_set_page(),
    {
        let al = self.cpu.get_r8(0);
        self.hw.gpu.set_active_page(&mut self.cpu.mmu, al);
    }

    fn do_write_char(&mut self)
        requires
            old(self).wf(),
            old(self)@.can_serve(Service::WriteChar),
        ensures
            final(self).wf(),
            final(self)@ == old(self)@.after_write_char(),
    {
        let al = self.cpu.get_r8(0);
        let bl = self.cpu.get_r8(3);
        let bh = self.cpu.get_r8(7);
        let cx = self.cpu.get_r16(1);
        self.hw.gpu.write_char(&mut self.cpu.mmu, al as u16, bl, bh, cx, false);
    }

    fn do_write_pixel(&mut self)
        requires
            old(self).wf(),
            old(self)@.can_serve(Service::WritePixel),
        ensures
            final(self).wf(),
            final(self)@ == old(self)@.after_write_pixel(),
    {
        let al = self.cpu.get_r8(0);
        let bh = self.cpu.get_r8(7);
        let cx = self.cpu.get_r16(1);
        let dx = self.cpu.get_r16(2);
        self.hw.gpu.write_pixel(&mut self.cpu.mmu, cx, dx, bh, al);
    }

    fn do_teletype(&mut self)
        requires
            old(self).wf(),
            old(self)@.can_serve(Service::Teletype),
        ensures
            final(self).wf(),
            final(self)@ == old(self)@.after_teletype(),
    {
        let al = self.cpu.get_r8(0);
        let bl = self.cpu.get_r8(3);
        let bh = self.cpu.get_r8(7);
        self.hw.gpu.teletype_output(&mut self.cpu.mmu, al, bh, bl);
    }

    fn do_get_mode(&mut self)
        requires
            old(self).wf(),
        ensures
            final(self).wf(),
            final(self)@ == old(self)@.after_get_mode(),
    {
        let cols = self.cpu.mmu.read_u8(0x40, 0x4A);
        let mode = self.cpu.mmu.read_u8(0x40, 0x49);
        let page = self.hw.gpu.get_active_page(&mut self.cpu.mmu);
        self.cpu.set_r16(0, cols as u16 * 256 + mode as u16);
        self.cpu.set_r8(7, page);
    }

    fn do_set_dac_register(&mut self)
        requires
            old(self).wf(),
        ensures
            final(self).wf(),
            final(self)@ == old(self)@.after_set_dac_register(),
    {
        let bl = self.cpu.get_r8(3);
        let dh = self.cpu.get_r8(6);
        let ch = self.cpu.get_r8(5);
        let cl = self.cpu.get_r8(1);
        self.hw.gpu.set_individual_dac_register(&mut self.cpu.mmu, bl, dh, ch, cl);
    }

    fn do_set_dac_block(&mut self)
        requires
            old(self).wf(),
        ensures
            final(self).wf(),
            final(self)@ == old(self)@.after_set_dac_block(),
    {
        let bx = self.cpu.get_r16(3);
        let cx = self.cpu.get_r16(1);
        let es = self.cpu.get_sreg(0);
        let dx = self.cpu.get_r16(2);
        self.hw.gpu.set_dac_block(&mut self.cpu.mmu, bx, cx, es, dx);
    }

    fn do_get_dac_register(&mut self)
        requires
            old(self).wf(),
        ensures
            final(self).wf(),
            final(self)@ == old(self)@.after_get_dac_register(),
    {
        let bl = self.cpu.get_r8(3);
        let c = self.hw.gpu.get_individual_dac_register(bl);
        self.cpu.set_r8(6, c.0);
        self.cpu.set_r8(5, c.1);
        self.cpu.set_r8(1, c.2);
    }

    fn do_read_dac_block(&mut self)
        requires
            old(self).wf(),
        ensures
            final(self).wf(),
            final(self)@ == old(self)@.after_read_dac_block(),
    {
        let bx = self.cpu.get_r16(3);
        let cx = self.cpu.get_r16(1);
        let es = self.cpu.get_sreg(0);
        let dx = self.cpu.get_r16(2);
        self.hw.gpu.read_dac_block(&mut self.cpu.mmu, bx, cx, es, dx);
    }

    fn do_load_chars(&mut self)
        requires
            old(self).wf(),
        ensures
            final(self).wf(),
            final(self)@ == old(self)@.after_load_chars(),
    {
        let bl = self.cpu.get_r8(3);
        let dl = self.cpu.get_r8(2);
        self.hw.gpu.load_graphics_chars(&mut self.cpu.mmu, bl, dl);
    }

    fn do_write_string(&mut self)
        requires
            old(self).wf(),
            old(self)@.can_serve(Service::WriteString),
        ensures
            final(self).wf(),
            final(self)@ == old(self)@.after_write_string(),
    {
        let al = self.cpu.get_r8(0);
        let bl = self.cpu.get_r8(3);
        let bh = self.cpu.get_r8(7);
        let cx = self.cpu.get_r16(1);
        let dl = self.cpu.get_r8(2);
        let dh = self.cpu.get_r8(6);
        let bp = self.cpu.get_r16(5);
        let es = self.cpu.get_sreg(0);
        self.hw.gpu.write_string(&mut self.cpu.mmu, dh, dl, al, bl, es, bp, cx, bh);
    }

    fn do_key_read(&mut self)
        requires
            old(self).wf(),
        ensures
            final(self).wf(),
            final(self)@ == old(self)@.after_key_read(),
    {
        self.cpu.set_r16(0, 0);
    }

    fn do_terminate(&mut self)
        requires
            old(self).wf(),
        ensures
            final(self).wf(),
            final(self)@ == old(self)@.after_terminate(),
    {
        self.cpu.halted = true;
    }

    fn do_print_char(&mut self)
        requires
            old(self).wf(),
            old(self)@.can_serve(Service::PrintChar),
        ensures
            final(self).wf(),
            final(self)@ == old(self)@.after_print_char(),
    {
        let dl = self.cpu.get_r8(2);
        let page = self.hw.gpu.get_active_page(&mut self.cpu.mmu);
        self.hw.gpu.teletype_output(&mut self.cpu.mmu, dl, page, 7);
    }

    fn do_print_string(&mut self)
        requires
            old(self).wf(),
            old(self)@.can_serve(Service::PrintString),
        ensures
            final(self).wf(),
            final(self)@ == old(self)@.after_print_string(),
    {
        let seg = self.cpu.get_sreg(3);
        let mut off = self.cpu.get_r16(2);
        let page = self.hw.gpu.get_active_page(&mut self.cpu.mmu);
        let ghost start = self@;
        let mut budget: u32 = MAX_STRING;
        loop
            invariant
                self.wf(),
                dollar_string_typable(self@.screen(), start.video, seg, off, page, budget as nat),
                self.cpu@ == (State { mem: self.cpu.mmu@, ..start.cpu }),
                self@.pit == start.pit,
                self@.video == (Video { crtc: self.hw.gpu.crtc@, ..start.video }),
                dollar_string_typed(self@.screen(), start.video, seg, off, page, budget as nat)
                    == dollar_string_typed(
                    start.screen(),
                    start.video,
                    seg,
                    start.cpu.reg16(2),
                    page,
                    MAX_STRING as nat,
                ),
            ensures
                self.wf(),
                self@ == start.with_screen(
                    dollar_string_typed(
                        start.screen(),
                        start.video,
                        seg,
                        start.cpu.reg16(2),
                        page,
                        MAX_STRING as nat,
                    ).0,
                ),
            decreases budget,
        {
            let chr = crate::pixel::read_or_zero(&self.cpu.mmu, seg, off);
            if budget == 0 || chr == 0x24 {
                break ;
            }
            self.hw.gpu.teletype_output(&mut self.cpu.mmu, chr, page, 7);
            off = crate::address::add16(off, 1);
            budget -= 1;
        }
    }

    /// Whether the mode set that AL asks for can be done.
    fn mode_is_known(&self) -> (r: bool)
        requires
            self.wf(),
        ensures
            r == self@.can_serve(Service::SetMode),
    {
        let mode = self.cpu.get_r8(0) % 128;
        match self.hw.gpu.lookup_mode(mode) {
            Some(i) => match self.hw.gpu.modes[i].kind {
                GFXMode::TANDY16 => false,
                _ => true,
            },
            None => false,
        }
    }

    /// Whether the "$"-terminated string at DS:DX can be printed. The
    /// string is typed on trial where the mode does not settle it; the
    /// machine is as before afterwards.
    fn can_print_string(&mut self) -> (r: bool)
        requires
            old(self).wf(),
        ensures
            final(self).wf(),
            final(self)@ == old(self)@,
            r == old(self)@.can_serve(Service::PrintString),
    {
        let seg = self.cpu.get_sreg(3);
        let mut off = self.cpu.get_r16(2);
        let page = self.hw.gpu.get_active_page(&mut self.cpu.mmu);
        let saved = self.cpu.mmu.memory.snapshot();
        let index = self.hw.gpu.crtc.index;
        let registers = self.hw.gpu.crtc.registers;
        let ghost start = self@;
        let mut budget: u32 = MAX_STRING;
        let mut all = true;
        loop
            invariant_except_break
                all,
                self@.video == (Video { crtc: self.hw.gpu.crtc@, ..start.video }),
                dollar_string_typable(self@.screen(), start.video, seg, off, page, budget as nat)
                    == dollar_string_typable(
                    start.screen(),
                    start.video,
                    seg,
                    start.cpu.reg16(2),
                    page,
                    MAX_STRING as nat,
                ),
            invariant
                self.wf(),
                self.cpu@ == (State { mem: self.cpu.mmu@, ..start.cpu }),
                self@.pit == start.pit,
                self.hw.gpu.same_but_crtc(&old(self).hw.gpu),
                self.hw.bios == old(self).hw.bios,
            ensures
                self.wf(),
                self.cpu@ == (State { mem: self.cpu.mmu@, ..start.cpu }),
                self@.pit == start.pit,
                self.hw.gpu.same_but_crtc(&old(self).hw.gpu),
                self.hw.bios == old(self).hw.bios,
                all == dollar_string_typable(
                    start.screen(),
                    start.video,
                    seg,
                    start.cpu.reg16(2),
                    page,
                    MAX_STRING as nat,
                ),
            decreases budget,
        {
            let chr = crate::pixel::read_or_zero(&self.cpu.mmu, seg, off);
            if budget == 0 || chr == 0x24 {
                break ;
            }
            if !is_typable(self.hw.gpu.mode.kind, chr) {
                all = false;
                break ;
            }
            self.hw.gpu.teletype_output(&mut self.cpu.mmu, chr, page, 7);
            off = crate::address::add16(off, 1);
            budget -= 1;
        }
        self.cpu.mmu.memory = Memory { memory: saved };
        self.hw.gpu.crtc = CRTC { index, registers };
        all
    }

    /// Whether the service can be performed. The machine is as before
    /// afterwards.
    fn servable(&mut self, s: Service) -> (r: bool)
        requires
            old(self).wf(),
        ensures
            final(self).wf(),
            final(self)@ == old(self)@,
            r == old(self)@.can_serve(s),
    {
        match s {
            Service::SetMode => self.mode_is_known(),
            Service::WriteChar | Service::WritePixel => self.can_draw(),
            Service::Teletype => is_typable(self.hw.gpu.mode.kind, self.cpu.get_r8(0)),
            Service::PrintChar => is_typable(self.hw.gpu.mode.kind, self.cpu.get_r8(2)),
            Service::WriteString => {
                let al = self.cpu.get_r8(0);
                let bl = self.cpu.get_r8(3);
                let bh = self.cpu.get_r8(7);
                let cx = self.cpu.get_r16(1);
                let dl = self.cpu.get_r8(2);
                let dh = self.cpu.get_r8(6);
                let bp = self.cpu.get_r16(5);
                let es = self.cpu.get_sreg(0);
                self.hw.gpu.can_write_string(&mut self.cpu.mmu, dh, dl, al, bl, es, bp, cx, bh)
            },
            Service::PrintString => self.can_print_string(),
            Service::Unknown => false,
            _ => true,
        }
    }

    /// Performs a host service.
    fn perform(&mut self, s: Service)
        requires
            old(self).wf(),
            old(self)@.can_serve(s),
        ensures
            final(self).wf(),
            final(self)@ == old(self)@.performed(s),
    {
        match s {
            Service::SetMode => self.do_set_mode(),
            Service::SetCursor => self.do_set_cursor(),
            Service::SetPage => self.do_set_page(),
            Service::WriteChar => self.do_write_char(),
            Service::WritePixel => self.do_write_pixel(),
            Service::Teletype => self.do_teletype(),
            Service::GetMode => self.do_get_mode(),
            Service::SetDacRegister => self.do_set_dac_register(),
            Service::SetDacBlock => self.do_set_dac_block(),
            Service::GetDacRegister => self.do_get_dac_register(),
            Service::ReadDacBlock => self.do_read_dac_block(),
            Service::LoadChars => self.do_load_chars(),
            Service::WriteString => self.do_write_string(),
            Service::KeyRead => self.do_key_read(),
            Service::Terminate => self.do_terminate(),
            Service::PrintChar => self.do_print_char(),
            Service::PrintString => self.do_print_string(),
            Service::Unknown => {},
        }
    }

    /// Serves interrupt `n` on the host; returns whether there is a service
    /// for it that could be performed.
    pub fn handle_interrupt(&mut self, n: u8) -> (handled: bool)
        requires
            old(self).wf(),
        ensures
            final(self).wf(),
            final(self)@ == old(self)@.served(n),
            handled == old(self)@.can_serve(old(self)@.service(n)),
    {
        let s = service_for(n, self.cpu.get_r8(4), self.cpu.get_r8(0));
        if self.servable(s) {
            self.perform(s);
            true
        } else {
            false
        }
    }

    /// A machine as it is switched on: registers as after a reset, memory
    /// zero but for the default interrupt vector table and what the mode set
    /// to mode 3 leaves, and a VGA in that mode.
    pub fn default() -> (m: Machine)
        ensures
            m.wf(),
            registers_reset(m@.cpu),
            m@.cpu.mem == switched_on_screen().mem,
            m@.video == mode_set_video(created_video(), boot_memory(), 3),
            m@.pit == 0,
    {
        let mut m = Machine {
            cpu: CPU::new(),
            hw: Hardware {
                gpu: GPU::default(),
                bios: BIOS::default(),
                pit: PIT { counter0: Counter { count: 0 } },
            },
        };
        assert(m.cpu.mmu@ =~= Seq::new(MEMORY_SIZE as nat, |i: int| 0u8));
        let ghost before = m.cpu@;
        m.hw.bios.init(&mut m.cpu.mmu);
        proof {
            lemma_mode_3_is_known();
        }
        m.hw.gpu.set_mode(&mut m.cpu.mmu, &mut m.hw.bios, 3);
        assert(m.cpu@ == State { mem: m.cpu.mmu@, ..before });
        assert forall|i: int| 0 <= i < 8 && i != 4 implies m@.cpu.reg16(i) == 0 by {
            assert(before.reg16(i) == 0);
        }
        assert forall|i: int| 0 <= i < 6 && i != 3 implies m@.cpu.sreg(i) == 0 by {
            assert(before.sreg(i) == 0);
        }
        m
    }

    /// Installs the video ROM: fonts and tables of the adapter.
    pub fn install_video_rom(&mut self, rom: &crate::videorom::VideoRom)
        requires
            old(self).wf(),
            rom.wf(),
        ensures
            final(self).wf(),
            final(self)@.cpu == (State {
                mem: crate::videorom::rom_installed(
                    old(self)@.cpu.mem,
                    old(self)@.video,
                    rom,
                ).cursor.mem,
                ..old(self)@.cpu
            }),
            final(self)@.video == crate::videorom::rom_installed(
                old(self)@.cpu.mem,
                old(self)@.video,
                rom,
            ).video,
            final(self)@.pit == old(self)@.pit,
    {
        self.hw.gpu.init(&mut self.cpu.mmu, rom);
    }

    /// Resets the processor. Memory and the hardware are kept.
    pub fn hard_reset(&mut self)
        requires
            old(self).wf(),
        ensures
            final(self).wf(),
            registers_reset(final(self)@.cpu),
            final(self)@.cpu.mem == old(self)@.cpu.mem,
            final(self)@.video == old(self)@.video,
            final(self)@.pit == old(self)@.pit,
    {
        self.cpu.hard_reset();
    }

    /// Loads a program: a segmented executable if the file starts with "MZ",
    /// else a raw image. A file that is refused changes nothing.
    pub fn load_executable(&mut self, data: &[u8]) -> (r: Result<(), LoadError>)
        requires
            old(self).wf(),
        ensures
            final(self).wf(),
            final(self)@.video == old(self)@.video,
            final(self)@.pit == old(self)@.pit,
            match load_result(old(self)@.cpu, data@) {
                Ok(s) => r is Ok && final(self)@.cpu == s,
                Err(e) => r == Err::<(), LoadError>(e) && final(self)@.cpu == old(self)@.cpu,
            },
    {
        self.cpu.load_executable(data)
    }

    /// Loads a raw image into CS:0100 and points IP at the program start.
    pub fn load_com(&mut self, data: &[u8])
        requires
            old(self).wf(),
            data@.len() <= crate::loader::MAX_IMAGE,
        ensures
            final(self).wf(),
            final(self)@.cpu == crate::loader::com_loaded(old(self)@.cpu, data@),
            final(self)@.video == old(self)@.video,
            final(self)@.pit == old(self)@.pit,
    {
        self.cpu.load_com(data);
    }

    /// A copy of the register values at this moment.
    pub fn register_snapshot(&self) -> (r: RegisterSnapshot)
        ensures
            r.ip == self.cpu.ip,
            r.r16 == self.cpu.r16,
            r.sreg16 == self.cpu.sreg16,
            r.flags == self.cpu.flags,
    {
        RegisterSnapshot {
            ip: self.cpu.ip,
            r16: self.cpu.r16,
            sreg16: self.cpu.sreg16,
            flags: self.cpu.flags,
        }
    }

    /// Reads an 8-bit port.
    pub fn port_in8(&mut self, port: u16) -> (b: u8)
        requires
            old(self).wf(),
        ensures
            final(self).wf(),
            (b, final(self)@) == old(self)@.port_in8(port),
    {
        if port == 0x3C9 {
            self.hw.gpu.dac.get_pel_data()
        } else if port == 0x3DA {
            self.hw.gpu.read_cga_status_register()
        } else if port == 0x3D5 {
            self.hw.gpu.crtc.read_current()
        } else if port == 0x40 {
            (self.hw.pit.counter0.count % 256) as u8
        } else {
            0
        }
    }

    /// Writes an 8-bit port.
    pub fn port_out8(&mut self, port: u16, b: u8)
        requires
            old(self).wf(),
        ensures
            final(self).wf(),
            final(self)@ == old(self)@.port_out8(port, b),
    {
        if port == 0x3C7 {
            self.hw.gpu.dac.set_pel_read_index(b);
        } else if port == 0x3C8 {
            self.hw.gpu.dac.set_pel_write_index(b);
        } else if port == 0x3C9 {
            self.hw.gpu.dac.set_pel_data(b);
        } else if port == 0x3D4 {
            self.hw.gpu.crtc.set_index(b);
        } else if port == 0x3D5 {
            self.hw.gpu.crtc.write_current(b);
        }
    }

    /// Reads a port at 8 or 16 bits.
    pub fn port_in(&mut self, port: u16, wide: bool) -> (v: u16)
        requires
            old(self).wf(),
        ensures
            final(self).wf(),
            (v, final(self)@) == old(self)@.port_in(port, wide),
            crate::alu::fits(v, wide),
    {
        let low = self.port_in8(port);
        if wide {
            let high = self.port_in8(crate::address::add16(port, 1));
            high as u16 * 256 + low as u16
        } else {
            low as u16
        }
    }

    /// Writes a port at 8 or 16 bits.
    pub fn port_out(&mut self, port: u16, value: u16, wide: bool)
        requires
            old(self).wf(),
        ensures
            final(self).wf(),
            final(self)@ == old(self)@.port_out(port, value, wide),
    {
        self.port_out8(port, (value % 256) as u8);
        if wide {
            self.port_out8(crate::address::add16(port, 1), (value / 256) as u8);
        }
    }

    /// Lets the hardware do what an instruction asked for.
    pub fn complete(&mut self, e: Effect)
        requires
            old(self).wf(),
        ensures
            final(self).wf(),
            final(self)@ == old(self)@.completed(e),
    {
        match e {
            Effect::Done => {},
            Effect::PortIn { port, wide } => {
                let v = self.port_in(port, wide);
                if wide {
                    self.cpu.set_r16(0, v);
                } else {
                    self.cpu.set_r8(0, (v % 256) as u8);
                }
            },
            Effect::PortInString { port, seg, offset, wide } => {
                let v = self.port_in(port, wide);
                self.cpu.store(seg, offset, v, wide);
            },
            Effect::PortOut { port, value, wide } => {
                self.port_out(port, value, wide);
            },
        }
    }

    /// Gives the peripherals their chance to tick.
    pub fn tick(&mut self)
        requires
            old(self).wf(),
        ensures
            final(self).wf(),
            final(self)@ == old(self)@.ticked(),
    {
        if self.cpu.cycle_count % TICK_INTERVAL == 0 {
            self.hw.gpu.progress_scanline();
            self.hw.pit.counter0.dec();
        }
    }

    /// Executes one instruction.
    pub fn execute_instruction(&mut self)
        requires
            old(self).wf(),
        ensures
            final(self).wf(),
            final(self)@ == old(self)@.step(),
    {
        reveal(MachineView::step);
        if self.cpu.get_sreg(1) == ROM_SEG {
            let n = (self.cpu.ip % 256) as u8;
            let _ = self.handle_interrupt(n);
        }
        let e = self.cpu.execute_instruction();
        self.complete(e);
        self.tick();
    }

    /// Executes `count` instructions.
    pub fn execute_instructions(&mut self, count: usize)
        requires
            old(self).wf(),
        ensures
            final(self).wf(),
            final(self)@ == old(self)@.steps(count as nat),
    {
        let mut i: usize = 0;
        while i < count
            invariant
                i <= count,
                self.wf(),
                self@ == old(self)@.steps(i as nat),
            decreases count - i,
        {
            self.execute_instruction();
            i += 1;
        }
    }

    /// Executes the instructions of one video frame.
    pub fn execute_frame(&mut self)
        requires
            old(self).wf(),
        ensures
            final(self).wf(),
            final(self)@ == old(self)@.frame((old(self)@.frame_cycles() + 1) as nat),
    {
        let cycles: usize = self.cpu.clock_hz / FPS;
        let mut budget: usize = cycles + 1;
        while budget > 0
            invariant
                self.wf(),
                self@.frame(budget as nat) == old(self)@.frame((cycles + 1) as nat),
                cycles == old(self)@.frame_cycles(),
            decreases budget,
        {
            self.execute_instruction();
            if self.cpu.fatal_error || self.cpu.halted {
                return ;
            }
            if self.cpu.cycle_count > self.cpu.clock_hz / FPS {
                self.cpu.cycle_count = 0;
                return ;
            }
            budget -= 1;
        }
    }
}

} // verus!
