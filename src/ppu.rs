use vstd::prelude::*;
use crate::zeroed;
use std::collections::VecDeque;
use crate::alu::signed_of;

verus! {

pub const VRAM_SIZE: usize = 0x2000;
pub const OAM_SIZE: usize = 0xa0;
pub const SCREEN_WIDTH: usize = 160;
pub const SCREEN_HEIGHT: usize = 144;
pub const FRAME_SIZE: usize = 23040;
/// Dots of one scanline.
pub const DOTS_PER_LINE: u16 = 456;
/// Dots of the OAM scan at the start of a visible line.
pub const OAM_SEARCH_DOTS: u16 = 80;
/// Scanlines of a frame, the last ten of them in VBlank.
pub const LINES_PER_FRAME: u8 = 154;

/// The four modes of the pixel pipeline.
#[derive(Clone, Copy, Debug, PartialEq, Eq, Structural)]
pub enum State {
    OAMSearch,
    PixelTransfer,
    HBlank,
    VBlank,
}

#[derive(Clone, Copy, Debug, PartialEq, Eq, Structural)]
pub enum FetcherState {
    ReadTileID,
    ReadTileData0,
    ReadTileData1,
    PushToFIFO,
}

/// The background tile fetcher and its scratch values.
#[derive(Clone, Copy, Debug, PartialEq, Eq, Structural)]
pub struct PixelFetcher {
    pub tick: u8,
    pub state: FetcherState,
    pub tile_index: u8,
    /// VRAM offset of the tile-map row being fetched.
    pub map_addr: u16,
    pub tile_line: u8,
    pub tile_id: u8,
    /// Low and high bit planes of the current tile line.
    pub data_low: u8,
    pub data_high: u8,
}

/// The memory-mapped registers FF40-FF4B.
#[derive(Clone, Copy, Debug, PartialEq, Eq, Structural)]
pub struct LcdRegisters {
    pub lcd_control: u8,
    /// STAT bits 3..6: the interrupt sources that are enabled.
    pub stat_enables: u8,
    pub scroll_y: u8,
    pub scroll_x: u8,
    pub lyc: u8,
    pub dma: u8,
    pub bg_palette_data: u8,
    pub object_palette_0_data: u8,
    pub object_palette_1_data: u8,
    pub window_y_position: u8,
    pub window_x_position_minus_7: u8,
}

/// What one dot asked of the rest of the machine.
#[derive(Clone, Copy, Debug, PartialEq, Eq, Structural)]
pub struct PpuEvents {
    pub vblank_interrupt: bool,
    pub stat_interrupt: bool,
    pub frame_ready: bool,
}

pub struct Ppu {
    pub vram: Vec<u8>,
    pub oam: Vec<u8>,
    /// 160 x 144 shades (0..3), row after row.
    pub framebuffer: Vec<u8>,
    pub fifo: VecDeque<u8>,
    pub registers: LcdRegisters,
    pub tick: u16,
    pub x: u8,
    pub y: u8,
    pub state: State,
    pub fetcher: PixelFetcher,
}

pub open spec fn mode_number(s: State) -> u8 {
    match s {
        State::HBlank => 0,
        State::VBlank => 1,
        State::OAMSearch => 2,
        State::PixelTransfer => 3,
    }
}

/// VRAM offset of the tile map for the background (LCDC bit 3).
pub open spec fn bg_map_base(lcdc: u8) -> int {
    if (lcdc / 8) % 2 == 1 {
        0x1c00
    } else {
        0x1800
    }
}

/// VRAM offset of the low plane of one line of a tile: unsigned from 0x8000 when LCDC bit 4 is
/// set, else signed around 0x9000.
pub open spec fn tile_row_address(lcdc: u8, tile_id: u8, line: u8) -> int {
    if (lcdc / 16) % 2 == 1 {
        tile_id as int * 16 + line as int * 2
    } else {
        0x1000 + signed_of(tile_id) * 16 + line as int * 2
    }
}

/// Bit `7 - i` of a plane: pixel i, counted from the left.
pub open spec fn plane_bit(plane: u8, i: int) -> int {
    let d: int = if i == 0 {
        128
    } else if i == 1 {
        64
    } else if i == 2 {
        32
    } else if i == 3 {
        16
    } else if i == 4 {
        8
    } else if i == 5 {
        4
    } else if i == 6 {
        2
    } else {
        1
    };
    (plane as int / d) % 2
}

/// The eight colour indices of a tile line, leftmost first.
pub open spec fn tile_pixels(low: u8, high: u8) -> Seq<u8> {
    Seq::new(8, |i: int| (plane_bit(high, i) * 2 + plane_bit(low, i)) as u8)
}

/// The shade that a palette gives a colour index.
pub open spec fn shade(palette: u8, color: u8) -> u8 {
    if color == 0 {
        palette % 4
    } else if color == 1 {
        (palette / 4) % 4
    } else if color == 2 {
        (palette / 16) % 4
    } else {
        (palette / 64) % 4
    }
}

/// One step of the fetcher (it acts every second dot): the fetcher and the FIFO after it.
pub open spec fn fetcher_after(f: PixelFetcher, fifo: Seq<u8>, vram: Seq<u8>, lcdc: u8) -> (
    PixelFetcher,
    Seq<u8>,
) {
    if f.tick + 1 < 2 {
        (PixelFetcher { tick: (f.tick + 1) as u8, ..f }, fifo)
    } else {
        let g = PixelFetcher { tick: 0, ..f };
        match f.state {
            FetcherState::ReadTileID => (
                PixelFetcher {
                    tile_id: vram[f.map_addr + f.tile_index % 32],
                    state: FetcherState::ReadTileData0,
                    ..g
                },
                fifo,
            ),
            FetcherState::ReadTileData0 => (
                PixelFetcher {
                    data_low: vram[tile_row_address(lcdc, f.tile_id, f.tile_line)],
                    state: FetcherState::ReadTileData1,
                    ..g
                },
                fifo,
            ),
            FetcherState::ReadTileData1 => (
                PixelFetcher {
                    data_high: vram[tile_row_address(lcdc, f.tile_id, f.tile_line) + 1],
                    state: FetcherState::PushToFIFO,
                    ..g
                },
                fifo,
            ),
            FetcherState::PushToFIFO => if fifo.len() == 0 {
                (
                    PixelFetcher {
                        tile_index: ((f.tile_index + 1) % 256) as u8,
                        state: FetcherState::ReadTileID,
                        ..g
                    },
                    tile_pixels(f.data_low, f.data_high),
                )
            } else {
                (g, fifo)
            },
        }
    }
}

/// The registers after a write to FF40-FF4B. LY is read-only; of STAT only the enables are
/// written.
pub open spec fn registers_after_write(r: LcdRegisters, address: u16, value: u8) -> LcdRegisters {
    if address == 0xff40 {
        LcdRegisters { lcd_control: value, ..r }
    } else if address == 0xff41 {
        LcdRegisters { stat_enables: value & 0x78, ..r }
    } else if address == 0xff42 {
        LcdRegisters { scroll_y: value, ..r }
    } else if address == 0xff43 {
        LcdRegisters { scroll_x: value, ..r }
    } else if address == 0xff45 {
        LcdRegisters { lyc: value, ..r }
    } else if address == 0xff46 {
        LcdRegisters { dma: value, ..r }
    } else if address == 0xff47 {
        LcdRegisters { bg_palette_data: value, ..r }
    } else if address == 0xff48 {
        LcdRegisters { object_palette_0_data: value, ..r }
    } else if address == 0xff49 {
        LcdRegisters { object_palette_1_data: value, ..r }
    } else if address == 0xff4a {
        LcdRegisters { window_y_position: value, ..r }
    } else if address == 0xff4b {
        LcdRegisters { window_x_position_minus_7: value, ..r }
    } else {
        r
    }
}

/// One dot of the pipeline: `n` is `o` after it, `ev` what it requested.
pub open spec fn dot_effect(o: Ppu, n: Ppu, ev: PpuEvents) -> bool {
    &&& n.vram == o.vram
    &&& n.oam == o.oam
    &&& n.registers == o.registers
    &&& {
        let t = if o.tick < DOTS_PER_LINE {
            (o.tick + 1) as u16
        } else {
            o.tick
        };
        let quiet = PpuEvents { vblank_interrupt: false, stat_interrupt: false, frame_ready: false };
        let unchanged_line = n.tick == t && n.x == o.x && n.y == o.y && n.state == o.state
            && n.fetcher == o.fetcher && n.fifo@ == o.fifo@ && n.framebuffer@
            == o.framebuffer@ && ev == quiet;
        match o.state {
            State::OAMSearch => if t == OAM_SEARCH_DOTS {
                let line = (o.y as int + o.registers.scroll_y as int) % 256;
                &&& n.state == State::PixelTransfer
                &&& n.tick == t && n.x == 0 && n.y == o.y
                &&& n.fetcher == (PixelFetcher {
                    tick: 0,
                    state: FetcherState::ReadTileID,
                    tile_index: 0,
                    map_addr: (bg_map_base(o.registers.lcd_control) + (o.y as int / 8) * 32) as u16,
                    tile_line: (line % 8) as u8,
                    ..o.fetcher
                })
                &&& n.fifo@.len() == 0
                &&& n.framebuffer@ == o.framebuffer@
                &&& ev == quiet
            } else {
                unchanged_line
            },
            State::PixelTransfer => {
                let (f2, q2) = fetcher_after(
                    o.fetcher,
                    o.fifo@,
                    o.vram@,
                    o.registers.lcd_control,
                );
                &&& n.fetcher == f2
                &&& n.tick == t && n.y == o.y
                &&& if q2.len() > 0 {
                    &&& n.fifo@ == q2.drop_first()
                    &&& n.framebuffer@ == o.framebuffer@.update(
                        o.y as int * SCREEN_WIDTH + o.x as int,
                        shade(o.registers.bg_palette_data, q2[0]),
                    )
                    &&& n.x == o.x + 1
                } else {
                    n.fifo@ == q2 && n.framebuffer@ == o.framebuffer@ && n.x == o.x
                }
                &&& n.state == if n.x == SCREEN_WIDTH {
                    State::HBlank
                } else {
                    State::PixelTransfer
                }
                &&& ev == (PpuEvents {
                    vblank_interrupt: false,
                    stat_interrupt: n.x == SCREEN_WIDTH && o.stat_enabled(8),
                    frame_ready: false,
                })
            },
            State::HBlank => if t == DOTS_PER_LINE {
                &&& n.tick == 0 && n.y == o.y + 1 && n.x == o.x
                &&& n.state == if n.y == SCREEN_HEIGHT {
                    State::VBlank
                } else {
                    State::OAMSearch
                }
                &&& n.fetcher == o.fetcher && n.fifo@ == o.fifo@
                &&& n.framebuffer@ == o.framebuffer@
                &&& ev == (PpuEvents {
                    vblank_interrupt: n.y == SCREEN_HEIGHT,
                    stat_interrupt: (n.y == SCREEN_HEIGHT && o.stat_enabled(16)) || (n.y
                        != SCREEN_HEIGHT && o.stat_enabled(32)) || o.lyc_hit(n.y),
                    frame_ready: false,
                })
            } else {
                unchanged_line
            },
            State::VBlank => if t == DOTS_PER_LINE {
                &&& n.tick == 0 && n.x == o.x
                &&& if o.y + 1 == LINES_PER_FRAME {
                    n.y == 0 && n.state == State::OAMSearch
                } else {
                    n.y == o.y + 1 && n.state == State::VBlank
                }
                &&& n.fetcher == o.fetcher && n.fifo@ == o.fifo@
                &&& n.framebuffer@ == o.framebuffer@
                &&& ev == (PpuEvents {
                    vblank_interrupt: false,
                    stat_interrupt: (n.y == 0 && o.stat_enabled(32)) || o.lyc_hit(n.y),
                    frame_ready: n.y == 0,
                })
            } else {
                unchanged_line
            },
        }
    }
}

fn shade_of(palette: u8, color: u8) -> (r: u8)
    ensures
        r == shade(palette, color),
{
    if color == 0 {
        palette % 4
    } else if color == 1 {
        (palette / 4) % 4
    } else if color == 2 {
        (palette / 16) % 4
    } else {
        (palette / 64) % 4
    }
}

impl Ppu {
    pub open spec fn wf(&self) -> bool {
        &&& self.vram@.len() == VRAM_SIZE
        &&& self.oam@.len() == OAM_SIZE
        &&& self.framebuffer@.len() == FRAME_SIZE
        &&& self.fifo@.len() <= 8
        &&& self.tick <= DOTS_PER_LINE
        &&& self.y < LINES_PER_FRAME
        &&& (self.state == State::VBlank) == (self.y >= SCREEN_HEIGHT)
        &&& (self.state == State::PixelTransfer ==> self.x < SCREEN_WIDTH)
        &&& self.fetcher.tick < 2
        &&& self.fetcher.tile_line < 8
        &&& self.fetcher.map_addr + 32 <= VRAM_SIZE
    }

    /// The current mode as STAT shows it.
    pub open spec fn mode(&self) -> u8 {
        mode_number(self.state)
    }

    /// What a read of FF40-FF4B returns.
    pub open spec fn register_value(&self, address: u16) -> u8 {
        let r = self.registers;
        if address == 0xff40 {
            r.lcd_control
        } else if address == 0xff41 {
            (r.stat_enables & 0x78) | (if self.y == r.lyc { 4u8 } else { 0u8 }) | self.mode()
        } else if address == 0xff42 {
            r.scroll_y
        } else if address == 0xff43 {
            r.scroll_x
        } else if address == 0xff44 {
            self.y
        } else if address == 0xff45 {
            r.lyc
        } else if address == 0xff46 {
            r.dma
        } else if address == 0xff47 {
            r.bg_palette_data
        } else if address == 0xff48 {
            r.object_palette_0_data
        } else if address == 0xff49 {
            r.object_palette_1_data
        } else if address == 0xff4a {
            r.window_y_position
        } else {
            r.window_x_position_minus_7
        }
    }

    /// Blank memories and registers, first line, OAM scan.
    pub fn new() -> (p: Ppu)
        ensures
            p.wf(),
            p.vram@ == Seq::new(VRAM_SIZE as nat, |i: int| 0u8),
            p.oam@ == Seq::new(OAM_SIZE as nat, |i: int| 0u8),
            p.framebuffer@ == Seq::new(FRAME_SIZE as nat, |i: int| 0u8),
            p.fifo@.len() == 0,
            p.tick == 0,
            p.x == 0,
            p.y == 0,
            p.state == State::OAMSearch,
    {
        Ppu {
            vram: zeroed(VRAM_SIZE),
            oam: zeroed(OAM_SIZE),
            framebuffer: zeroed(FRAME_SIZE),
            fifo: VecDeque::new(),
            registers: LcdRegisters {
                lcd_control: 0,
                stat_enables: 0,
                scroll_y: 0,
                scroll_x: 0,
                lyc: 0,
                dma: 0,
                bg_palette_data: 0,
                object_palette_0_data: 0,
                object_palette_1_data: 0,
                window_y_position: 0,
                window_x_position_minus_7: 0,
            },
            tick: 0,
            x: 0,
            y: 0,
            state: State::OAMSearch,
            fetcher: PixelFetcher {
                tick: 0,
                state: FetcherState::ReadTileID,
                tile_index: 0,
                map_addr: 0x1800,
                tile_line: 0,
                tile_id: 0,
                data_low: 0,
                data_high: 0,
            },
        }
    }

    pub fn get_state(&self) -> (r: u8)
        ensures
            r == self.mode(),
    {
        match self.state {
            State::HBlank => 0,
            State::VBlank => 1,
            State::OAMSearch => 2,
            State::PixelTransfer => 3,
        }
    }

    /// Starts the fetcher on a tile-map row.
    fn fetcher_start(&mut self, map_addr: u16, tile_line: u8)
        ensures
            final(self).fetcher == (PixelFetcher {
                tick: 0,
                state: FetcherState::ReadTileID,
                tile_index: 0,
                map_addr,
                tile_line,
                ..old(self).fetcher
            }),
            final(self).fifo@.len() == 0,
            final(self).vram == old(self).vram,
            final(self).oam == old(self).oam,
            final(self).framebuffer == old(self).framebuffer,
            final(self).registers == old(self).registers,
            final(self).tick == old(self).tick,
            final(self).x == old(self).x,
            final(self).y == old(self).y,
            final(self).state == old(self).state,
    {
        self.fetcher.tile_index = 0;
        self.fetcher.map_addr = map_addr;
        self.fetcher.tile_line = tile_line;
        self.fetcher.tick = 0;
        self.fetcher.state = FetcherState::ReadTileID;
        self.fifo.clear();
    }

    /// Advances the fetcher by one dot.
    fn fetcher_next(&mut self)
        requires
            old(self).wf(),
        ensures
            final(self).wf(),
            (final(self).fetcher, final(self).fifo@) == fetcher_after(
                old(self).fetcher,
                old(self).fifo@,
                old(self).vram@,
                old(self).registers.lcd_control,
            ),
            final(self).vram == old(self).vram,
            final(self).oam == old(self).oam,
            final(self).framebuffer == old(self).framebuffer,
            final(self).registers == old(self).registers,
            final(self).tick == old(self).tick,
            final(self).x == old(self).x,
            final(self).y == old(self).y,
            final(self).state == old(self).state,
    {
        if self.fetcher.tick + 1 < 2 {
            self.fetcher.tick = self.fetcher.tick + 1;
            return;
        }
        self.fetcher.tick = 0;
        let lcdc = self.registers.lcd_control;
        match self.fetcher.state {
            FetcherState::ReadTileID => {
                let addr = self.fetcher.map_addr as usize + (self.fetcher.tile_index % 32) as usize;
                self.fetcher.tile_id = self.vram[addr];
                self.fetcher.state = FetcherState::ReadTileData0;
            },
            FetcherState::ReadTileData0 => {
                let addr = self.tile_address();
                self.fetcher.data_low = self.vram[addr];
                self.fetcher.state = FetcherState::ReadTileData1;
            },
            FetcherState::ReadTileData1 => {
                let addr = self.tile_address();
                self.fetcher.data_high = self.vram[addr + 1];
                self.fetcher.state = FetcherState::PushToFIFO;
            },
            FetcherState::PushToFIFO => {
                if self.fifo.len() == 0 {
                    let lo = self.fetcher.data_low;
                    let hi = self.fetcher.data_high;
                    self.fifo.push_back(((hi / 128) % 2) * 2 + (lo / 128) % 2);
                    self.fifo.push_back(((hi / 64) % 2) * 2 + (lo / 64) % 2);
                    self.fifo.push_back(((hi / 32) % 2) * 2 + (lo / 32) % 2);
                    self.fifo.push_back(((hi / 16) % 2) * 2 + (lo / 16) % 2);
                    self.fifo.push_back(((hi / 8) % 2) * 2 + (lo / 8) % 2);
                    self.fifo.push_back(((hi / 4) % 2) * 2 + (lo / 4) % 2);
                    self.fifo.push_back(((hi / 2) % 2) * 2 + (lo / 2) % 2);
                    self.fifo.push_back((hi % 2) * 2 + lo % 2);
                    assert(self.fifo@ =~= tile_pixels(lo, hi));
                    self.fetcher.tile_index = self.fetcher.tile_index.wrapping_add(1);
                    self.fetcher.state = FetcherState::ReadTileID;
                }
            },
        }
    }

    /// VRAM offset of the low plane of the current tile line.
    fn tile_address(&self) -> (r: usize)
        requires
            self.wf(),
        ensures
            r == tile_row_address(self.registers.lcd_control, self.fetcher.tile_id, self.fetcher.tile_line),
            r + 1 < VRAM_SIZE,
    {
        let line = self.fetcher.tile_line as usize * 2;
        let id = self.fetcher.tile_id as usize;
        if (self.registers.lcd_control / 16) % 2 == 1 {
            id * 16 + line
        } else if id < 128 {
            0x1000 + id * 16 + line
        } else {
            0x1000 - (256 - id) * 16 + line
        }
    }

    /// Whether reaching line y raises the STAT interrupt through the LY == LYC source.
    pub open spec fn lyc_hit(&self, y: u8) -> bool {
        y == self.registers.lyc && (self.registers.stat_enables / 64) % 2 == 1
    }

    pub open spec fn stat_enabled(&self, bit: int) -> bool {
        (self.registers.stat_enables as int / bit) % 2 == 1
    }

    /// Advances the pipeline by one dot.
    pub fn next(&mut self) -> (ev: PpuEvents)
        requires
            old(self).wf(),
        ensures
            final(self).wf(),
            dot_effect(*old(self), *final(self), ev),
    {
        if self.tick < DOTS_PER_LINE {
            self.tick = self.tick + 1;
        }
        let quiet = PpuEvents { vblank_interrupt: false, stat_interrupt: false, frame_ready: false };
        let enables = self.registers.stat_enables;
        match self.state {
            State::OAMSearch => {
                if self.tick == OAM_SEARCH_DOTS {
                    self.state = State::PixelTransfer;
                    self.x = 0;
                    let line: u16 = (self.y as u16 + self.registers.scroll_y as u16) % 256;
                    let base: u16 = if (self.registers.lcd_control / 8) % 2 == 1 {
                        0x1c00
                    } else {
                        0x1800
                    };
                    self.fetcher_start(base + (self.y as u16 / 8) * 32, (line % 8) as u8);
                }
                quiet
            },
            State::PixelTransfer => {
                self.fetcher_next();
                match self.fifo.pop_front() {
                    Some(color) => {
                        let index = self.y as usize * SCREEN_WIDTH + self.x as usize;
                        let s = shade_of(self.registers.bg_palette_data, color);
                        self.framebuffer.set(index, s);
                        self.x = self.x + 1;
                    },
                    None => {},
                }
                if self.x as usize == SCREEN_WIDTH {
                    self.state = State::HBlank;
                    PpuEvents {
                        vblank_interrupt: false,
                        stat_interrupt: (enables / 8) % 2 == 1,
                        frame_ready: false,
                    }
                } else {
                    quiet
                }
            },
            State::HBlank => {
                if self.tick == DOTS_PER_LINE {
                    self.tick = 0;
                    self.y = self.y + 1;
                    let lyc = self.y == self.registers.lyc && (enables / 64) % 2 == 1;
                    if self.y as usize == SCREEN_HEIGHT {
                        self.state = State::VBlank;
                        PpuEvents {
                            vblank_interrupt: true,
                            stat_interrupt: (enables / 16) % 2 == 1 || lyc,
                            frame_ready: false,
                        }
                    } else {
                        self.state = State::OAMSearch;
                        PpuEvents {
                            vblank_interrupt: false,
                            stat_interrupt: (enables / 32) % 2 == 1 || lyc,
                            frame_ready: false,
                        }
                    }
                } else {
                    quiet
                }
            },
            State::VBlank => {
                if self.tick == DOTS_PER_LINE {
                    self.tick = 0;
                    if self.y + 1 == LINES_PER_FRAME {
                        self.y = 0;
                        self.state = State::OAMSearch;
                        let lyc = self.registers.lyc == 0 && (enables / 64) % 2 == 1;
                        PpuEvents {
                            vblank_interrupt: false,
                            stat_interrupt: (enables / 32) % 2 == 1 || lyc,
                            frame_ready: true,
                        }
                    } else {
                        self.y = self.y + 1;
                        let lyc = self.y == self.registers.lyc && (enables / 64) % 2 == 1;
                        PpuEvents { vblank_interrupt: false, stat_interrupt: lyc, frame_ready: false }
                    }
                } else {
                    quiet
                }
            },
        }
    }

    pub fn read_vram(&self, address: usize) -> (r: u8)
        requires
            self.wf(),
            address < VRAM_SIZE,
        ensures
            r == self.vram@[address as int],
    {
        self.vram[address]
    }

    pub fn write_vram(&mut self, address: usize, value: u8)
        requires
            old(self).wf(),
            address < VRAM_SIZE,
        ensures
            final(self).wf(),
            final(self).vram@ == old(self).vram@.update(address as int, value),
            final(self).oam == old(self).oam,
            final(self).framebuffer == old(self).framebuffer,
            final(self).fifo == old(self).fifo,
            final(self).registers == old(self).registers,
            final(self).tick == old(self).tick,
            final(self).x == old(self).x,
            final(self).y == old(self).y,
            final(self).state == old(self).state,
            final(self).fetcher == old(self).fetcher,
    {
        self.vram.set(address, value);
    }

    pub fn read_oam(&self, address: usize) -> (r: u8)
        requires
            self.wf(),
            address < OAM_SIZE,
        ensures
            r == self.oam@[address as int],
    {
        self.oam[address]
    }

    pub fn write_oam(&mut self, address: usize, value: u8)
        requires
            old(self).wf(),
            address < OAM_SIZE,
        ensures
            final(self).wf(),
            final(self).oam@ == old(self).oam@.update(address as int, value),
            final(self).vram == old(self).vram,
            final(self).framebuffer == old(self).framebuffer,
            final(self).fifo == old(self).fifo,
            final(self).registers == old(self).registers,
            final(self).tick == old(self).tick,
            final(self).x == old(self).x,
            final(self).y == old(self).y,
            final(self).state == old(self).state,
            final(self).fetcher == old(self).fetcher,
    {
        self.oam.set(address, value);
    }

    /// Replaces the whole OAM (the end of a DMA transfer).
    pub fn set_oam(&mut self, data: Vec<u8>)
        requires
            old(self).wf(),
            data@.len() == OAM_SIZE,
        ensures
            final(self).wf(),
            final(self).oam@ == data@,
            final(self).vram == old(self).vram,
            final(self).framebuffer == old(self).framebuffer,
            final(self).fifo == old(self).fifo,
            final(self).registers == old(self).registers,
            final(self).tick == old(self).tick,
            final(self).x == old(self).x,
            final(self).y == old(self).y,
            final(self).state == old(self).state,
            final(self).fetcher == old(self).fetcher,
    {
        self.oam = data;
    }

    pub fn read_registers(&self, address: u16) -> (r: u8)
        requires
            0xff40 <= address <= 0xff4b,
        ensures
            r == self.register_value(address),
    {
        let r = self.registers;
        match address {
            0xff40 => r.lcd_control,
            0xff41 => {
                let c: u8 = if self.y == r.lyc {
                    4
                } else {
                    0
                };
                (r.stat_enables & 0x78) | c | self.get_state()
            },
            0xff42 => r.scroll_y,
            0xff43 => r.scroll_x,
            0xff44 => self.y,
            0xff45 => r.lyc,
            0xff46 => r.dma,
            0xff47 => r.bg_palette_data,
            0xff48 => r.object_palette_0_data,
            0xff49 => r.object_palette_1_data,
            0xff4a => r.window_y_position,
            _ => r.window_x_position_minus_7,
        }
    }

    pub fn write_registers(&mut self, address: u16, value: u8)
        ensures
            final(self).registers == registers_after_write(old(self).registers, address, value),
            final(self).vram == old(self).vram,
            final(self).oam == old(self).oam,
            final(self).framebuffer == old(self).framebuffer,
            final(self).fifo == old(self).fifo,
            final(self).tick == old(self).tick,
            final(self).x == old(self).x,
            final(self).y == old(self).y,
            final(self).state == old(self).state,
            final(self).fetcher == old(self).fetcher,
    {
        match address {
            0xff40 => self.registers.lcd_control = value,
            0xff41 => self.registers.stat_enables = value & 0x78,
            0xff42 => self.registers.scroll_y = value,
            0xff43 => self.registers.scroll_x = value,
            0xff45 => self.registers.lyc = value,
            0xff46 => self.registers.dma = value,
            0xff47 => self.registers.bg_palette_data = value,
            0xff48 => self.registers.object_palette_0_data = value,
            0xff49 => self.registers.object_palette_1_data = value,
            0xff4a => self.registers.window_y_position = value,
            0xff4b => self.registers.window_x_position_minus_7 = value,
            _ => {},
        }
    }
}

} // verus!
