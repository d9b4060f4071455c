use vstd::prelude::*;

use crate::cpu::{mem, read_address, same_but_memory, write_address, Cpu};

verus! {

/// The bits of the LCD control register LCDC (0xFF40).
#[derive(Clone, Copy, Debug, PartialEq, Eq, Structural)]
pub enum LCDC {
    Power,
    WindowTileMap,
    WindowEnable,
    Tileset,
    BGTileMap,
    SpriteSize,
    SpritesEnable,
    BGEnable,
}

/// The LCD is powered: bit 7 of LCDC (0xFF40) is set.
pub open spec fn lcd_on(cpu: Cpu) -> bool {
    mem(cpu, 0xFF40) & 0x80 != 0
}

impl LCDC {
    /// Whether the bit tested by `bit_mask` is set in LCDC (0xFF40).
    pub fn is_set(&self, cpu: &mut Cpu) -> (b: bool)
        ensures
            b == lcd_on(*old(cpu)),
            *final(cpu) == *old(cpu),
    {
        read_address(0xFF40, cpu) & self.bit_mask() != 0
    }

    /// The mask tested by `is_set`: bit 7, the power bit, whichever bit the
    /// variant names.
    fn bit_mask(&self) -> (mask: u8)
        ensures
            mask == 0x80,
    {
        let shift: u8 = 7;
        proof {
            assert(1u8 << 7u8 == 0x80) by (bit_vector);
        }
        1 << shift
    }
}

/// The bits of the LCD status register STAT (0xFF41): the four interrupt
/// selects, the coincidence signal, and the two-bit screen mode.
#[derive(Clone, Copy, Debug, PartialEq, Eq, Structural)]
pub enum STAT {
    LYLYCCheck,
    Mode2OAMCheck,
    Mode1VBlankCheck,
    Mode0HBlankCheck,
    LYLYCSignal,
    SM(ScreenMode),
}

/// The four screen modes held in the two low bits of STAT.
#[derive(Clone, Copy, Debug, PartialEq, Eq, Structural)]
pub enum ScreenMode {
    HBlank,
    VBlank,
    Searching,
    Transferring,
}

/// The number of a screen mode: 0 for HBlank, 1 for VBlank, 2 for
/// Searching and 3 for Transferring.
pub open spec fn mode_number(mode: ScreenMode) -> u8 {
    match mode {
        ScreenMode::HBlank => 0,
        ScreenMode::VBlank => 1,
        ScreenMode::Searching => 2,
        ScreenMode::Transferring => 3,
    }
}

/// The mask of a STAT field: bits 6 down to 2 for the selects and the
/// signal, the two low bits for the screen mode.
pub open spec fn stat_field_mask(stat: STAT) -> u8 {
    match stat {
        STAT::LYLYCCheck => 0x40,
        STAT::Mode2OAMCheck => 0x20,
        STAT::Mode1VBlankCheck => 0x10,
        STAT::Mode0HBlankCheck => 0x08,
        STAT::LYLYCSignal => 0x04,
        STAT::SM(_) => 0x03,
    }
}

/// STAT as a program reads it: bit 7 always reads as 1, and while the LCD
/// is off the three low bits read as 0.
pub open spec fn stat_view(cpu: Cpu) -> u8 {
    let val = 0x80 | mem(cpu, 0xFF41);
    if lcd_on(cpu) {
        val
    } else {
        val & 0xF8
    }
}

/// The byte that selecting screen mode number `n` stores in STAT: the bits
/// of STAT as read, with the mode bits replaced by `n`.
pub open spec fn stat_with_mode(cpu: Cpu, n: u8) -> u8 {
    (stat_view(cpu) & 0xFC) | n
}

/// The screen mode read from STAT is `mode`.
pub open spec fn mode_holds(cpu: Cpu, mode: ScreenMode) -> bool {
    stat_view(cpu) & 0x03 == mode_number(mode)
}

impl ScreenMode {
    /// Whether the mode bits of STAT equal `val()`, which is 0 for every
    /// variant: true exactly when STAT reads as HBlank.
    pub fn is_set(&self, cpu: &mut Cpu) -> (b: bool)
        ensures
            b == (stat_view(*old(cpu)) & 0x03 == 0),
            *final(cpu) == *old(cpu),
    {
        let val = read_stat_address(cpu) & self.stat_mask();
        val == self.val()
    }

    /// Stores `val()`, which is 0 for every variant, in the mode bits of
    /// STAT, keeping the other bits as read.
    pub fn set(&self, cpu: &mut Cpu)
        ensures
            final(cpu).memory@ == old(cpu).memory@.update(0xFF41, stat_with_mode(*old(cpu), 0)),
            same_but_memory(*final(cpu), *old(cpu)),
    {
        let val = read_stat_address(cpu) & (0xFF - self.stat_mask());
        write_address(0xFF41, val | self.val(), cpu);
    }

    /// The mode number this method reports: 0 for every variant.
    pub fn val(&self) -> (v: u8)
        ensures
            v == 0,
    {
        0
    }

    /// The mask of the mode bits of STAT.
    pub fn stat_mask(&self) -> (m: u8)
        ensures
            m == 0x03,
    {
        0b11
    }
}

/// Reads STAT as a program sees it.
pub fn read_stat_address(cpu: &mut Cpu) -> (val: u8)
    ensures
        val == stat_view(*old(cpu)),
        *final(cpu) == *old(cpu),
{
    proof {
        assert(1u8 << 7u8 == 0x80) by (bit_vector);
    }
    let val = (1u8 << 7u8) | read_address(0xFF41, cpu);
    if LCDC::Power.is_set(cpu) {
        val
    } else {
        val & (0xFF - 0b111)
    }
}

/// Writes STAT as a program does: the three low bits are read-only and
/// keep their value, the other bits take those of `val`.
pub fn write_stat_address(val: u8, cpu: &mut Cpu)
    ensures
        final(cpu).memory@ == old(cpu).memory@.update(
            0xFF41,
            (val & 0xF8) | (mem(*old(cpu), 0xFF41) & 0x07),
        ),
        same_but_memory(*final(cpu), *old(cpu)),
{
    let read_only_val = read_address(0xFF41, cpu) & 0b111;
    write_address(0xFF41, (val & (0xFF - 0b111)) | read_only_val, cpu)
}

/// Whether any bit of the STAT field `stat` reads as set.
pub fn stat_is_set(stat: STAT, cpu: &mut Cpu) -> (b: bool)
    ensures
        b == (stat_view(*old(cpu)) & stat_field_mask(stat) != 0),
        *final(cpu) == *old(cpu),
{
    read_stat_address(cpu) & stat_bit(stat) != 0
}

/// Whether STAT reads as screen mode `screen_mode`.
pub fn screen_mode_is_set(screen_mode: ScreenMode, cpu: &mut Cpu) -> (b: bool)
    ensures
        b == mode_holds(*old(cpu), screen_mode),
        *final(cpu) == *old(cpu),
{
    let val = read_stat_address(cpu) & stat_bit(STAT::SM(screen_mode));
    val == screen_mode_val(screen_mode)
}

/// Stores screen mode `screen_mode` in the mode bits of STAT, keeping the
/// other bits as read.
pub fn screen_mode_set(screen_mode: ScreenMode, cpu: &mut Cpu)
    ensures
        final(cpu).memory@ == old(cpu).memory@.update(
            0xFF41,
            stat_with_mode(*old(cpu), mode_number(screen_mode)),
        ),
        same_but_memory(*final(cpu), *old(cpu)),
{
    let val = read_stat_address(cpu) & (0xFF - stat_bit(STAT::SM(screen_mode)));
    write_address(0xFF41, val | screen_mode_val(screen_mode), cpu);
}

/// The number of a screen mode.
pub fn screen_mode_val(screen_mode: ScreenMode) -> (n: u8)
    ensures
        n == mode_number(screen_mode),
{
    match screen_mode {
        ScreenMode::HBlank => 0,
        ScreenMode::VBlank => 1,
        ScreenMode::Searching => 2,
        ScreenMode::Transferring => 3,
    }
}

/// The mask of a STAT field.
pub fn stat_bit(stat: STAT) -> (mask: u8)
    ensures
        mask == stat_field_mask(stat),
{
    proof {
        assert(1u8 << 6u8 == 0x40 && 1u8 << 5u8 == 0x20 && 1u8 << 4u8 == 0x10 && 1u8 << 3u8 == 0x08
            && 1u8 << 2u8 == 0x04) by (bit_vector);
    }
    match stat {
        STAT::SM(_) => 0b11,
        STAT::LYLYCCheck => 1 << 6u8,
        STAT::Mode2OAMCheck => 1 << 5u8,
        STAT::Mode1VBlankCheck => 1 << 4u8,
        STAT::Mode0HBlankCheck => 1 << 3u8,
        STAT::LYLYCSignal => 1 << 2u8,
    }
}


/// Bit 7 of STAT always reads as 1, and while the LCD is off the three low
/// bits, the coincidence signal and the screen mode, read as 0.
pub proof fn lemma_stat_view_bits(cpu: Cpu)
    ensures
        stat_view(cpu) & 0x80 != 0,
        !lcd_on(cpu) ==> stat_view(cpu) & 0x07 == 0,
        lcd_on(cpu) ==> stat_view(cpu) & 0x7F == mem(cpu, 0xFF41) & 0x7F,
{
    let v = mem(cpu, 0xFF41);
    assert((0x80 | v) & 0x80 != 0 && ((0x80 | v) & 0xF8) & 0x80 != 0 && ((0x80 | v) & 0xF8) & 0x07
        == 0 && (0x80 | v) & 0x7F == v & 0x7F) by (bit_vector);
}

/// Selecting a screen mode and then reading it back: with the LCD on, the
/// mode read is the mode selected and no other; with the LCD off, every
/// mode reads back as HBlank.
pub proof fn lemma_mode_set_then_is_set(before: Cpu, after: Cpu, mode: ScreenMode, other: ScreenMode)
    requires
        after.memory@ == before.memory@.update(0xFF41, stat_with_mode(before, mode_number(mode))),
    ensures
        lcd_on(before) ==> mode_holds(after, mode),
        lcd_on(before) ==> (mode_holds(after, other) <==> other == mode),
        !lcd_on(before) ==> (mode_holds(after, other) <==> other == ScreenMode::HBlank),
{
    assert(mem(after, 0xFF40) == mem(before, 0xFF40));
    let v = stat_view(before);
    let n = mode_number(mode);
    let w = (v & 0xFC) | n;
    assert(mem(after, 0xFF41) == w);
    assert(n < 4 ==> ((0x80 | ((v & 0xFC) | n)) & 0x03 == n) && ((0x80 | ((v & 0xFC) | n)) & 0xF8)
        & 0x03 == 0) by (bit_vector);
}

/// Writing STAT keeps its three read-only low bits and takes the five
/// upper bits from the value written.
pub proof fn lemma_write_stat_keeps_read_only_bits(old_stat: u8, val: u8)
    ensures
        ((val & 0xF8) | (old_stat & 0x07)) & 0x07 == old_stat & 0x07,
        ((val & 0xF8) | (old_stat & 0x07)) & 0xF8 == val & 0xF8,
{
    assert(((val & 0xF8) | (old_stat & 0x07)) & 0x07 == old_stat & 0x07 && ((val & 0xF8) | (
    old_stat & 0x07)) & 0xF8 == val & 0xF8) by (bit_vector);
}

} // verus!
