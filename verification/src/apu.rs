use vstd::prelude::*;

use crate::cpu::{mem, read_address, read_channel_1_addresses, read_channel_2_addresses, with_apu, Cpu};

verus! {

/// The state of one square-wave sound channel.
#[derive(Clone, Copy, Debug, PartialEq, Eq, Structural)]
pub struct AudioChannel {
    pub counter: u8,
    pub enabled: bool,
    pub envelope_pos: u16,
    pub volume: u8,
}

/// The sound unit: the frame-sequencer clocks, the per-step sample counts,
/// and the state of the two square-wave channels.
pub struct Apu {
    pub master_clock: u32,
    pub length_clock: u32,
    pub sweep_clock: u32,
    pub envelope_clock: u32,
    pub sample_length_arr: [u8; 512],
    /// Shadow frequency for sweeping.
    pub channel_1_time_freq: u32,
    pub channel_1_handle_trigger: bool,
    /// Position of channel 1 in its wave, in samples.
    pub channel_1_pos: u32,
    /// Position of channel 2 in its wave, in samples.
    pub channel_2_pos: u32,
    pub channel_2_handle_trigger: bool,
    pub channel_1: AudioChannel,
    pub channel_2: AudioChannel,
    pub audio_freq: u32,
}

/// The number of samples the frame-sequencer step `i` emits: 87 on the
/// steps with `i % 128 == 0` or `i % 8 == 4`, 86 on the others.
pub open spec fn step_sample_len(i: int) -> u8 {
    if i % 128 == 0 || i % 8 == 4 { 87 } else { 86 }
}

/// A silent, disabled channel.
pub open spec fn silent_channel() -> AudioChannel {
    AudioChannel { counter: 0, enabled: false, envelope_pos: 0, volume: 0 }
}

impl Default for AudioChannel {
    fn default() -> (ch: AudioChannel)
        ensures
            ch == silent_channel(),
    {
        AudioChannel { counter: 0, enabled: false, envelope_pos: 0, volume: 0 }
    }
}

impl Apu {
    /// The power-on state: all clocks and positions at zero, no trigger
    /// pending, both channels silent, the per-step sample counts of
    /// `step_sample_len`, at 44100 samples per second.
    pub open spec fn power_on_state(self) -> bool {
        &&& self.master_clock == 0 && self.length_clock == 0
        &&& self.sweep_clock == 0 && self.envelope_clock == 0
        &&& self.channel_1_time_freq == 0
        &&& self.channel_1_pos == 0 && self.channel_2_pos == 0
        &&& !self.channel_1_handle_trigger && !self.channel_2_handle_trigger
        &&& self.channel_1 == silent_channel() && self.channel_2 == silent_channel()
        &&& self.audio_freq == 44100
        &&& forall|i: int| 0 <= i < 512 ==> #[trigger] self.sample_length_arr@[i] == step_sample_len(i)
    }
}

impl Default for Apu {
    fn default() -> (apu: Apu)
        ensures
            apu.power_on_state(),
    {
        let audio_freq: u32 = 44100;
        Apu {
            master_clock: 0,
            length_clock: 0,
            sweep_clock: 0,
            envelope_clock: 0,
            sample_length_arr: sample_len_arr(),
            channel_1_time_freq: 0,
            channel_1_pos: 0,
            channel_1_handle_trigger: false,
            channel_2_pos: 0,
            channel_2_handle_trigger: false,
            channel_1: AudioChannel::default(),
            channel_2: AudioChannel::default(),
            audio_freq: audio_freq,
        }
    }
}

/// The number of samples emitted on each of the 512 frame-sequencer steps.
pub fn sample_len_arr() -> (arr: [u8; 512])
    ensures
        forall|i: int| 0 <= i < 512 ==> #[trigger] arr@[i] == step_sample_len(i),
{
    let mut arr = [0u8; 512];
    for i in 0..512usize
        invariant
            forall|j: int| 0 <= j < i ==> #[trigger] arr@[j] == step_sample_len(j),
    {
        arr[i] = if i % 128 == 0 || i % 8 == 4 { 87 } else { 86 };
    }
    arr
}


/// The 11-bit frequency number of a square channel, from its low byte and
/// the low three bits of its high byte.
pub open spec fn frequency_number(lo: u8, hi: u8) -> int {
    (hi % 8) as int * 256 + lo as int
}

/// The length in samples of one wave period at 44100 samples per second,
/// for the given low and high frequency bytes.
pub open spec fn wave_period(lo: u8, hi: u8) -> int {
    44100 * (2048 - frequency_number(lo, hi)) / 131072
}

/// The number of samples at the start of a period of `period` samples on
/// which the wave of duty pattern `duty` is high (the comparison is
/// inclusive, see `square_sample`).
pub open spec fn duty_high_len(duty: u8, period: int) -> int {
    if duty == 0 {
        period / 8
    } else if duty == 1 {
        period / 4
    } else if duty == 2 {
        period / 2
    } else {
        (period / 4) * 3
    }
}

/// The amplitude of a channel whose volume-envelope byte is `nr`: 512 for
/// each step of the initial volume in its upper four bits.
pub open spec fn envelope_amplitude(nr: u8) -> int {
    512 * (nr / 16) as int
}

/// The index of sample `x` in a wave that is at position `pos`, both taken
/// modulo 65536.
pub open spec fn wave_index(x: int, pos: u32) -> int {
    (x as u16) as int + (pos as u16) as int
}

/// Sample `x` of a square wave at position `pos`: `volume` where the index
/// in the period is at most `high`, `-volume` elsewhere.
pub open spec fn square_sample(x: int, pos: u32, period: int, high: int, volume: int) -> int {
    if wave_index(x, pos) % period <= high {
        volume
    } else {
        -volume
    }
}

/// `len` samples from position `pos` keep every wave index below 65536.
pub open spec fn indices_fit(pos: u32, len: int) -> bool {
    (pos as u16) as int + (if len < 65536 { len } else { 65536 }) <= 65536
}

/// The wave period of channel 1 (registers NR13 and NR14).
pub open spec fn channel_1_period(cpu: Cpu) -> int {
    wave_period(mem(cpu, 0xFF13), mem(cpu, 0xFF14))
}

/// Sample `x` that channel 1 adds, from its registers NR11 to NR14 and its
/// position.
pub open spec fn channel_1_sample(cpu: Cpu, x: int) -> int {
    let period = channel_1_period(cpu);
    square_sample(
        x,
        cpu.apu.channel_1_pos,
        period,
        duty_high_len(mem(cpu, 0xFF11) / 64, period),
        envelope_amplitude(mem(cpu, 0xFF12)),
    )
}

/// The wave period of channel 2 (registers NR23 and NR24).
pub open spec fn channel_2_period(cpu: Cpu) -> int {
    wave_period(mem(cpu, 0xFF18), mem(cpu, 0xFF19))
}

/// Sample `x` that channel 2 adds, from its registers NR21 to NR24 and its
/// position.
pub open spec fn channel_2_sample(cpu: Cpu, x: int) -> int {
    let period = channel_2_period(cpu);
    square_sample(
        x,
        cpu.apu.channel_2_pos,
        period,
        duty_high_len(mem(cpu, 0xFF16) / 64, period),
        envelope_amplitude(mem(cpu, 0xFF17)),
    )
}

/// Sample `x` of the fixed test tone: period 148, high for 37 samples,
/// amplitude 5120, at the position of channel 2.
pub open spec fn test_tone_sample(cpu: Cpu, x: int) -> int {
    square_sample(x, cpu.apu.channel_2_pos, 148, 37, 5120)
}

/// The number of high samples in a period of `freq` samples for duty
/// pattern `duty`.
fn get_duty(duty: u8, freq: u16) -> (high: u16)
    requires
        duty < 4,
    ensures
        high == duty_high_len(duty, freq as int),
{
    match duty {
        0 => freq / 8,
        1 => freq / 4,
        2 => freq / 2,
        _ => (freq / 4) * 3,
    }
}


/// Adds to each `result[x]` the square-wave sample `x` from position `pos`.
fn mix_square(result: &mut Vec<i16>, pos: u32, period: u16, high_len: u16, volume: i16)
    requires
        old(result).len() > 0 ==> period > 0,
        0 <= volume,
        indices_fit(pos, old(result).len() as int),
        forall|x: int|
            0 <= x < old(result).len() ==> i16::MIN <= #[trigger] old(result)@[x] + square_sample(
                x,
                pos,
                period as int,
                high_len as int,
                volume as int,
            ) <= i16::MAX,
    ensures
        final(result).len() == old(result).len(),
        forall|x: int|
            0 <= x < old(result).len() ==> #[trigger] final(result)@[x] == old(result)@[x]
                + square_sample(x, pos, period as int, high_len as int, volume as int),
{
    let sample_count = result.len();
    for x in 0..sample_count
        invariant
            sample_count == old(result).len(),
            result.len() == sample_count,
            sample_count > 0 ==> period > 0,
            0 <= volume,
            indices_fit(pos, sample_count as int),
            forall|j: int|
                0 <= j < sample_count ==> i16::MIN <= #[trigger] old(result)@[j] + square_sample(
                    j,
                    pos,
                    period as int,
                    high_len as int,
                    volume as int,
                ) <= i16::MAX,
            forall|j: int|
                0 <= j < x ==> #[trigger] result@[j] == old(result)@[j] + square_sample(
                    j,
                    pos,
                    period as int,
                    high_len as int,
                    volume as int,
                ),
            forall|j: int| x <= j < sample_count ==> #[trigger] result@[j] == old(result)@[j],
    {
        assert(wave_index(x as int, pos) <= u16::MAX);
        let wave_pos = (x as u16 + pos as u16) % period;
        let sample = if wave_pos <= high_len {
            volume
        } else {
            -volume
        };
        assert(old(result)@[x as int] + square_sample(x as int, pos, period as int, high_len as int, volume as int) <= i16::MAX);
        let mixed = result[x] + sample;
        result.set(x, mixed);
    }
}


/// `apu` with the position of channel 1 set to `pos`.
pub open spec fn with_channel_1_pos(apu: Apu, pos: u32) -> Apu {
    Apu { channel_1_pos: pos, ..apu }
}

/// `apu` with the position of channel 2 set to `pos`.
pub open spec fn with_channel_2_pos(apu: Apu, pos: u32) -> Apu {
    Apu { channel_2_pos: pos, ..apu }
}

/// Where channel 2 stands after `len` samples: back at 0 when the new
/// position is a whole number of periods, else advanced by `len`.
pub open spec fn channel_2_next_pos(pos: u32, len: int, period: int) -> u32 {
    if (pos + len) % period == 0 {
        0
    } else {
        (pos + len) as u32
    }
}

proof fn lemma_register_fields(lo: u8, hi: u8, duty: u8, env: u8)
    ensures
        ((hi as u16 & 7) << 8 | lo as u16) as int == frequency_number(lo, hi),
        duty >> 6 == duty / 64,
        (env & 0xF0) >> 4 == env / 16,
{
    assert(((hi as u16 & 7) << 8 | lo as u16) == (hi % 8) as u16 * 256 + lo as u16) by (bit_vector);
    assert(duty >> 6 == duty / 64) by (bit_vector);
    assert((env & 0xF0) >> 4 == env / 16) by (bit_vector);
}

/// Adds the samples of square channel 1 to `result` and advances the
/// channel's position by the number of samples.
#[allow(non_snake_case)]
pub fn mix_channel_1(result: &mut Vec<i16>, cpu: &mut Cpu)
    requires
        old(result).len() > 0 ==> channel_1_period(*old(cpu)) > 0,
        indices_fit(old(cpu).apu.channel_1_pos, old(result).len() as int),
        old(cpu).apu.channel_1_pos + (old(result).len() as u32) <= u32::MAX,
        forall|x: int|
            0 <= x < old(result).len() ==> i16::MIN <= #[trigger] old(result)@[x]
                + channel_1_sample(*old(cpu), x) <= i16::MAX,
    ensures
        final(result).len() == old(result).len(),
        forall|x: int|
            0 <= x < old(result).len() ==> #[trigger] final(result)@[x] == old(result)@[x]
                + channel_1_sample(*old(cpu), x),
        *final(cpu) == with_apu(
            *old(cpu),
            with_channel_1_pos(
                old(cpu).apu,
                (old(cpu).apu.channel_1_pos + (old(result).len() as u32)) as u32,
            ),
        ),
{
    let (_NR10, NR11, NR12, NR13, NR14) = read_channel_1_addresses(cpu);
    proof {
        lemma_register_fields(NR13, NR14, NR11, NR12);
    }
    let time_freq = (NR14 as u16 & 0b111) << 8 | NR13 as u16;
    let duty = NR11 >> 6;
    let not_time_freq = 2048 - time_freq as u32;
    let period = (44100 * not_time_freq / 131072) as u16;
    let volume_step: i16 = 512;
    let init_volume = ((NR12 & 0xF0) >> 4) as i16;
    let sample_count = result.len();
    let volume = volume_step * init_volume;
    let high_len = get_duty(duty, period);
    mix_square(result, cpu.apu.channel_1_pos, period, high_len, volume);
    cpu.apu.channel_1_pos = cpu.apu.channel_1_pos + sample_count as u32;
}

/// Adds a fixed test tone (period 148 samples, a quarter of it high,
/// amplitude 5120) to `result`, advancing the position of channel 2.
#[allow(non_snake_case)]
pub fn mix_test(result: &mut Vec<i16>, cpu: &mut Cpu)
    requires
        indices_fit(old(cpu).apu.channel_2_pos, old(result).len() as int),
        old(cpu).apu.channel_2_pos + (old(result).len() as u32) <= u32::MAX,
        forall|x: int|
            0 <= x < old(result).len() ==> i16::MIN <= #[trigger] old(result)@[x]
                + test_tone_sample(*old(cpu), x) <= i16::MAX,
    ensures
        final(result).len() == old(result).len(),
        forall|x: int|
            0 <= x < old(result).len() ==> #[trigger] final(result)@[x] == old(result)@[x]
                + test_tone_sample(*old(cpu), x),
        *final(cpu) == with_apu(
            *old(cpu),
            with_channel_2_pos(
                old(cpu).apu,
                (old(cpu).apu.channel_2_pos + (old(result).len() as u32)) as u32,
            ),
        ),
{
    let duty: u8 = 1;
    let not_time_freq: i32 = 440;
    let period = (44100 * not_time_freq / 131072) as u16;
    let volume_step: i16 = 512;
    let init_volume: i16 = 10;
    let sample_count = result.len();
    let volume = volume_step * init_volume;
    let high_len = get_duty(duty, period);
    mix_square(result, cpu.apu.channel_2_pos, period, high_len, volume);
    cpu.apu.channel_2_pos = cpu.apu.channel_2_pos + sample_count as u32;
}

/// Adds the samples of square channel 2 to `result`; the channel's
/// position goes back to 0 when it lands on a whole number of periods,
/// else it advances by the number of samples.
#[allow(non_snake_case)]
pub fn mix_channel_2(result: &mut Vec<i16>, cpu: &mut Cpu)
    requires
        channel_2_period(*old(cpu)) > 0,
        indices_fit(old(cpu).apu.channel_2_pos, old(result).len() as int),
        old(cpu).apu.channel_2_pos + (old(result).len() as u32) <= u32::MAX,
        forall|x: int|
            0 <= x < old(result).len() ==> i16::MIN <= #[trigger] old(result)@[x]
                + channel_2_sample(*old(cpu), x) <= i16::MAX,
    ensures
        final(result).len() == old(result).len(),
        forall|x: int|
            0 <= x < old(result).len() ==> #[trigger] final(result)@[x] == old(result)@[x]
                + channel_2_sample(*old(cpu), x),
        *final(cpu) == with_apu(
            *old(cpu),
            with_channel_2_pos(
                old(cpu).apu,
                channel_2_next_pos(
                    old(cpu).apu.channel_2_pos,
                    (old(result).len() as u32) as int,
                    channel_2_period(*old(cpu)),
                ),
            ),
        ),
{
    let (NR21, NR22, NR23, NR24) = read_channel_2_addresses(cpu);
    proof {
        lemma_register_fields(NR23, NR24, NR21, NR22);
    }
    let time_freq = (NR24 as u16 & 0b111) << 8 | NR23 as u16;
    let duty = NR21 >> 6;
    let not_time_freq = 2048 - time_freq as u32;
    let period = (44100 * not_time_freq / 131072) as u16;
    let volume_step: i16 = 512;
    let init_volume = ((NR22 & 0xF0) >> 4) as i16;
    let sample_count = result.len();
    let volume = volume_step * init_volume;
    let high_len = get_duty(duty, period);
    mix_square(result, cpu.apu.channel_2_pos, period, high_len, volume);
    if (cpu.apu.channel_2_pos + sample_count as u32) % period as u32 == 0 {
        cpu.apu.channel_2_pos = 0;
    } else {
        cpu.apu.channel_2_pos = cpu.apu.channel_2_pos + sample_count as u32;
    }
}


/// Both channels may be mixed over `len` samples: each enabled channel has
/// a non-zero period where it is sampled, keeps its wave indices below
/// 65536, and its position stays within `u32`.
pub open spec fn audio_ready(cpu: Cpu, len: int) -> bool {
    &&& cpu.apu.channel_1.enabled ==> {
        &&& len > 0 ==> channel_1_period(cpu) > 0
        &&& indices_fit(cpu.apu.channel_1_pos, len)
        &&& cpu.apu.channel_1_pos + len <= u32::MAX
    }
    &&& cpu.apu.channel_2.enabled ==> {
        &&& channel_2_period(cpu) > 0
        &&& indices_fit(cpu.apu.channel_2_pos, len)
        &&& cpu.apu.channel_2_pos + len <= u32::MAX
    }
}

/// Sample `x` of the mix: the sum of the samples of the enabled channels.
pub open spec fn mixed_sample(cpu: Cpu, x: int) -> int {
    (if cpu.apu.channel_1.enabled {
        channel_1_sample(cpu, x)
    } else {
        0
    }) + (if cpu.apu.channel_2.enabled {
        channel_2_sample(cpu, x)
    } else {
        0
    })
}

/// The machine after mixing `len` samples: the position of each enabled
/// channel moves on as its mixing function says.
pub open spec fn after_audio(cpu: Cpu, len: int) -> Cpu {
    let apu1 = if cpu.apu.channel_1.enabled {
        with_channel_1_pos(cpu.apu, (cpu.apu.channel_1_pos + len) as u32)
    } else {
        cpu.apu
    };
    let apu2 = if cpu.apu.channel_2.enabled {
        with_channel_2_pos(
            apu1,
            channel_2_next_pos(cpu.apu.channel_2_pos, len, channel_2_period(cpu)),
        )
    } else {
        apu1
    };
    with_apu(cpu, apu2)
}

proof fn lemma_square_sample_bound(x: int, pos: u32, period: int, high: int, nr: u8)
    ensures
        -7680 <= square_sample(x, pos, period, high, envelope_amplitude(nr)) <= 7680,
{
}

/// Mixes `sample_len` samples of the enabled square channels, starting
/// from silence, and returns them for the audio queue.
pub fn play_audio(sample_len: u8, cpu: &mut Cpu) -> (samples: Vec<i16>)
    requires
        audio_ready(*old(cpu), sample_len as int),
    ensures
        samples.len() == sample_len,
        forall|x: int| 0 <= x < sample_len ==> #[trigger] samples@[x] == mixed_sample(*old(cpu), x),
        *final(cpu) == after_audio(*old(cpu), sample_len as int),
{
    let ghost c0 = *cpu;
    let mut result: Vec<i16> = vec![0; sample_len as usize];
    if cpu.apu.channel_1.enabled {
        proof {
            assert forall|x: int| 0 <= x < result.len() implies i16::MIN <= #[trigger] result@[x]
                + channel_1_sample(*cpu, x) <= i16::MAX by {
                lemma_square_sample_bound(
                    x,
                    cpu.apu.channel_1_pos,
                    channel_1_period(*cpu),
                    duty_high_len(mem(*cpu, 0xFF11) / 64, channel_1_period(*cpu)),
                    mem(*cpu, 0xFF12),
                );
            }
        }
        mix_channel_1(&mut result, cpu);
    }
    let ghost c1 = *cpu;
    let ghost r1 = result@;
    assert(forall|x: int| 0 <= x < sample_len ==> #[trigger] r1[x] == (if c0.apu.channel_1.enabled {
        channel_1_sample(c0, x)
    } else {
        0
    }));
    assert(forall|x: int| #[trigger] channel_2_sample(c1, x) == channel_2_sample(c0, x));
    if cpu.apu.channel_2.enabled {
        proof {
            assert forall|x: int| 0 <= x < result.len() implies i16::MIN <= #[trigger] result@[x]
                + channel_2_sample(*cpu, x) <= i16::MAX by {
                lemma_square_sample_bound(
                    x,
                    c0.apu.channel_1_pos,
                    channel_1_period(c0),
                    duty_high_len(mem(c0, 0xFF11) / 64, channel_1_period(c0)),
                    mem(c0, 0xFF12),
                );
                lemma_square_sample_bound(
                    x,
                    cpu.apu.channel_2_pos,
                    channel_2_period(*cpu),
                    duty_high_len(mem(*cpu, 0xFF16) / 64, channel_2_period(*cpu)),
                    mem(*cpu, 0xFF17),
                );
            }
        }
        mix_channel_2(&mut result, cpu);
    }
    result
}


/// A channel after one clock of its length counter: an enabled channel
/// with length counting on and a non-zero counter counts down by one, and
/// is switched off when the counter reaches zero.
pub open spec fn clock_length(ch: AudioChannel, length_enabled: bool) -> AudioChannel {
    if ch.enabled && length_enabled && ch.counter != 0 {
        AudioChannel { counter: (ch.counter - 1) as u8, enabled: ch.counter - 1 != 0, ..ch }
    } else {
        ch
    }
}

/// Length counting is on when bit 6 of the channel's high frequency
/// register (NR14 or NR24) is set.
pub open spec fn length_enable_bit(nr: u8) -> bool {
    nr & 0x40 != 0
}

/// The machine after one length clock of both channels.
pub open spec fn step_length_state(cpu: Cpu) -> Cpu {
    with_apu(
        cpu,
        Apu {
            channel_1: clock_length(cpu.apu.channel_1, length_enable_bit(mem(cpu, 0xFF14))),
            channel_2: clock_length(cpu.apu.channel_2, length_enable_bit(mem(cpu, 0xFF19))),
            ..cpu.apu
        },
    )
}

/// Clocks the length counters of both channels.
pub fn step_length(cpu: &mut Cpu)
    ensures
        *final(cpu) == step_length_state(*old(cpu)),
{
    let channel_1_length_enable = read_address(0xFF14, cpu) & 0x40 != 0;
    let channel_2_length_enable = read_address(0xFF19, cpu) & 0x40 != 0;
    if cpu.apu.channel_1.enabled && channel_1_length_enable && cpu.apu.channel_1.counter != 0 {
        cpu.apu.channel_1.counter = cpu.apu.channel_1.counter - 1;
        if cpu.apu.channel_1.counter == 0 {
            cpu.apu.channel_1.enabled = false;
        }
    }
    if cpu.apu.channel_2.enabled && channel_2_length_enable && cpu.apu.channel_2.counter != 0 {
        cpu.apu.channel_2.counter = cpu.apu.channel_2.counter - 1;
        if cpu.apu.channel_2.counter == 0 {
            cpu.apu.channel_2.enabled = false;
        }
    }
}

/// A channel just triggered with volume-envelope byte `nr`: the length
/// counter reloads to 64, the envelope restarts, the volume is the upper
/// four bits of `nr`, and the channel plays unless the upper five bits of
/// `nr` are all zero.
pub open spec fn triggered_channel(ch: AudioChannel, nr: u8) -> AudioChannel {
    AudioChannel { counter: 64, enabled: nr & 0xF8 != 0, envelope_pos: 0, volume: nr / 16, ..ch }
}

/// The machine after the pending triggers are served: a triggered channel
/// restarts from position 0 and its trigger is cleared.
pub open spec fn handle_triggers_state(cpu: Cpu) -> Cpu {
    let apu = cpu.apu;
    let apu2 = if apu.channel_2_handle_trigger {
        Apu {
            channel_2: triggered_channel(apu.channel_2, mem(cpu, 0xFF17)),
            channel_2_pos: 0,
            channel_2_handle_trigger: false,
            ..apu
        }
    } else {
        apu
    };
    let apu1 = if apu2.channel_1_handle_trigger {
        Apu {
            channel_1: triggered_channel(apu2.channel_1, mem(cpu, 0xFF12)),
            channel_1_pos: 0,
            channel_1_handle_trigger: false,
            ..apu2
        }
    } else {
        apu2
    };
    with_apu(cpu, apu1)
}

/// Serves the pending triggers of both channels.
pub fn handle_triggers(cpu: &mut Cpu)
    ensures
        *final(cpu) == handle_triggers_state(*old(cpu)),
{
    if cpu.apu.channel_2_handle_trigger {
        cpu.apu.channel_2.enabled = true;
        cpu.apu.channel_2.counter = 64;
        cpu.apu.channel_2.envelope_pos = 0;
        cpu.apu.channel_2_pos = 0;
        let nr22 = read_address(0xFF17, cpu);
        proof {
            lemma_register_fields(0, 0, 0, nr22);
        }
        cpu.apu.channel_2.volume = (nr22 & 0xF0) >> 4;
        cpu.apu.channel_2_handle_trigger = false;
        cpu.apu.channel_2.enabled = nr22 & 0xF8 != 0;
    }
    if cpu.apu.channel_1_handle_trigger {
        cpu.apu.channel_1.enabled = true;
        cpu.apu.channel_1.counter = 64;
        cpu.apu.channel_1.envelope_pos = 0;
        cpu.apu.channel_1_pos = 0;
        let nr12 = read_address(0xFF12, cpu);
        proof {
            lemma_register_fields(0, 0, 0, nr12);
        }
        cpu.apu.channel_1.volume = (nr12 & 0xF0) >> 4;
        cpu.apu.channel_1_handle_trigger = false;
        cpu.apu.channel_1.enabled = nr12 & 0xF8 != 0;
    }
}

/// The frame-sequencer step that follows `master_clock`.
pub open spec fn next_master_clock(cpu: Cpu) -> u32 {
    ((cpu.apu.master_clock + 1) % 512) as u32
}

/// The machine after one frame-sequencer step, before its samples are
/// mixed: the master clock advances modulo 512, the triggers are served,
/// the length counters are clocked on even steps, the sweep clock on
/// steps divisible by 4 and the envelope clock on steps that are 7
/// modulo 8, each modulo 512.
pub open spec fn step_clocks_state(cpu: Cpu) -> Cpu {
    let m = next_master_clock(cpu);
    let c1 = with_apu(cpu, Apu { master_clock: m, ..cpu.apu });
    let c2 = handle_triggers_state(c1);
    let c3 = if m % 2 == 0 {
        step_length_state(c2)
    } else {
        c2
    };
    let c4 = if m % 4 == 0 {
        with_apu(c3, Apu { sweep_clock: ((c3.apu.sweep_clock + 1) % 512) as u32, ..c3.apu })
    } else {
        c3
    };
    if m % 8 == 7 {
        with_apu(c4, Apu { envelope_clock: ((c4.apu.envelope_clock + 1) % 512) as u32, ..c4.apu })
    } else {
        c4
    }
}

/// The number of samples the next frame-sequencer step emits.
pub open spec fn next_sample_len(cpu: Cpu) -> u8 {
    cpu.apu.sample_length_arr@[next_master_clock(cpu) as int]
}

/// A step can run without overflow: the clocks it advances are below
/// `u32::MAX`, and the channels can be mixed after the clocks and triggers.
pub open spec fn step_ready(cpu: Cpu) -> bool {
    &&& cpu.apu.master_clock < u32::MAX
    &&& next_master_clock(cpu) % 4 == 0 ==> cpu.apu.sweep_clock < u32::MAX
    &&& next_master_clock(cpu) % 8 == 7 ==> cpu.apu.envelope_clock < u32::MAX
    &&& audio_ready(step_clocks_state(cpu), next_sample_len(cpu) as int)
}

/// One frame-sequencer step: advances the clocks, serves triggers, clocks
/// the length counters, and returns the samples of this step for the
/// audio queue.
pub fn step(cpu: &mut Cpu) -> (samples: Vec<i16>)
    requires
        step_ready(*old(cpu)),
    ensures
        samples.len() == next_sample_len(*old(cpu)),
        forall|x: int|
            0 <= x < samples.len() ==> #[trigger] samples@[x] == mixed_sample(
                step_clocks_state(*old(cpu)),
                x,
            ),
        *final(cpu) == after_audio(
            step_clocks_state(*old(cpu)),
            next_sample_len(*old(cpu)) as int,
        ),
{
    cpu.apu.master_clock = (cpu.apu.master_clock + 1) % 512;
    let sample_len = cpu.apu.sample_length_arr[cpu.apu.master_clock as usize];
    handle_triggers(cpu);
    if cpu.apu.master_clock % 2 == 0 {
        step_length(cpu);
    }
    if cpu.apu.master_clock % 4 == 0 {
        cpu.apu.sweep_clock = (cpu.apu.sweep_clock + 1) % 512;
    }
    if cpu.apu.master_clock % 8 == 7 {
        cpu.apu.envelope_clock = (cpu.apu.envelope_clock + 1) % 512;
    }
    play_audio(sample_len, cpu)
}


/// The wave period of a square channel from its frequency bytes.
fn square_period(lo: u8, hi: u8) -> (period: u16)
    ensures
        period == wave_period(lo, hi),
{
    proof {
        lemma_register_fields(lo, hi, 0, 0);
    }
    let time_freq = (hi as u16 & 0b111) << 8 | lo as u16;
    let not_time_freq = 2048 - time_freq as u32;
    (44100 * not_time_freq / 131072) as u16
}

/// Whether `len` samples from position `pos` keep every wave index below
/// 65536.
fn check_indices_fit(pos: u32, len: u32) -> (ok: bool)
    ensures
        ok == indices_fit(pos, len as int),
{
    let clipped: u32 = if len < 65536 {
        len
    } else {
        65536
    };
    (pos as u16) as u32 + clipped <= 65536
}

/// Whether a square channel can be mixed over `len` samples.
fn check_channel_ready(
    enabled: bool,
    pos: u32,
    len: u32,
    period: u16,
    period_always_used: bool,
) -> (ok: bool)
    ensures
        ok == (enabled ==> {
            &&& (period_always_used || len > 0) ==> period > 0
            &&& indices_fit(pos, len as int)
            &&& pos + len <= u32::MAX
        }),
{
    if !enabled {
        return true;
    }
    if (period_always_used || len > 0) && period == 0 {
        return false;
    }
    check_indices_fit(pos, len) && pos <= u32::MAX - len
}

/// Whether `play_audio(sample_len, cpu)` can mix both channels without
/// overflow.
pub fn can_play_audio(sample_len: u8, cpu: &Cpu) -> (ok: bool)
    ensures
        ok == audio_ready(*cpu, sample_len as int),
{
    let (_, _, _, nr13, nr14) = read_channel_1_addresses(cpu);
    let (_, _, nr23, nr24) = read_channel_2_addresses(cpu);
    let len = sample_len as u32;
    check_channel_ready(
        cpu.apu.channel_1.enabled,
        cpu.apu.channel_1_pos,
        len,
        square_period(nr13, nr14),
        false,
    ) && check_channel_ready(
        cpu.apu.channel_2.enabled,
        cpu.apu.channel_2_pos,
        len,
        square_period(nr23, nr24),
        true,
    )
}

/// Whether a channel is enabled after the next step's trigger and length
/// clock, and its position after the trigger.
fn channel_after_clocks(
    ch: AudioChannel,
    pos: u32,
    trigger: bool,
    nr_envelope: u8,
    nr_high: u8,
    length_clock: bool,
) -> (res: (bool, u32))
    ensures
        ({
            let t = if trigger {
                triggered_channel(ch, nr_envelope)
            } else {
                ch
            };
            let c = if length_clock {
                clock_length(t, length_enable_bit(nr_high))
            } else {
                t
            };
            res == (c.enabled, if trigger { 0u32 } else { pos })
        }),
{
    let mut enabled = ch.enabled;
    let mut counter = ch.counter;
    let mut p = pos;
    if trigger {
        enabled = nr_envelope & 0xF8 != 0;
        counter = 64;
        p = 0;
    }
    if length_clock && enabled && nr_high & 0x40 != 0 && counter != 0 {
        enabled = counter - 1 != 0;
    }
    (enabled, p)
}

/// Whether `step(cpu)` can run without overflow.
pub fn can_step(cpu: &Cpu) -> (ok: bool)
    ensures
        ok == step_ready(*cpu),
{
    if cpu.apu.master_clock == u32::MAX {
        return false;
    }
    let m = (cpu.apu.master_clock + 1) % 512;
    if m % 4 == 0 && cpu.apu.sweep_clock == u32::MAX {
        return false;
    }
    if m % 8 == 7 && cpu.apu.envelope_clock == u32::MAX {
        return false;
    }
    let len = cpu.apu.sample_length_arr[m as usize] as u32;
    let (_, _, nr12, nr13, nr14) = read_channel_1_addresses(cpu);
    let (_, nr22, nr23, nr24) = read_channel_2_addresses(cpu);
    let (en1, pos1) = channel_after_clocks(
        cpu.apu.channel_1,
        cpu.apu.channel_1_pos,
        cpu.apu.channel_1_handle_trigger,
        nr12,
        nr14,
        m % 2 == 0,
    );
    let (en2, pos2) = channel_after_clocks(
        cpu.apu.channel_2,
        cpu.apu.channel_2_pos,
        cpu.apu.channel_2_handle_trigger,
        nr22,
        nr24,
        m % 2 == 0,
    );
    let ghost pre = step_clocks_state(*cpu);
    assert(pre.apu.channel_1.enabled == en1 && pre.apu.channel_1_pos == pos1);
    assert(pre.apu.channel_2.enabled == en2 && pre.apu.channel_2_pos == pos2);
    assert(pre.memory == cpu.memory);
    check_channel_ready(en1, pos1, len, square_period(nr13, nr14), false) && check_channel_ready(
        en2,
        pos2,
        len,
        square_period(nr23, nr24),
        true,
    )
}

// ---------------------------------------------------------------------
// Properties of the sound unit.
// ---------------------------------------------------------------------

/// The number of samples emitted by the frame-sequencer steps 0 to n - 1.
pub open spec fn samples_before(n: nat) -> int
    decreases n,
{
    if n == 0 {
        0
    } else {
        samples_before((n - 1) as nat) + step_sample_len(n - 1) as int
    }
}

proof fn lemma_step_count_increments(m: int)
    requires
        m >= 0,
    ensures
        (m + 4) / 8 - (m + 3) / 8 == if m % 8 == 4 { 1int } else { 0int },
        (m + 128) / 128 - (m + 127) / 128 == if m % 128 == 0 { 1int } else { 0int },
        step_sample_len(m) == 86 + ((m + 4) / 8 - (m + 3) / 8) + ((m + 128) / 128 - (m + 127)
            / 128),
{
}

proof fn lemma_samples_before_closed_form(n: nat)
    ensures
        samples_before(n) == 86 * n + (n + 3) / 8 + (n + 127) / 128,
    decreases n,
{
    if n > 0 {
        lemma_samples_before_closed_form((n - 1) as nat);
        lemma_step_count_increments((n - 1) as int);
    }
}

/// A full cycle of the frame sequencer, its 512 steps, emits 44100
/// samples: one second of sound at the power-on sample rate.
pub proof fn lemma_frame_cycle_is_one_second(apu: Apu)
    requires
        apu.power_on_state(),
    ensures
        samples_before(512) == 44100,
        samples_before(512) == apu.audio_freq,
        forall|i: int| 0 <= i < 512 ==> #[trigger] apu.sample_length_arr@[i] == step_sample_len(i),
{
    lemma_samples_before_closed_form(512);
}

/// The three frame-sequencer clocks count steps modulo 512.
pub open spec fn clocks_in_range(apu: Apu) -> bool {
    apu.master_clock < 512 && apu.sweep_clock < 512 && apu.envelope_clock < 512
}

/// A step keeps the three frame-sequencer clocks below 512, leaves the
/// per-step sample counts and the sample rate as they were, and serves
/// every pending trigger.
pub proof fn lemma_step_keeps_clocks(cpu: Cpu)
    requires
        clocks_in_range(cpu.apu),
    ensures
        clocks_in_range(after_audio(step_clocks_state(cpu), next_sample_len(cpu) as int).apu),
        after_audio(step_clocks_state(cpu), next_sample_len(cpu) as int).apu.sample_length_arr
            == cpu.apu.sample_length_arr,
        after_audio(step_clocks_state(cpu), next_sample_len(cpu) as int).apu.audio_freq
            == cpu.apu.audio_freq,
        !after_audio(step_clocks_state(cpu), next_sample_len(cpu) as int).apu.channel_1_handle_trigger,
        !after_audio(step_clocks_state(cpu), next_sample_len(cpu) as int).apu.channel_2_handle_trigger,
{
}

/// A length clock never raises the counter, lowers it by at most one,
/// changes nothing else but the enable bit, and switches the channel off
/// exactly when it runs the counter down to zero.
pub proof fn lemma_length_counts_down(ch: AudioChannel, length_enabled: bool)
    ensures
        clock_length(ch, length_enabled).counter <= ch.counter,
        clock_length(ch, length_enabled).counter + 1 >= ch.counter,
        clock_length(ch, length_enabled).volume == ch.volume,
        clock_length(ch, length_enabled).envelope_pos == ch.envelope_pos,
        ch.enabled && clock_length(ch, length_enabled).counter == 0 ==> (!clock_length(
            ch,
            length_enabled,
        ).enabled <==> ch.counter == 1 && length_enabled),
        !ch.enabled ==> clock_length(ch, length_enabled) == ch,
        !length_enabled ==> clock_length(ch, length_enabled) == ch,
{
}

/// A triggered channel restarts: its length counter is 64, its envelope
/// and wave position are at the start, its volume is the upper four bits
/// of its envelope byte, it plays exactly when that byte is at least 8
/// (a non-zero initial volume, or the envelope direction bit), and its
/// trigger is cleared.
pub proof fn lemma_trigger_restarts(cpu: Cpu)
    ensures
        cpu.apu.channel_1_handle_trigger ==> {
            let a = handle_triggers_state(cpu).apu;
            &&& a.channel_1.counter == 64 && a.channel_1.envelope_pos == 0
            &&& a.channel_1_pos == 0
            &&& a.channel_1.volume == mem(cpu, 0xFF12) / 16
        },
        cpu.apu.channel_2_handle_trigger ==> {
            let a = handle_triggers_state(cpu).apu;
            &&& a.channel_2.counter == 64 && a.channel_2.envelope_pos == 0
            &&& a.channel_2_pos == 0
            &&& a.channel_2.volume == mem(cpu, 0xFF17) / 16
        },
        cpu.apu.channel_1_handle_trigger ==> (handle_triggers_state(cpu).apu.channel_1.enabled
            <==> mem(cpu, 0xFF12) >= 8),
        cpu.apu.channel_2_handle_trigger ==> (handle_triggers_state(cpu).apu.channel_2.enabled
            <==> mem(cpu, 0xFF17) >= 8),
        !handle_triggers_state(cpu).apu.channel_1_handle_trigger,
        !handle_triggers_state(cpu).apu.channel_2_handle_trigger,
        !cpu.apu.channel_1_handle_trigger && !cpu.apu.channel_2_handle_trigger
            ==> handle_triggers_state(cpu) == cpu,
{
    let a = mem(cpu, 0xFF12);
    let b = mem(cpu, 0xFF17);
    assert((a & 0xF8 != 0) == (a >= 8) && (b & 0xF8 != 0) == (b >= 8)) by (bit_vector);
}

/// Each channel's amplitude is at most 15 * 512 = 7680, so the mix of both
/// stays within 15360 and never leaves the range of `i16`.
pub proof fn lemma_mix_in_range(cpu: Cpu, x: int)
    ensures
        -7680 <= channel_1_sample(cpu, x) <= 7680,
        -7680 <= channel_2_sample(cpu, x) <= 7680,
        -15360 <= mixed_sample(cpu, x) <= 15360,
{
}


/// The machine after `n` consecutive calls of `step` from `cpu`, each as
/// the `ensures` of `step` gives it.
pub open spec fn steps_state(cpu: Cpu, n: nat) -> Cpu
    decreases n,
{
    if n == 0 {
        cpu
    } else {
        let c = steps_state(cpu, (n - 1) as nat);
        after_audio(step_clocks_state(c), next_sample_len(c) as int)
    }
}

/// The number of samples that `n` consecutive calls of `step` from `cpu`
/// return in total.
pub open spec fn steps_samples(cpu: Cpu, n: nat) -> int
    decreases n,
{
    if n == 0 {
        0
    } else {
        steps_samples(cpu, (n - 1) as nat) + next_sample_len(steps_state(cpu, (n - 1) as nat))
    }
}

/// The sample counts of the frame-sequencer steps are those of
/// `step_sample_len`.
pub open spec fn standard_sample_lengths(apu: Apu) -> bool {
    forall|i: int| 0 <= i < 512 ==> #[trigger] apu.sample_length_arr@[i] == step_sample_len(i)
}

proof fn lemma_one_step_clocks(cpu: Cpu)
    requires
        cpu.apu.master_clock < 512,
    ensures
        ({
            let m = cpu.apu.master_clock;
            let c = after_audio(step_clocks_state(cpu), next_sample_len(cpu) as int);
            &&& c.apu.master_clock == (m + 1) % 512
            &&& c.apu.sweep_clock == if (m + 1) % 4 == 0 {
                (cpu.apu.sweep_clock + 1) % 512
            } else {
                cpu.apu.sweep_clock as int
            }
            &&& c.apu.envelope_clock == if (m + 1) % 8 == 7 {
                (cpu.apu.envelope_clock + 1) % 512
            } else {
                cpu.apu.envelope_clock as int
            }
            &&& c.apu.sample_length_arr == cpu.apu.sample_length_arr
            &&& c.apu.audio_freq == cpu.apu.audio_freq
            &&& next_sample_len(cpu) == cpu.apu.sample_length_arr@[(m + 1) % 512]
        }),
{
    let m = cpu.apu.master_clock;
    assert(((m + 1) % 512) % 4 == (m + 1) % 4);
    assert(((m + 1) % 512) % 8 == (m + 1) % 8);
}

proof fn lemma_clock_arith(j: int, a: int, b: int)
    requires
        j >= 0,
    ensures
        (j % 512 + 1) % 512 == (j + 1) % 512,
        (j % 512 + 1) % 4 == (j + 1) % 4,
        (j % 512 + 1) % 8 == (j + 1) % 8,
        step_sample_len((j + 1) % 512) == step_sample_len(j + 1),
        (j + 1) / 4 == j / 4 + if (j + 1) % 4 == 0 { 1int } else { 0int },
        (j + 2) / 8 == (j + 1) / 8 + if (j + 1) % 8 == 7 { 1int } else { 0int },
        (a % 512 + 1) % 512 == (a + 1) % 512,
        (b % 512 + 1) % 512 == (b + 1) % 512,
{
}

#[verifier::rlimit(50)]
#[verifier::spinoff_prover]
proof fn lemma_steps_closed_form(cpu: Cpu, n: nat)
    requires
        cpu.apu.master_clock < 512,
        standard_sample_lengths(cpu.apu),
    ensures
        ({
            let m0 = cpu.apu.master_clock as int;
            let c = steps_state(cpu, n);
            let sweeps = (m0 + n) / 4 - m0 / 4;
            let envelopes = (m0 + n + 1) / 8 - (m0 + 1) / 8;
            &&& c.apu.master_clock < 512
            &&& standard_sample_lengths(c.apu)
            &&& c.apu.sample_length_arr == cpu.apu.sample_length_arr
            &&& c.apu.audio_freq == cpu.apu.audio_freq
            &&& c.apu.master_clock == (m0 + n) % 512
            &&& c.apu.sweep_clock == if sweeps == 0 {
                cpu.apu.sweep_clock as int
            } else {
                (cpu.apu.sweep_clock + sweeps) % 512
            }
            &&& c.apu.envelope_clock == if envelopes == 0 {
                cpu.apu.envelope_clock as int
            } else {
                (cpu.apu.envelope_clock + envelopes) % 512
            }
            &&& steps_samples(cpu, n) == samples_before((m0 + n + 1) as nat) - samples_before(
                (m0 + 1) as nat,
            )
        }),
    decreases n,
{
    if n > 0 {
        let k = (n - 1) as nat;
        lemma_steps_closed_form(cpu, k);
        let c = steps_state(cpu, k);
        lemma_one_step_clocks(c);
        let m0 = cpu.apu.master_clock as int;
        let j = m0 + k;
        assert(c.apu.master_clock == j % 512);
        lemma_clock_arith(
            j,
            cpu.apu.sweep_clock as int + j / 4 - m0 / 4,
            cpu.apu.envelope_clock as int + (j + 1) / 8 - (m0 + 1) / 8,
        );
        assert(samples_before((j + 2) as nat) == samples_before((j + 1) as nat) + step_sample_len(
            j + 1,
        ));
    }
}

/// 512 consecutive calls of `step`, from any frame-sequencer step and
/// with the standard sample counts, return 44100 samples in total (one
/// second at 44100 samples per second), bring the master clock back to
/// where it started, and advance the sweep clock by 128 and the envelope
/// clock by 64, modulo 512, whatever values these two clocks start from.
pub proof fn lemma_frame_cycle_from_any_step(cpu: Cpu)
    requires
        cpu.apu.master_clock < 512,
        standard_sample_lengths(cpu.apu),
    ensures
        steps_samples(cpu, 512) == 44100,
        steps_state(cpu, 512).apu.master_clock == cpu.apu.master_clock,
        steps_state(cpu, 512).apu.sweep_clock == (cpu.apu.sweep_clock + 128) % 512,
        steps_state(cpu, 512).apu.envelope_clock == (cpu.apu.envelope_clock + 64) % 512,
        steps_state(cpu, 512).apu.sample_length_arr == cpu.apu.sample_length_arr,
        steps_state(cpu, 512).apu.audio_freq == cpu.apu.audio_freq,
{
    let m0 = cpu.apu.master_clock as int;
    lemma_steps_closed_form(cpu, 512);
    lemma_samples_before_closed_form((m0 + 513) as nat);
    lemma_samples_before_closed_form((m0 + 1) as nat);
    assert((m0 + 512) / 4 == m0 / 4 + 128);
    assert((m0 + 513) / 8 == (m0 + 1) / 8 + 64);
    assert((m0 + 516) / 8 == (m0 + 4) / 8 + 64);
    assert((m0 + 640) / 128 == (m0 + 128) / 128 + 4);
}


/// Each channel's part of the mix follows its own enable bit alone: a
/// disabled channel adds nothing and keeps its position; an enabled channel
/// adds its square wave, channel 1 moving on by `len` samples and channel 2
/// by `len` samples or back to 0 on a whole number of periods. Each square
/// sample is plus or minus 512 times the initial volume of the channel.
pub proof fn lemma_mix_per_channel(cpu: Cpu, x: int, len: int)
    ensures
        ({
            let en1 = cpu.apu.channel_1.enabled;
            let en2 = cpu.apu.channel_2.enabled;
            let after = after_audio(cpu, len).apu;
            let pos1 = cpu.apu.channel_1_pos;
            let pos2 = cpu.apu.channel_2_pos;
            &&& !en1 && !en2 ==> mixed_sample(cpu, x) == 0 && after_audio(cpu, len) == cpu
            &&& en1 && !en2 ==> mixed_sample(cpu, x) == channel_1_sample(cpu, x)
            &&& !en1 && en2 ==> mixed_sample(cpu, x) == channel_2_sample(cpu, x)
            &&& en1 && en2 ==> mixed_sample(cpu, x) == channel_1_sample(cpu, x) + channel_2_sample(
                cpu,
                x,
            )
            &&& after.channel_1_pos == if en1 {
                (pos1 + len) as u32
            } else {
                pos1
            }
            &&& after.channel_2_pos == if !en2 {
                pos2
            } else if (pos2 + len) % channel_2_period(cpu) == 0 {
                0
            } else {
                (pos2 + len) as u32
            }
            &&& after.channel_1 == cpu.apu.channel_1 && after.channel_2 == cpu.apu.channel_2
            &&& after.master_clock == cpu.apu.master_clock
            &&& after_audio(cpu, len).memory == cpu.memory
            &&& channel_1_sample(cpu, x) == 512 * (mem(cpu, 0xFF12) / 16) as int
                || channel_1_sample(cpu, x) == -512 * (mem(cpu, 0xFF12) / 16) as int
            &&& channel_2_sample(cpu, x) == 512 * (mem(cpu, 0xFF17) / 16) as int
                || channel_2_sample(cpu, x) == -512 * (mem(cpu, 0xFF17) / 16) as int
        }),
{
}

/// The length counters are clocked on even frame-sequencer steps only,
/// 256 times per cycle of 512 steps. With no trigger pending, a step to an
/// odd step leaves both channels as they were; a step to an even step
/// counts an enabled channel with length counting on and a non-zero
/// counter down by one, switching it off when it reaches zero, and leaves
/// any other channel as it was.
pub proof fn lemma_length_clocked_on_even_steps(cpu: Cpu)
    requires
        !cpu.apu.channel_1_handle_trigger,
        !cpu.apu.channel_2_handle_trigger,
    ensures
        ({
            let m = (cpu.apu.master_clock + 1) % 512;
            let c = after_audio(step_clocks_state(cpu), next_sample_len(cpu) as int).apu;
            let ch1 = cpu.apu.channel_1;
            let ch2 = cpu.apu.channel_2;
            let on1 = ch1.enabled && mem(cpu, 0xFF14) & 0x40 != 0 && ch1.counter > 0;
            let on2 = ch2.enabled && mem(cpu, 0xFF19) & 0x40 != 0 && ch2.counter > 0;
            &&& m % 2 == 1 ==> c.channel_1 == ch1 && c.channel_2 == ch2
            &&& m % 2 == 0 && !on1 ==> c.channel_1 == ch1
            &&& m % 2 == 0 && !on2 ==> c.channel_2 == ch2
            &&& m % 2 == 0 && on1 ==> c.channel_1.counter == ch1.counter - 1 && (c.channel_1.enabled
                <==> ch1.counter > 1) && c.channel_1.volume == ch1.volume
            &&& m % 2 == 0 && on2 ==> c.channel_2.counter == ch2.counter - 1 && (c.channel_2.enabled
                <==> ch2.counter > 1) && c.channel_2.volume == ch2.volume
        }),
{
}


/// The waveform of each channel, from its registers: the period is
/// 44100 * (2048 - f) / 131072 samples for the 11-bit frequency number f
/// (the low three bits of the high byte, then the low byte), at most 689;
/// the wave is high for the first eighth, quarter, half or three quarters
/// of a period (inclusive) for duty 0 to 3 in the two upper bits of the
/// duty byte, at plus 512 times the initial volume in the upper four bits
/// of the envelope byte, and low at minus that amplitude elsewhere.
pub proof fn lemma_channel_waveform(cpu: Cpu, x: int)
    ensures
        ({
            let f1 = (mem(cpu, 0xFF14) % 8) as int * 256 + mem(cpu, 0xFF13) as int;
            let p1 = 44100 * (2048 - f1) / 131072;
            let d1 = mem(cpu, 0xFF11) / 64;
            let h1 = if d1 == 0 {
                p1 / 8
            } else if d1 == 1 {
                p1 / 4
            } else if d1 == 2 {
                p1 / 2
            } else {
                p1 / 4 * 3
            };
            let a1 = 512 * (mem(cpu, 0xFF12) / 16) as int;
            let i1 = (x as u16) as int + (cpu.apu.channel_1_pos as u16) as int;
            &&& channel_1_period(cpu) == p1
            &&& 0 <= p1 <= 689
            &&& (p1 > 0 <==> f1 <= 2045)
            &&& channel_1_sample(cpu, x) == if i1 % p1 <= h1 { a1 } else { -a1 }
        }),
        ({
            let f2 = (mem(cpu, 0xFF19) % 8) as int * 256 + mem(cpu, 0xFF18) as int;
            let p2 = 44100 * (2048 - f2) / 131072;
            let d2 = mem(cpu, 0xFF16) / 64;
            let h2 = if d2 == 0 {
                p2 / 8
            } else if d2 == 1 {
                p2 / 4
            } else if d2 == 2 {
                p2 / 2
            } else {
                p2 / 4 * 3
            };
            let a2 = 512 * (mem(cpu, 0xFF17) / 16) as int;
            let i2 = (x as u16) as int + (cpu.apu.channel_2_pos as u16) as int;
            &&& channel_2_period(cpu) == p2
            &&& 0 <= p2 <= 689
            &&& (p2 > 0 <==> f2 <= 2045)
            &&& channel_2_sample(cpu, x) == if i2 % p2 <= h2 { a2 } else { -a2 }
        }),
        test_tone_sample(cpu, x) == if ((x as u16) as int + (cpu.apu.channel_2_pos as u16) as int)
            % 148 <= 37 {
            5120int
        } else {
            -5120int
        },
{
    let f1 = (mem(cpu, 0xFF14) % 8) as int * 256 + mem(cpu, 0xFF13) as int;
    let f2 = (mem(cpu, 0xFF19) % 8) as int * 256 + mem(cpu, 0xFF18) as int;
    assert(0 <= f1 <= 2047 && 0 <= f2 <= 2047);
    assert(44100 * (2048 - f1) <= 44100 * 2048);
    assert(44100 * (2048 - f2) <= 44100 * 2048);
}

} // verus!
