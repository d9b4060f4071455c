use rustgirl::apu::{
    handle_triggers, mix_channel_1, mix_channel_2, mix_test, play_audio, sample_len_arr, step,
    step_length, Apu, AudioChannel,
};
use rustgirl::cpu::Cpu;

/// Channel 1 at duty 50%, volume 15, frequency number 1750 (period 100).
fn channel_1_tone(cpu: &mut Cpu) {
    cpu.memory[0xFF11] = 0x80;
    cpu.memory[0xFF12] = 0xF0;
    cpu.memory[0xFF13] = 0xD6;
    cpu.memory[0xFF14] = 0x06;
}

/// Channel 2 at duty 12.5%, volume 8, frequency number 1750 (period 100).
fn channel_2_tone(cpu: &mut Cpu) {
    cpu.memory[0xFF16] = 0x00;
    cpu.memory[0xFF17] = 0x80;
    cpu.memory[0xFF18] = 0xD6;
    cpu.memory[0xFF19] = 0x06;
}

#[test]
fn sample_counts_per_step() {
    let arr = sample_len_arr();
    assert_eq!(arr[0], 87);
    assert_eq!(arr[1], 86);
    assert_eq!(arr[4], 87);
    assert_eq!(arr[12], 87);
    assert_eq!(arr[128], 87);
    assert_eq!(arr[129], 86);
}

#[test]
fn a_frame_cycle_emits_one_second_of_samples() {
    let apu: Apu = Default::default();
    let total: u32 = apu.sample_length_arr.iter().map(|&n| n as u32).sum();
    assert_eq!(total, 44100);
    assert_eq!(total, apu.audio_freq);
}

#[test]
fn power_on_state() {
    let apu: Apu = Default::default();
    assert_eq!(apu.master_clock, 0);
    assert_eq!(apu.channel_1_pos, 0);
    assert!(!apu.channel_1_handle_trigger);
    let ch: AudioChannel = Default::default();
    assert_eq!(ch, AudioChannel { counter: 0, enabled: false, envelope_pos: 0, volume: 0 });
    assert_eq!(apu.channel_2, ch);
}

#[test]
fn channel_1_square_wave() {
    let mut cpu = Cpu::new();
    channel_1_tone(&mut cpu);
    let mut result = vec![0i16; 87];
    mix_channel_1(&mut result, &mut cpu);
    assert_eq!(result[0], 7680);
    assert_eq!(result[50], 7680);
    assert_eq!(result[51], -7680);
    assert_eq!(result[86], -7680);
    assert_eq!(cpu.apu.channel_1_pos, 87);
    // the next call continues where this one stopped
    let mut more = vec![100i16; 20];
    mix_channel_1(&mut more, &mut cpu);
    assert_eq!(more[12], 100 - 7680);
    assert_eq!(more[13], 100 + 7680);
    assert_eq!(cpu.apu.channel_1_pos, 107);
}

#[test]
fn channel_2_square_wave_and_position() {
    let mut cpu = Cpu::new();
    channel_2_tone(&mut cpu);
    cpu.apu.channel_2_pos = 95;
    let mut result = vec![0i16; 87];
    mix_channel_2(&mut result, &mut cpu);
    assert_eq!(result[4], -4096);
    assert_eq!(result[5], 4096);
    assert_eq!(result[17], 4096);
    assert_eq!(result[18], -4096);
    assert_eq!(cpu.apu.channel_2_pos, 182);
}

#[test]
fn channel_2_position_resets_on_a_whole_period() {
    let mut cpu = Cpu::new();
    channel_2_tone(&mut cpu);
    cpu.apu.channel_2_pos = 13;
    let mut result = vec![0i16; 87];
    mix_channel_2(&mut result, &mut cpu);
    assert!(result.iter().all(|&s| s == -4096));
    assert_eq!(cpu.apu.channel_2_pos, 0);
}

#[test]
fn test_tone() {
    let mut cpu = Cpu::new();
    let mut result = vec![0i16; 87];
    mix_test(&mut result, &mut cpu);
    assert_eq!(result[0], 5120);
    assert_eq!(result[37], 5120);
    assert_eq!(result[38], -5120);
    assert_eq!(cpu.apu.channel_2_pos, 87);
}

#[test]
fn play_audio_mixes_the_enabled_channels() {
    let mut cpu = Cpu::new();
    channel_1_tone(&mut cpu);
    channel_2_tone(&mut cpu);
    cpu.apu.channel_1.enabled = true;
    cpu.apu.channel_2.enabled = true;
    let samples = play_audio(87, &mut cpu);
    assert_eq!(samples.len(), 87);
    assert_eq!(samples[0], 7680 + 4096);
    assert_eq!(samples[20], 7680 - 4096);
    assert_eq!(samples[60], -7680 - 4096);
    assert_eq!(cpu.apu.channel_1_pos, 87);
    assert_eq!(cpu.apu.channel_2_pos, 87);
}

#[test]
fn play_audio_is_silent_with_no_channel_enabled() {
    let mut cpu = Cpu::new();
    channel_1_tone(&mut cpu);
    let samples = play_audio(86, &mut cpu);
    assert_eq!(samples, vec![0i16; 86]);
    assert_eq!(cpu.apu.channel_1_pos, 0);
}

#[test]
fn length_counter_switches_the_channel_off() {
    let mut cpu = Cpu::new();
    cpu.memory[0xFF14] = 0x40;
    cpu.apu.channel_1.enabled = true;
    cpu.apu.channel_1.counter = 2;
    step_length(&mut cpu);
    assert_eq!(cpu.apu.channel_1.counter, 1);
    assert!(cpu.apu.channel_1.enabled);
    step_length(&mut cpu);
    assert_eq!(cpu.apu.channel_1.counter, 0);
    assert!(!cpu.apu.channel_1.enabled);
    step_length(&mut cpu);
    assert_eq!(cpu.apu.channel_1.counter, 0);
}

#[test]
fn length_counter_waits_for_its_enable_bit() {
    let mut cpu = Cpu::new();
    cpu.apu.channel_2.enabled = true;
    cpu.apu.channel_2.counter = 5;
    step_length(&mut cpu);
    assert_eq!(cpu.apu.channel_2.counter, 5);
    cpu.memory[0xFF19] = 0xC0;
    step_length(&mut cpu);
    assert_eq!(cpu.apu.channel_2.counter, 4);
}

#[test]
fn triggers_restart_the_channels() {
    let mut cpu = Cpu::new();
    cpu.memory[0xFF12] = 0xF3;
    cpu.memory[0xFF17] = 0x07;
    cpu.apu.channel_1_handle_trigger = true;
    cpu.apu.channel_2_handle_trigger = true;
    cpu.apu.channel_1_pos = 40;
    cpu.apu.channel_1.envelope_pos = 3;
    handle_triggers(&mut cpu);
    assert!(!cpu.apu.channel_1_handle_trigger);
    assert!(!cpu.apu.channel_2_handle_trigger);
    assert_eq!(
        cpu.apu.channel_1,
        AudioChannel { counter: 64, enabled: true, envelope_pos: 0, volume: 15 }
    );
    assert_eq!(cpu.apu.channel_1_pos, 0);
    // an envelope byte whose upper five bits are clear leaves the channel off
    assert_eq!(
        cpu.apu.channel_2,
        AudioChannel { counter: 64, enabled: false, envelope_pos: 0, volume: 0 }
    );
}

#[test]
fn step_advances_the_frame_sequencer() {
    let mut cpu = Cpu::new();
    let samples = step(&mut cpu);
    assert_eq!(cpu.apu.master_clock, 1);
    assert_eq!(samples, vec![0i16; 86]);
    cpu.apu.master_clock = 511;
    let samples = step(&mut cpu);
    assert_eq!(cpu.apu.master_clock, 0);
    assert_eq!(samples.len(), 87);
    assert_eq!(cpu.apu.sweep_clock, 1);
    cpu.apu.master_clock = 6;
    step(&mut cpu);
    assert_eq!(cpu.apu.envelope_clock, 1);
}

#[test]
fn step_serves_a_trigger_and_clocks_the_length() {
    let mut cpu = Cpu::new();
    cpu.memory[0xFF12] = 0xF0;
    cpu.memory[0xFF14] = 0x40;
    cpu.apu.channel_1_handle_trigger = true;
    cpu.apu.master_clock = 1;
    let samples = step(&mut cpu);
    assert_eq!(cpu.apu.master_clock, 2);
    assert_eq!(cpu.apu.channel_1.counter, 63);
    assert!(cpu.apu.channel_1.enabled);
    assert_eq!(samples.len(), 86);
    assert!(samples.iter().all(|&s| s == 7680));
    assert_eq!(cpu.apu.channel_1_pos, 86);
}

#[test]
fn a_frame_cycle_from_any_step_emits_one_second() {
    for start in [0u32, 1, 100, 255, 511] {
        let mut cpu = Cpu::new();
        cpu.apu.master_clock = start;
        cpu.apu.sweep_clock = 500;
        cpu.apu.envelope_clock = 7;
        let mut total = 0usize;
        for _ in 0..512 {
            total += step(&mut cpu).len();
        }
        assert_eq!(total, 44100);
        assert_eq!(cpu.apu.master_clock, start);
        assert_eq!(cpu.apu.sweep_clock, (500 + 128) % 512);
        assert_eq!(cpu.apu.envelope_clock, 7 + 64);
    }
}

#[test]
fn a_frame_cycle_advances_large_sweep_and_envelope_clocks() {
    let mut cpu = Cpu::new();
    cpu.apu.master_clock = 37;
    cpu.apu.sweep_clock = 1000;
    cpu.apu.envelope_clock = 70000;
    let mut total = 0usize;
    for _ in 0..512 {
        total += step(&mut cpu).len();
    }
    assert_eq!(total, 44100);
    assert_eq!(cpu.apu.master_clock, 37);
    assert_eq!(cpu.apu.sweep_clock, (1000 + 128) % 512);
    assert_eq!(cpu.apu.envelope_clock, (70000 + 64) % 512);
}
