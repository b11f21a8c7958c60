use samwise_audio::{
    calculate_expected_packet_duration, render_in_order, render_segment, sample_format,
    sequence_order, AudioPacket, PacketDuration, SampleEncoding, StreamConfig,
};

fn config(frames: Option<u32>) -> StreamConfig {
    StreamConfig {
        channels: 1,
        sample_rate: 48000,
        bits_per_sample: 32,
        encoding: SampleEncoding::Float,
        buffer_frames: frames,
    }
}

fn packet(seq: u64, value: f32, frames: usize) -> AudioPacket<f32> {
    AudioPacket::new(seq, seq * 1000, vec![value; frames])
}

#[test]
fn expected_duration_uses_reported_buffer() {
    let d = calculate_expected_packet_duration(&config(Some(480)));
    assert_eq!(d, PacketDuration { frames: 480, sample_rate: 48000 });
    assert_eq!(d.as_millis(), 10);
    assert_eq!(d.samples_at(48000), 480);
    assert_eq!(d.samples_at(24000), 240);
}

#[test]
fn expected_duration_defaults_to_1024_frames() {
    let d = calculate_expected_packet_duration(&config(None));
    assert_eq!(d.frames, 1024);
    assert_eq!(d.as_millis(), 21);
    assert_eq!(d.samples_at(48000), 1024);
}

#[test]
fn zero_duration_spans_no_samples() {
    let d = PacketDuration::zero();
    assert_eq!(d.samples_at(48000), 0);
    assert_eq!(d.as_millis(), 0);
}

#[test]
fn sample_format_follows_device_format() {
    assert_eq!(sample_format(true), SampleEncoding::Float);
    assert_eq!(sample_format(false), SampleEncoding::Int);
    let f = config(None).wav_format();
    assert_eq!(f.channels, 1);
    assert_eq!(f.sample_rate, 48000);
    assert_eq!(f.bits_per_sample, 32);
}

#[test]
fn order_sorts_by_sequence_and_keeps_queue_order_on_ties() {
    let packets = vec![packet(4, 0.4, 1), packet(1, 0.1, 1), packet(4, 0.5, 1), packet(2, 0.2, 1)];
    assert_eq!(sequence_order(&packets), vec![1, 3, 0, 2]);
    let empty: Vec<AudioPacket<f32>> = Vec::new();
    assert_eq!(sequence_order(&empty), Vec::<usize>::new());
}

#[test]
fn gaps_are_filled_with_one_packet_of_silence_each() {
    let frames = 2;
    let packets = vec![packet(3, 3.0, frames), packet(0, 1.0, frames), packet(1, 2.0, frames)];
    let d = calculate_expected_packet_duration(&config(Some(frames as u32)));
    let out = render_segment(&packets, &d, 48000, 1, 0.0f32);
    assert_eq!(out, vec![1.0, 1.0, 2.0, 2.0, 0.0, 0.0, 3.0, 3.0]);
}

#[test]
fn segment_length_spans_first_to_last_sequence_number() {
    let frames = 4usize;
    let seqs = [7u64, 2, 11, 3, 9];
    let packets: Vec<AudioPacket<f32>> = seqs.iter().map(|&s| packet(s, 0.5, frames)).collect();
    let d = calculate_expected_packet_duration(&config(Some(frames as u32)));
    let out = render_segment(&packets, &d, 48000, 1, 0.0f32);
    assert_eq!(out.len(), (11 - 2 + 1) * frames);
    let silent = out.iter().filter(|&&x| x == 0.0).count();
    assert_eq!(silent, (10 - seqs.len()) * frames);
}

#[test]
fn first_packet_gets_no_leading_silence() {
    let packets = vec![packet(5, 1.0, 1)];
    let out = render_in_order(&packets, &vec![0], 3, 0.0f32);
    assert_eq!(out, vec![1.0]);
}

#[test]
fn duplicate_sequence_numbers_are_both_written() {
    let packets = vec![packet(1, 1.0, 1), packet(1, 2.0, 1), packet(3, 3.0, 1)];
    let out = render_in_order(&packets, &sequence_order(&packets), 2, 0.0f32);
    assert_eq!(out, vec![1.0, 2.0, 0.0, 0.0, 3.0]);
}

#[test]
fn empty_queue_gives_empty_segment() {
    let packets: Vec<AudioPacket<f32>> = Vec::new();
    let d = PacketDuration { frames: 512, sample_rate: 44100 };
    assert!(render_segment(&packets, &d, 44100, 2, 0.0f32).is_empty());
}

#[test]
fn stereo_gaps_get_silence_for_both_channels() {
    let packets = vec![
        AudioPacket::new(0, 0, vec![1.0f32, -1.0, 1.0, -1.0]),
        AudioPacket::new(2, 0, vec![2.0f32, -2.0, 2.0, -2.0]),
    ];
    let d = PacketDuration { frames: 2, sample_rate: 48000 };
    let out = render_segment(&packets, &d, 48000, 2, 0.0f32);
    assert_eq!(out, vec![1.0, -1.0, 1.0, -1.0, 0.0, 0.0, 0.0, 0.0, 2.0, -2.0, 2.0, -2.0]);
}
