use samwise_audio::{
    decimal_string, final_output_name, CaptureError, merged_file_name, render_segment, segment_file_name,
    session_label, superimposed_file_name, AudioPacket, CaptureSession, Direction,
    PacketDuration,
};

#[test]
fn decimal_strings() {
    assert_eq!(decimal_string(0), "0");
    assert_eq!(decimal_string(7), "7");
    assert_eq!(decimal_string(1234567890), "1234567890");
    assert_eq!(decimal_string(u64::MAX), "18446744073709551615");
}

#[test]
fn label_is_zero_padded_date_and_time() {
    assert_eq!(session_label(2024, 3, 5, 9, 15, 2), "20240305_091502");
    assert_eq!(session_label(987, 12, 31, 23, 59, 59), "09871231_235959");
}

#[test]
fn file_names_follow_direction_label_and_index() {
    assert_eq!(segment_file_name(Direction::Input, "L", 3), "mic_recording_L_part3.wav");
    assert_eq!(segment_file_name(Direction::Output, "L", 12), "speaker_recording_L_part12.wav");
    assert_eq!(merged_file_name(Direction::Input, "L"), "merged_mic_L.wav");
    assert_eq!(merged_file_name(Direction::Output, "L"), "merged_speaker_L.wav");
    assert_eq!(superimposed_file_name("L"), "superimposed_L.wav");
    assert_eq!(final_output_name("L", None), "final_L.mp3");
    assert_eq!(final_output_name("L", Some("out/x.mp3".to_string())), "out/x.mp3");
}

#[test]
fn segment_indices_start_at_one_and_are_shared() {
    let mut s = CaptureSession::new("20240101_000000".to_string());
    assert!(s.recording_active);
    assert_eq!(s.claim_segment_index(), 1);
    assert_eq!(s.claim_segment_index(), 2);
    assert_eq!(s.segment_index, 3);
    s.record_segment(Direction::Input, 1);
    s.record_segment(Direction::Output, 2);
    assert_eq!(s.input_segments, vec!["mic_recording_20240101_000000_part1.wav".to_string()]);
    assert_eq!(s.output_segments, vec!["speaker_recording_20240101_000000_part2.wav".to_string()]);
    assert_eq!(s.segment_name_for(Direction::Input, 9), "mic_recording_20240101_000000_part9.wav");
    s.stop();
    assert!(!s.recording_active);
}

#[test]
fn ten_packets_per_direction_end_in_one_output_and_no_segment() {
    let label = session_label(2024, 6, 1, 12, 0, 0);
    let mut s = CaptureSession::new(label.clone());
    let d = PacketDuration { frames: 4, sample_rate: 16000 };
    let packets: Vec<AudioPacket<f32>> =
        (0..10u64).map(|i| AudioPacket::new(i, i * 250, vec![0.1; 4])).collect();
    let mic = render_segment(&packets, &d, 16000, 1, 0.0f32);
    let speaker = render_segment(&packets, &d, 16000, 1, 0.0f32);
    assert_eq!(mic.len(), 40);
    assert_eq!(speaker.len(), 40);
    let index = s.claim_segment_index();
    s.record_segment(Direction::Input, index);
    s.record_segment(Direction::Output, index);
    let segments_in = s.input_segments.clone();
    let segments_out = s.output_segments.clone();
    let plan = s.finish(None);
    assert!(!s.recording_active);
    assert!(s.input_segments.is_empty());
    assert!(s.output_segments.is_empty());
    assert_eq!(plan.final_output, "final_20240601_120000.mp3");
    assert_eq!(plan.input_segments, segments_in);
    assert_eq!(plan.output_segments, segments_out);
    assert_eq!(
        plan.cleanup,
        vec![
            "mic_recording_20240601_120000_part1.wav".to_string(),
            "speaker_recording_20240601_120000_part1.wav".to_string(),
            "merged_mic_20240601_120000.wav".to_string(),
            "merged_speaker_20240601_120000.wav".to_string(),
            "superimposed_20240601_120000.wav".to_string(),
        ]
    );
    assert!(!plan.cleanup.contains(&plan.final_output));
    assert_eq!(plan.merged_input, "merged_mic_20240601_120000.wav");
    assert_eq!(plan.merged_output, "merged_speaker_20240601_120000.wav");
    assert_eq!(plan.superimposed, "superimposed_20240601_120000.wav");
}

#[test]
fn caller_path_becomes_the_final_output() {
    let s = CaptureSession::new("X".to_string());
    let plan = s.post_process_plan(Some("/tmp/rec.mp3".to_string()));
    assert_eq!(plan.final_output, "/tmp/rec.mp3");
    assert_eq!(plan.cleanup.len(), 3);
}

#[test]
fn capture_error_messages() {
    assert_eq!(CaptureError::DeviceNotFound(Direction::Input).message(), "No default input device found");
    assert_eq!(CaptureError::DeviceNotFound(Direction::Output).message(), "No default output device found");
    assert_eq!(CaptureError::StreamBuildFailed(Direction::Output).message(), "Failed after 3 attempts");
}
