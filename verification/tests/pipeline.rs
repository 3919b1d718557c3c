use voicelink::capture::CaptureError;
use voicelink::capture::RecordingState;
use voicelink::pipeline::next_action;
use voicelink::pipeline::truncate_frame;
use voicelink::pipeline::TickAction;
use voicelink::pipeline::TickEvent;
use voicelink::pipeline::COMPRESSED_CAPACITY;
use voicelink::pipeline::DECODED_CAPACITY;
use voicelink::pipeline::VOICE_OUTPUT_SAMPLE_RATE;
use voicelink::sample::convert_frame;

#[test]
fn idle_tick_does_nothing() {
    let action = next_action(TickEvent::Start {
        state: RecordingState::Idle,
    });
    assert_eq!(action, TickAction::Done);
}

#[test]
fn recording_tick_queries_availability() {
    let action = next_action(TickEvent::Start {
        state: RecordingState::Recording,
    });
    assert_eq!(action, TickAction::QueryAvailable);
}

#[test]
fn scenario_b_no_data_error_appends_nothing() {
    // While recording, the availability query reports NoData: the tick is
    // over immediately, so no fetch, no decode, and zero sink appends.
    let action = next_action(TickEvent::Start {
        state: RecordingState::Recording,
    });
    assert_eq!(action, TickAction::QueryAvailable);
    let action = next_action(TickEvent::Available {
        outcome: Err(CaptureError::NoData),
    });
    assert_eq!(action, TickAction::Done);
}

#[test]
fn zero_available_bytes_ends_the_tick() {
    let action = next_action(TickEvent::Available { outcome: Ok(0) });
    assert_eq!(action, TickAction::Done);
}

#[test]
fn every_capture_error_is_an_inert_no_op() {
    let codes = vec![
        CaptureError::NotInitialized,
        CaptureError::NotRecording,
        CaptureError::NoData,
        CaptureError::BufferTooSmall,
        CaptureError::DataCorrupted,
        CaptureError::Restricted,
    ];
    for code in codes {
        let after_query = next_action(TickEvent::Available { outcome: Err(code) });
        assert_eq!(after_query, TickAction::Done);
        let after_fetch = next_action(TickEvent::Fetched {
            bytes_written: 512,
            outcome: Err(code),
        });
        assert_eq!(after_fetch, TickAction::Done);
        let after_decode = next_action(TickEvent::Decoded {
            bytes_written: 512,
            outcome: Err(code),
        });
        assert_eq!(after_decode, TickAction::Done);
    }
}

#[test]
fn available_bytes_trigger_a_fixed_capacity_fetch() {
    let action = next_action(TickEvent::Available { outcome: Ok(50) });
    assert_eq!(
        action,
        TickAction::Fetch {
            capacity: COMPRESSED_CAPACITY
        }
    );
    assert_eq!(COMPRESSED_CAPACITY, 1024);
}

#[test]
fn decode_consumes_exactly_the_fetched_count() {
    let action = next_action(TickEvent::Fetched {
        bytes_written: 50,
        outcome: Ok(()),
    });
    assert_eq!(
        action,
        TickAction::Decode {
            compressed_len: 50,
            out_capacity: DECODED_CAPACITY,
            sample_rate: VOICE_OUTPUT_SAMPLE_RATE,
        }
    );
    assert_eq!(DECODED_CAPACITY, 22050);
    assert_eq!(VOICE_OUTPUT_SAMPLE_RATE, 11025);
}

#[test]
fn zero_fetched_bytes_skips_decode() {
    let action = next_action(TickEvent::Fetched {
        bytes_written: 0,
        outcome: Ok(()),
    });
    assert_eq!(action, TickAction::Done);
}

#[test]
fn zero_decoded_bytes_skips_streaming() {
    let action = next_action(TickEvent::Decoded {
        bytes_written: 0,
        outcome: Ok(()),
    });
    assert_eq!(action, TickAction::Done);
}

#[test]
fn streamed_ends_the_tick() {
    let action = next_action(TickEvent::Streamed);
    assert_eq!(action, TickAction::Done);
}

#[test]
fn scenario_c_full_cycle_streams_exactly_the_decoded_bytes() {
    // available: Ok(50); fetch writes 50 bytes; decode writes 200 bytes.
    let action = next_action(TickEvent::Start {
        state: RecordingState::Recording,
    });
    assert_eq!(action, TickAction::QueryAvailable);

    let action = next_action(TickEvent::Available { outcome: Ok(50) });
    assert_eq!(
        action,
        TickAction::Fetch {
            capacity: COMPRESSED_CAPACITY
        }
    );

    let action = next_action(TickEvent::Fetched {
        bytes_written: 50,
        outcome: Ok(()),
    });
    assert_eq!(
        action,
        TickAction::Decode {
            compressed_len: 50,
            out_capacity: DECODED_CAPACITY,
            sample_rate: VOICE_OUTPUT_SAMPLE_RATE,
        }
    );

    let action = next_action(TickEvent::Decoded {
        bytes_written: 200,
        outcome: Ok(()),
    });
    assert_eq!(
        action,
        TickAction::Stream { sample_count: 200 }
    );

    // The decoder filled only the first 200 bytes of its buffer; the rest
    // is stale. Exactly 200 samples come out, in input order.
    let mut decoded: Vec<u8> = vec![0u8; DECODED_CAPACITY];
    for i in 0..200usize {
        decoded[i] = (i % 256) as u8;
    }
    let samples = convert_frame(&decoded, 200);
    assert_eq!(samples.len(), 200);
    for i in 0..200usize {
        let b = (i % 256) as i32;
        assert_eq!(samples[i].numerator as i32, 2 * b - 255);
    }
}

#[test]
fn truncate_frame_keeps_exactly_the_written_prefix() {
    let mut buffer: Vec<u8> = vec![0xAA; COMPRESSED_CAPACITY];
    for i in 0..50usize {
        buffer[i] = i as u8;
    }
    let frame = truncate_frame(&buffer, 50);
    assert_eq!(frame.len(), 50);
    for i in 0..50usize {
        assert_eq!(frame[i], i as u8);
    }
}

#[test]
fn truncate_frame_of_zero_bytes_is_empty() {
    let buffer: Vec<u8> = vec![0xAA; COMPRESSED_CAPACITY];
    let frame = truncate_frame(&buffer, 0);
    assert!(frame.is_empty());
}
