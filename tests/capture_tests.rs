use base64::Engine;
use image::GenericImageView;
use remote_host::encoder::{encode, EncodeError, RawFrame};
use remote_host::monitor::MonitorDescriptor;
use remote_host::session::SessionManager;
use remote_host::worker::{cadence_delay, start_screen_capture, CaptureWorker, WorkerState, FRAME_INTERVAL_NANOS};

fn solid_frame(width: u32, height: u32) -> RawFrame {
    let mut pixels = Vec::new();
    for _ in 0..(width * height) {
        pixels.extend_from_slice(&[200, 30, 90, 255]);
    }
    RawFrame { width, height, pixels }
}

#[test]
fn epochs_strictly_increase() {
    let mut s = SessionManager::new();
    let a = s.begin_session();
    let b = s.begin_session();
    let c = s.begin_session();
    assert_eq!((a, b, c), (1, 2, 3));
    assert!(s.is_current(3));
    assert!(!s.is_current(2));
}

#[test]
fn only_the_latest_worker_stays_active() {
    let mut s = SessionManager::new();
    let mut w1 = start_screen_capture(&mut s, 0);
    let mut w2 = start_screen_capture(&mut s, 0);
    let mut w3 = start_screen_capture(&mut s, 1);
    let live = s.current;
    assert!(!w1.observe_epoch(live));
    assert!(!w2.observe_epoch(live));
    assert!(w3.observe_epoch(live));
    assert_eq!(w1.state, WorkerState::Superseded);
    assert_eq!(w3.monitor_index, 1);
    let frame = solid_frame(4, 4);
    assert_eq!(w1.prepare_delivery(&frame), None);
    assert_eq!(w2.prepare_delivery(&frame), None);
    assert!(w3.prepare_delivery(&frame).is_some());
    // A superseded worker never becomes live again.
    assert!(!w1.observe_epoch(w1.epoch));
}

#[test]
fn a_refused_delivery_closes_the_session() {
    let mut w = CaptureWorker::new(5, 0);
    w.record_delivery(true);
    assert!(w.is_active());
    w.record_delivery(false);
    assert_eq!(w.state, WorkerState::SinkClosed);
    assert!(!w.observe_epoch(5));
    w.record_delivery(true);
    assert_eq!(w.state, WorkerState::SinkClosed);
}

#[test]
fn worker_targets_its_display_or_the_first() {
    let m = vec![
        MonitorDescriptor { index: 0, origin_x: 0, origin_y: 0, width: 800, height: 600 },
        MonitorDescriptor { index: 1, origin_x: 800, origin_y: 0, width: 1024, height: 768 },
    ];
    assert_eq!(CaptureWorker::new(1, 1).target_monitor(&m), Some(m[1]));
    assert_eq!(CaptureWorker::new(1, 7).target_monitor(&m), Some(m[0]));
    assert_eq!(CaptureWorker::new(1, 0).target_monitor(&Vec::new()), None);
}

#[test]
fn cadence_sleeps_the_rest_of_the_interval() {
    assert_eq!(FRAME_INTERVAL_NANOS, 33_000_000);
    assert_eq!(cadence_delay(0), 33_000_000);
    assert_eq!(cadence_delay(10_000_000), 23_000_000);
    assert_eq!(cadence_delay(33_000_000), 0);
    assert_eq!(cadence_delay(50_000_000), 0);
    for elapsed in [0u128, 1, 32_999_999, 33_000_000, 40_000_000] {
        assert!(elapsed + cadence_delay(elapsed) >= 33_000_000);
    }
}

#[test]
fn encoding_keeps_the_dimensions() {
    let raw = solid_frame(37, 21);
    let encoded = encode(&raw).unwrap();
    let bytes = base64::engine::general_purpose::STANDARD.decode(&encoded.text).unwrap();
    assert_eq!(bytes, encoded.jpeg);
    let img = image::load_from_memory_with_format(&bytes, image::ImageFormat::Jpeg).unwrap();
    assert_eq!(img.dimensions(), (37, 21));
}

#[test]
fn encoded_text_is_base64_of_jpeg() {
    let encoded = encode(&solid_frame(8, 8)).unwrap();
    assert_eq!(&encoded.jpeg[0..2], &[0xFF, 0xD8]);
    assert_ne!(encoded.text.as_bytes(), encoded.jpeg.as_slice());
    assert_eq!(encoded.text, base64::engine::general_purpose::STANDARD.encode(&encoded.jpeg));
}

#[test]
fn malformed_buffer_is_refused() {
    let mut raw = solid_frame(4, 4);
    raw.pixels.pop();
    assert_eq!(encode(&raw).err(), Some(EncodeError::MalformedBuffer));
    let raw = RawFrame { width: 2, height: 2, pixels: vec![0; 12] };
    assert_eq!(encode(&raw).err(), Some(EncodeError::MalformedBuffer));
}

#[test]
fn oversized_frame_is_refused_by_the_encoder() {
    let raw = RawFrame { width: 70_000, height: 1, pixels: vec![0; 280_000] };
    assert_eq!(encode(&raw).err(), Some(EncodeError::Backend));
}

#[test]
fn encoded_text_is_padded_standard_base64() {
    let encoded = encode(&solid_frame(3, 5)).unwrap();
    assert_eq!(encoded.text.len(), 4 * ((encoded.jpeg.len() + 2) / 3));
    assert!(encoded.text.chars().all(|c| c.is_ascii_alphanumeric() || c == '+' || c == '/' || c == '='));
}

#[test]
fn every_frame_within_jpeg_limits_is_encoded() {
    assert!(encode(&solid_frame(1, 1)).is_ok());
    let wide = RawFrame { width: 65_535, height: 1, pixels: vec![7; 65_535 * 4] };
    assert!(encode(&wide).is_ok());
    let w = CaptureWorker::new(1, 0);
    assert!(w.prepare_delivery(&wide).is_some());
}
