use usb_capture::session::{update_stats, CaptureError, CaptureState};

#[test]
fn fresh_session_is_idle_and_zeroed() {
    let s = CaptureState::new();
    assert!(!s.is_capturing);
    assert_eq!(s.selected_device_vendor_id, 0);
    assert_eq!(s.selected_device_product_id, 0);
    assert_eq!(s.packet_counter, 0);
    assert_eq!(s.bytes_received, 0);
    assert_eq!(s.bytes_sent, 0);
}

#[test]
fn poll_cadence_over_fifteen_polls() {
    let mut s = CaptureState::new();
    assert_eq!(s.start(0x1A2B, 0x3C4D), Ok(()));
    for k in 1..=15u64 {
        let counter_before = s.packet_counter;
        let packets = s.poll(1000 + k);
        let receive_fired = (k - 1) % 3 == 0;
        let send_fired = (k - 1) % 5 == 0;
        let expected_len = (receive_fired as usize) + (send_fired as usize);
        assert_eq!(packets.len(), expected_len);
        if receive_fired {
            assert_eq!(packets[0].packet_type, 0);
            assert_eq!(packets[0].data_length, 16);
            assert_eq!(packets[0].timestamp, 1000 + k);
        }
        if send_fired {
            let p = &packets[packets.len() - 1];
            assert_eq!(p.packet_type, 1);
            assert_eq!(p.data_length, 8);
            assert_eq!(p.timestamp, 1000 + k);
        }
        assert_eq!(s.packet_counter, counter_before + 1);
        assert_eq!(s.packet_counter, k);
    }
    // Receive fired at counters 0,3,6,9,12; Send at 0,5,10.
    assert_eq!(s.bytes_received, 16 * 5);
    assert_eq!(s.bytes_sent, 8 * 3);
}

#[test]
fn first_poll_emits_receive_before_send() {
    let mut s = CaptureState::new();
    assert_eq!(s.start(1, 2), Ok(()));
    let packets = s.poll(7);
    assert_eq!(packets.len(), 2);
    assert_eq!(packets[0].packet_type, 0);
    assert_eq!(packets[1].packet_type, 1);
    assert_eq!(packets[0].timestamp, 7);
    assert_eq!(packets[1].timestamp, 7);
}

#[test]
fn start_while_capturing_changes_nothing() {
    let mut s = CaptureState::new();
    assert_eq!(s.start(0x1111, 0x2222), Ok(()));
    let _ = s.poll(1);
    let before = s;
    assert_eq!(s.start(0x3333, 0x4444), Err(CaptureError::AlreadyCapturing));
    assert_eq!(s.selected_device_vendor_id, 0x1111);
    assert_eq!(s.selected_device_product_id, 0x2222);
    assert_eq!(s.packet_counter, before.packet_counter);
    assert_eq!(s.bytes_received, before.bytes_received);
    assert_eq!(s.bytes_sent, before.bytes_sent);
    assert!(s.is_capturing);
}

#[test]
fn stop_keeps_counters_and_poll_after_stop_is_inert() {
    let mut s = CaptureState::new();
    assert_eq!(s.start(1, 2), Ok(()));
    let _ = s.poll(1);
    let counter = s.packet_counter;
    let received = s.bytes_received;
    assert_eq!(s.stop(), Ok(()));
    assert!(!s.is_capturing);
    assert_eq!(s.packet_counter, counter);
    assert_eq!(s.bytes_received, received);
    let packets = s.poll(2);
    assert!(packets.is_empty());
    assert_eq!(s.packet_counter, counter);
}

#[test]
fn stop_when_idle_reports_not_capturing() {
    let mut s = CaptureState::new();
    assert_eq!(s.stop(), Err(CaptureError::NotCapturing));
}

#[test]
fn cleanup_while_capturing_then_stop_reports_not_capturing() {
    let mut s = CaptureState::new();
    assert_eq!(s.start(5, 6), Ok(()));
    let _ = s.poll(1);
    let counter = s.packet_counter;
    s.force_idle();
    assert!(!s.is_capturing);
    assert_eq!(s.packet_counter, counter);
    assert_eq!(s.stop(), Err(CaptureError::NotCapturing));
}

#[test]
fn restart_keeps_cumulative_counters() {
    let mut s = CaptureState::new();
    assert_eq!(s.start(1, 2), Ok(()));
    let _ = s.poll(1);
    assert_eq!(s.stop(), Ok(()));
    assert_eq!(s.start(3, 4), Ok(()));
    assert_eq!(s.packet_counter, 1);
    assert_eq!(s.bytes_received, 16);
    assert_eq!(s.selected_device_vendor_id, 3);
    // Counter is 1: neither divisible by 3 nor 5, so this poll is silent.
    let packets = s.poll(2);
    assert!(packets.is_empty());
    assert_eq!(s.packet_counter, 2);
}

#[test]
fn stats_snapshot_matches_fields() {
    let mut s = CaptureState::new();
    assert_eq!(s.start(1, 2), Ok(()));
    let _ = s.poll(1);
    let st = s.stats();
    assert_eq!(st.packet_counter, 1);
    assert_eq!(st.bytes_received, 16);
    assert_eq!(st.bytes_sent, 8);
    assert!(st.is_capturing);
}

#[test]
fn update_stats_counts_by_type() {
    let mut s = CaptureState::new();
    update_stats(&mut s, 0, 64);
    assert_eq!(s.packet_counter, 1);
    assert_eq!(s.bytes_received, 64);
    assert_eq!(s.bytes_sent, 0);
    update_stats(&mut s, 1, 32);
    assert_eq!(s.packet_counter, 2);
    assert_eq!(s.bytes_received, 64);
    assert_eq!(s.bytes_sent, 32);
    update_stats(&mut s, 2, 99);
    assert_eq!(s.packet_counter, 3);
    assert_eq!(s.bytes_received, 64);
    assert_eq!(s.bytes_sent, 32);
}
