use tauri_runtime_cef::audio_channel::{SendOutcome, Subscriber, SUBSCRIBER_SLOTS};
use tauri_runtime_cef::audio_tap_registry::{
    get_channels, get_sample_rate, push_audio_data, push_chunk, register_audio_tap, settle_send,
    snapshot_ring_buffer, subscribe_audio, unregister_audio_tap, AudioTapState, AudioTaps,
};
use tauri_runtime_cef::downmix::{downmix, downmix_packet, packet_shape, Arithmetic};
use tauri_runtime_cef::ring_buffer::{copy_samples, slide, RING_MAX};

fn add(sum: f32, sample: f32) -> f32 {
    sum + sample
}

fn divide(sum: f32, channels: usize) -> f32 {
    sum / channels as f32
}

fn floats() -> Arithmetic<f32, fn(f32, f32) -> f32, fn(f32, usize) -> f32> {
    Arithmetic {
        zero: 0.0,
        add,
        divide,
    }
}

fn push_plane(taps: &mut AudioTaps<f32>, id: i32, plane: &[f32]) -> Option<SendOutcome> {
    let planes = [Some(plane)];
    push_audio_data(taps, id, Some(&planes), plane.len() as i32, 1, &floats())
}

#[test]
fn unknown_tap_has_nothing() {
    let mut taps: AudioTaps<f32> = AudioTaps::new();
    assert_eq!(get_channels(&taps, 1), None);
    assert_eq!(get_sample_rate(&taps, 1), None);
    assert!(snapshot_ring_buffer(&taps, 1).is_empty());
    assert!(subscribe_audio(&mut taps, 1).is_none());
    assert_eq!(push_plane(&mut taps, 1, &[1.0]), None);
    unregister_audio_tap(&mut taps, 1);
    assert_eq!(get_channels(&taps, 1), None);
}

#[test]
fn registered_tap_reads_back() {
    let mut taps: AudioTaps<f32> = AudioTaps::new();
    register_audio_tap(&mut taps, 7, 48_000, 2);
    assert_eq!(get_sample_rate(&taps, 7), Some(48_000));
    assert_eq!(get_channels(&taps, 7), Some(2));
    assert!(snapshot_ring_buffer(&taps, 7).is_empty());
    register_audio_tap(&mut taps, 7, 44_100, 6);
    assert_eq!(get_sample_rate(&taps, 7), Some(44_100));
    assert_eq!(get_channels(&taps, 7), Some(6));
    assert_eq!(get_channels(&taps, 8), None);
}

#[test]
fn taps_of_two_browsers_are_separate() {
    let mut taps: AudioTaps<f32> = AudioTaps::new();
    register_audio_tap(&mut taps, 1, 48_000, 1);
    register_audio_tap(&mut taps, 2, 16_000, 2);
    push_plane(&mut taps, 1, &[0.5]);
    unregister_audio_tap(&mut taps, 2);
    assert_eq!(snapshot_ring_buffer(&taps, 1), vec![0.5]);
    assert!(snapshot_ring_buffer(&taps, 2).is_empty());
    assert_eq!(get_sample_rate(&taps, 1), Some(48_000));
    assert_eq!(push_plane(&mut taps, 1, &[0.25]), None);
    assert_eq!(snapshot_ring_buffer(&taps, 1), vec![0.5, 0.25]);
}

#[test]
fn packet_is_averaged_across_channels() {
    let mut taps: AudioTaps<f32> = AudioTaps::new();
    register_audio_tap(&mut taps, 3, 48_000, 2);
    let left = [1.0f32, 0.5, -1.0];
    let right = [0.0f32, 0.5, -0.5];
    let planes = [Some(&left[..]), Some(&right[..])];
    assert_eq!(push_audio_data(&mut taps, 3, Some(&planes), 3, 2, &floats()), None);
    assert_eq!(snapshot_ring_buffer(&taps, 3), vec![0.5, 0.5, -0.75]);
}

#[test]
fn missing_plane_still_counts_as_channel() {
    let left = [1.0f32, 2.0];
    let planes = [Some(&left[..]), None];
    assert_eq!(downmix(&floats(), &planes, 2, 2), vec![0.5, 1.0]);
    let nothing: [Option<&[f32]>; 2] = [None, None];
    assert_eq!(downmix(&floats(), &nothing, 2, 2), vec![0.0, 0.0]);
}

#[test]
fn planes_are_summed_in_channel_order() {
    let arithmetic = Arithmetic {
        zero: 0u32,
        add: |sum: u32, sample: u32| sum * 10 + sample,
        divide: |sum: u32, channels: usize| sum * 1000 + channels as u32,
    };
    let planes = [Some(&[1u32, 4][..]), None, Some(&[2u32, 5, 9][..]), Some(&[3u32, 6][..])];
    assert_eq!(downmix(&arithmetic, &planes, 2, 4), vec![123_004, 456_004]);
    assert_eq!(downmix(&arithmetic, &planes, 1, 1), vec![1_001]);
    assert_eq!(downmix(&arithmetic, &planes, 0, 4), Vec::<u32>::new());
}

#[test]
fn packet_is_downmixed_where_it_holds_samples() {
    let left = [1.0f32, 2.0];
    let planes = [Some(&left[..]), None];
    assert_eq!(downmix_packet(&floats(), Some(&planes), 2, 2), Some(vec![0.5, 1.0]));
    assert_eq!(downmix_packet(&floats(), Some(&planes), 0, 2), None);
    assert_eq!(downmix_packet(&floats(), Some(&planes), 2, -2), None);
    assert_eq!(downmix_packet(&floats(), None, 2, 2), None);
}

#[test]
fn cutting_a_packet_in_two_does_not_show() {
    let left = [1.0f32, 2.0, 3.0, 4.0, 5.0];
    let right = [5.0f32, 4.0, 4.0, 2.0, 0.0];
    let whole = [Some(&left[..]), None, Some(&right[..])];
    let first = [Some(&left[..2]), None, Some(&right[..2])];
    let second = [Some(&left[2..]), None, Some(&right[2..])];
    let mut parts = downmix(&floats(), &first, 2, 3);
    parts.extend(downmix(&floats(), &second, 3, 3));
    assert_eq!(downmix(&floats(), &whole, 5, 3), parts);
    let mut one: AudioTaps<f32> = AudioTaps::new();
    register_audio_tap(&mut one, 1, 48_000, 3);
    push_audio_data(&mut one, 1, Some(&whole), 5, 3, &floats());
    let mut two: AudioTaps<f32> = AudioTaps::new();
    register_audio_tap(&mut two, 1, 48_000, 3);
    push_audio_data(&mut two, 1, Some(&first), 2, 3, &floats());
    push_audio_data(&mut two, 1, Some(&second), 3, 3, &floats());
    assert_eq!(snapshot_ring_buffer(&one, 1), snapshot_ring_buffer(&two, 1));
}

#[test]
fn chunks_are_pushed() {
    let mut taps: AudioTaps<f32> = AudioTaps::new();
    assert_eq!(push_chunk(&mut taps, 4, vec![1.0]), None);
    register_audio_tap(&mut taps, 4, 48_000, 1);
    assert_eq!(push_chunk(&mut taps, 4, vec![1.0]), None);
    let receiver = subscribe_audio(&mut taps, 4).unwrap();
    assert_eq!(push_chunk(&mut taps, 4, vec![2.0, 3.0]), Some(SendOutcome::Sent));
    assert_eq!(receiver.recv(), Ok(vec![2.0, 3.0]));
    assert_eq!(snapshot_ring_buffer(&taps, 4), vec![1.0, 2.0, 3.0]);
    unregister_audio_tap(&mut taps, 4);
    assert_eq!(push_chunk(&mut taps, 4, vec![4.0]), None);
}

#[test]
fn packet_without_samples_is_ignored() {
    let mut taps: AudioTaps<f32> = AudioTaps::new();
    register_audio_tap(&mut taps, 3, 48_000, 1);
    push_plane(&mut taps, 3, &[0.5]);
    let plane = [1.0f32];
    let planes = [Some(&plane[..])];
    assert_eq!(push_audio_data(&mut taps, 3, Some(&planes), 0, 1, &floats()), None);
    assert_eq!(push_audio_data(&mut taps, 3, Some(&planes), -1, 1, &floats()), None);
    assert_eq!(push_audio_data(&mut taps, 3, Some(&planes), 1, 0, &floats()), None);
    assert_eq!(push_audio_data(&mut taps, 3, Some(&planes), 1, -4, &floats()), None);
    assert_eq!(push_audio_data(&mut taps, 3, None, 1, 1, &floats()), None);
    assert_eq!(snapshot_ring_buffer(&taps, 3), vec![0.5]);
}

#[test]
fn packet_shape_needs_frames_and_channels() {
    assert_eq!(packet_shape(480, 2), Some((480, 2)));
    assert_eq!(packet_shape(1, 1), Some((1, 1)));
    assert_eq!(packet_shape(0, 2), None);
    assert_eq!(packet_shape(480, 0), None);
    assert_eq!(packet_shape(-480, 2), None);
    assert_eq!(packet_shape(i32::MAX, i32::MAX), Some((2_147_483_647, 2_147_483_647)));
}

#[test]
fn unregistered_tap_takes_no_packets() {
    let mut taps: AudioTaps<f32> = AudioTaps::new();
    register_audio_tap(&mut taps, 5, 48_000, 1);
    let receiver = subscribe_audio(&mut taps, 5).unwrap();
    assert_eq!(push_plane(&mut taps, 5, &[0.5]), Some(SendOutcome::Sent));
    unregister_audio_tap(&mut taps, 5);
    unregister_audio_tap(&mut taps, 5);
    assert_eq!(push_plane(&mut taps, 5, &[1.0]), None);
    assert_eq!(get_sample_rate(&taps, 5), Some(48_000));
    assert_eq!(get_channels(&taps, 5), Some(1));
    assert_eq!(receiver.recv(), Ok(vec![0.5]));
    assert!(receiver.recv().is_err());
    register_audio_tap(&mut taps, 5, 48_000, 1);
    assert_eq!(snapshot_ring_buffer(&taps, 5), vec![0.5]);
}

#[test]
fn unregistered_tap_has_no_subscribers() {
    let mut taps: AudioTaps<f32> = AudioTaps::new();
    register_audio_tap(&mut taps, 5, 48_000, 2);
    unregister_audio_tap(&mut taps, 5);
    assert!(subscribe_audio(&mut taps, 5).is_none());
    register_audio_tap(&mut taps, 5, 48_000, 2);
    assert!(subscribe_audio(&mut taps, 5).is_some());
}

#[test]
fn unregistered_tap_has_an_empty_snapshot() {
    let mut taps: AudioTaps<f32> = AudioTaps::new();
    register_audio_tap(&mut taps, 6, 48_000, 1);
    push_plane(&mut taps, 6, &[0.5]);
    unregister_audio_tap(&mut taps, 6);
    assert!(snapshot_ring_buffer(&taps, 6).is_empty());
}

#[test]
fn chunk_is_offered_once_and_to_its_own_subscriber() {
    let mut taps: AudioTaps<f32> = AudioTaps::new();
    register_audio_tap(&mut taps, 1, 48_000, 1);
    register_audio_tap(&mut taps, 2, 48_000, 1);
    let first = subscribe_audio(&mut taps, 1).unwrap();
    let second = subscribe_audio(&mut taps, 2).unwrap();
    assert_eq!(push_plane(&mut taps, 1, &[0.5, 1.0]), Some(SendOutcome::Sent));
    assert_eq!(push_plane(&mut taps, 1, &[2.0]), Some(SendOutcome::Sent));
    assert_eq!(push_audio_data(&mut taps, 1, None, 1, 1, &floats()), None);
    let received: Vec<Vec<f32>> = first.try_iter().collect();
    assert_eq!(received, vec![vec![0.5, 1.0], vec![2.0]]);
    assert!(second.try_recv().is_err());
}

#[test]
fn tap_registered_anew_resumes_its_buffer() {
    let mut taps: AudioTaps<f32> = AudioTaps::new();
    register_audio_tap(&mut taps, 5, 48_000, 1);
    push_plane(&mut taps, 5, &[0.5]);
    unregister_audio_tap(&mut taps, 5);
    register_audio_tap(&mut taps, 5, 16_000, 2);
    assert_eq!(push_plane(&mut taps, 5, &[1.0]), None);
    assert_eq!(snapshot_ring_buffer(&taps, 5), vec![0.5, 1.0]);
    assert_eq!(get_sample_rate(&taps, 5), Some(16_000));
}

#[test]
fn registering_again_keeps_the_subscriber() {
    let mut taps: AudioTaps<f32> = AudioTaps::new();
    register_audio_tap(&mut taps, 5, 48_000, 1);
    let receiver = subscribe_audio(&mut taps, 5).unwrap();
    register_audio_tap(&mut taps, 5, 16_000, 1);
    assert_eq!(push_plane(&mut taps, 5, &[0.5, 0.25]), Some(SendOutcome::Sent));
    assert_eq!(receiver.try_recv(), Ok(vec![0.5, 0.25]));
}

#[test]
fn last_subscription_counts() {
    let mut taps: AudioTaps<f32> = AudioTaps::new();
    register_audio_tap(&mut taps, 5, 48_000, 1);
    let first = subscribe_audio(&mut taps, 5).unwrap();
    let second = subscribe_audio(&mut taps, 5).unwrap();
    assert_eq!(push_plane(&mut taps, 5, &[0.5]), Some(SendOutcome::Sent));
    assert!(first.recv().is_err());
    assert_eq!(second.recv(), Ok(vec![0.5]));
}

#[test]
fn unread_chunks_outlive_the_registration() {
    let mut taps: AudioTaps<f32> = AudioTaps::new();
    register_audio_tap(&mut taps, 5, 48_000, 1);
    let receiver = subscribe_audio(&mut taps, 5).unwrap();
    push_plane(&mut taps, 5, &[1.0]);
    push_plane(&mut taps, 5, &[2.0]);
    unregister_audio_tap(&mut taps, 5);
    register_audio_tap(&mut taps, 5, 48_000, 1);
    assert_eq!(push_plane(&mut taps, 5, &[3.0]), None);
    assert_eq!(receiver.recv(), Ok(vec![1.0]));
    assert_eq!(receiver.recv(), Ok(vec![2.0]));
    assert_eq!(receiver.try_recv(), Err(std::sync::mpsc::TryRecvError::Disconnected));
}

#[test]
fn unread_chunks_outlive_the_subscription() {
    let mut taps: AudioTaps<f32> = AudioTaps::new();
    register_audio_tap(&mut taps, 5, 48_000, 1);
    let first = subscribe_audio(&mut taps, 5).unwrap();
    push_plane(&mut taps, 5, &[1.0]);
    let second = subscribe_audio(&mut taps, 5).unwrap();
    push_plane(&mut taps, 5, &[2.0]);
    assert_eq!(first.recv(), Ok(vec![1.0]));
    assert_eq!(first.try_recv(), Err(std::sync::mpsc::TryRecvError::Disconnected));
    assert_eq!(second.recv(), Ok(vec![2.0]));
}

#[test]
fn full_channel_drops_the_chunk_and_keeps_the_subscriber() {
    let mut taps: AudioTaps<f32> = AudioTaps::new();
    register_audio_tap(&mut taps, 5, 48_000, 1);
    let receiver = subscribe_audio(&mut taps, 5).unwrap();
    assert_eq!(SUBSCRIBER_SLOTS, 64);
    for i in 0..64 {
        assert_eq!(push_plane(&mut taps, 5, &[i as f32]), Some(SendOutcome::Sent));
    }
    assert_eq!(push_plane(&mut taps, 5, &[64.0]), Some(SendOutcome::Full));
    assert_eq!(receiver.recv(), Ok(vec![0.0]));
    assert_eq!(push_plane(&mut taps, 5, &[65.0]), Some(SendOutcome::Sent));
    let rest: Vec<Vec<f32>> = receiver.try_iter().collect();
    assert_eq!(rest.len(), 64);
    assert_eq!(rest[62], vec![63.0]);
    assert_eq!(rest[63], vec![65.0]);
    let ring = snapshot_ring_buffer(&taps, 5);
    assert_eq!(ring.len(), 66);
    assert_eq!(ring[64], 64.0);
}

#[test]
fn closed_channel_ends_the_subscription() {
    let mut taps: AudioTaps<f32> = AudioTaps::new();
    register_audio_tap(&mut taps, 5, 48_000, 1);
    drop(subscribe_audio(&mut taps, 5));
    assert_eq!(push_plane(&mut taps, 5, &[0.5]), Some(SendOutcome::Disconnected));
    assert_eq!(push_plane(&mut taps, 5, &[0.25]), None);
    assert_eq!(snapshot_ring_buffer(&taps, 5), vec![0.5, 0.25]);
}

#[test]
fn subscriber_takes_chunks_until_its_channel_is_full_or_closed() {
    let (mut subscriber, receiver) = Subscriber::new();
    for i in 0..64u32 {
        assert_eq!(subscriber.offer(vec![i]), SendOutcome::Sent);
    }
    assert_eq!(subscriber.offer(vec![64]), SendOutcome::Full);
    assert_eq!(receiver.recv(), Ok(vec![0]));
    drop(receiver);
    assert_eq!(subscriber.offer(vec![65]), SendOutcome::Disconnected);
}

#[test]
fn settling_a_send() {
    let (sender, _receiver) = Subscriber::new();
    let mut state = AudioTapState {
        sample_rate: 48_000,
        channels: 2,
        active: true,
        sender: Some(sender),
        ring_buffer: vec![0.5],
    };
    settle_send(&mut state, SendOutcome::Sent);
    assert!(state.sender.is_some());
    settle_send(&mut state, SendOutcome::Full);
    assert!(state.sender.is_some());
    settle_send(&mut state, SendOutcome::Disconnected);
    assert!(state.sender.is_none());
    assert!(state.active);
    assert_eq!(state.ring_buffer, vec![0.5]);
}

#[test]
fn ring_buffer_keeps_thirty_seconds() {
    assert_eq!(RING_MAX, 1_440_000);
    let mut ring: Vec<u32> = Vec::new();
    let first: Vec<u32> = (0..1_440_000).collect();
    slide(&mut ring, &first);
    assert_eq!(ring, first);
    slide(&mut ring, &vec![7, 8, 9]);
    assert_eq!(ring.len(), 1_440_000);
    assert_eq!(ring[0], 3);
    assert_eq!(ring[1_439_996], 1_439_999);
    assert_eq!(ring[1_439_997..], [7, 8, 9]);
}

#[test]
fn chunk_over_the_limit_is_cut_to_its_end() {
    let mut taps: AudioTaps<f32> = AudioTaps::new();
    register_audio_tap(&mut taps, 5, 48_000, 1);
    push_plane(&mut taps, 5, &[9.0]);
    let mut plane = vec![1.0f32; 1_440_002];
    plane[2] = 2.0;
    push_plane(&mut taps, 5, &plane);
    let ring = snapshot_ring_buffer(&taps, 5);
    assert_eq!(ring.len(), 1_440_000);
    assert_eq!(ring[0], 2.0);
    assert_eq!(ring[1], 1.0);
}

#[test]
fn cutting_a_stream_into_chunks_does_not_show() {
    let stream: Vec<u32> = (0..2_000_000).collect();
    let mut whole: Vec<u32> = vec![1, 2, 3];
    slide(&mut whole, &stream);
    let mut parts: Vec<u32> = vec![1, 2, 3];
    for chunk in stream.chunks(300_007) {
        slide(&mut parts, &chunk.to_vec());
    }
    assert_eq!(whole, parts);
    assert_eq!(copy_samples(&whole), parts);
}
