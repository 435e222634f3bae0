use aurelay_engine::bridge::{c_string_image, device_lines, stream_port, DEFAULT_MODE_NAME};
use aurelay_engine::models::TransportMode;
use aurelay_engine::ffmpeg::{ffmpeg_arguments, DEFAULT_SOURCE, FFMPEG_PROGRAM};
use aurelay_engine::models::DeviceInfo;

fn written(text: &str, capacity: usize) -> Option<Vec<u8>> {
    let mut buffer = vec![0xaau8; capacity];
    let image = c_string_image(text, capacity)?;
    assert!(image.len() <= capacity);
    buffer[..image.len()].copy_from_slice(&image);
    Some(buffer)
}

#[test]
fn a_text_with_room_is_followed_by_two_zeros() {
    assert_eq!(c_string_image("abc", 10), Some(vec![b'a', b'b', b'c', 0, 0]));
    assert_eq!(c_string_image("abc", 5), Some(vec![b'a', b'b', b'c', 0, 0]));
    assert_eq!(c_string_image("", 2), Some(vec![0, 0]));
    assert_eq!(written("abc", 6), Some(vec![b'a', b'b', b'c', 0, 0, 0xaa]));
}

#[test]
fn a_text_that_just_fits_is_followed_by_one_zero() {
    assert_eq!(c_string_image("abc", 4), Some(vec![b'a', b'b', b'c', 0]));
    assert_eq!(c_string_image("", 1), Some(vec![0]));
}

#[test]
fn a_text_without_room_is_cut() {
    assert_eq!(c_string_image("abc", 3), Some(vec![b'a', b'b', 0]));
    assert_eq!(c_string_image("abc", 2), Some(vec![b'a', 0]));
    assert_eq!(c_string_image("abc", 1), Some(vec![0]));
    assert_eq!(c_string_image("timeout", 4), Some(b"tim\0".to_vec()));
    assert_eq!(c_string_image("é", 2), Some(vec![0xc3, 0]));
}

#[test]
fn what_cannot_be_written_is_refused() {
    assert_eq!(c_string_image("abc", 0), None);
    assert_eq!(c_string_image("", 0), None);
    assert_eq!(c_string_image("a\0b", 10), None);
    assert_eq!(c_string_image("\0", 10), None);
    assert_eq!(c_string_image("abc\0", 2), None);
    assert_eq!(c_string_image("abcdef\0", 3), None);
}

#[test]
fn the_buffer_ends_as_a_copy_with_a_terminator_would() {
    for text in ["", "a", "accepted", "192.168.1.50:5000;TV\n10.0.0.1:5000;PC"] {
        for capacity in 1..40usize {
            let mut expected = vec![0xaau8; capacity];
            let mut bytes = text.as_bytes().to_vec();
            bytes.push(0);
            let copy_len = std::cmp::min(bytes.len(), capacity);
            expected[..copy_len].copy_from_slice(&bytes[..copy_len]);
            if copy_len < capacity {
                expected[copy_len] = 0;
            } else {
                expected[capacity - 1] = 0;
            }
            assert_eq!(written(text, capacity), Some(expected));
        }
    }
}

#[test]
fn ports_default_to_the_stream_port() {
    assert_eq!(stream_port(0), 5000);
    assert_eq!(stream_port(-1), 5000);
    assert_eq!(stream_port(i32::MIN), 5000);
    assert_eq!(stream_port(1), 1);
    assert_eq!(stream_port(5001), 5001);
    assert_eq!(stream_port(65535), 65535);
    assert_eq!(stream_port(65536), 0);
    assert_eq!(stream_port(70000), 4464);
    assert_eq!(stream_port(i32::MAX), 65535);
    for port in [1i32, 80, 65535, 65536, 65537, 131072, 1_000_000] {
        assert_eq!(stream_port(port), port as u16);
    }
}

#[test]
fn devices_are_shown_one_per_line() {
    let device = |name: &str, is_monitor: bool| DeviceInfo {
        name: name.to_string(),
        index: 0,
        is_monitor,
        is_default: false,
    };
    let devices = vec![device("pulse", false), device("out.monitor", true), device("mic", false)];
    assert_eq!(device_lines(&devices), "pulse\n[Monitor] out.monitor\nmic");
    assert_eq!(device_lines(&Vec::new()), "");
    assert_eq!(device_lines(&vec![device("x", true)]), "[Monitor] x");
}

#[test]
fn ffmpeg_reads_the_named_source() {
    assert_eq!(FFMPEG_PROGRAM, "ffmpeg");
    assert_eq!(DEFAULT_SOURCE, "default");
    assert_eq!(
        ffmpeg_arguments(Some("alsa_output.monitor".to_string())),
        vec![
            "-f", "pulse", "-i", "alsa_output.monitor", "-f", "s16le", "-acodec", "pcm_s16le",
            "-ar", "44100", "-ac", "2", "-",
        ]
    );
    let unnamed = ffmpeg_arguments(None);
    assert_eq!(unnamed.len(), 13);
    assert_eq!(unnamed[3], "default");
    assert_eq!(ffmpeg_arguments(Some(String::new()))[3], "");
}

#[test]
fn the_default_mode_is_tcp() {
    assert_eq!(DEFAULT_MODE_NAME, "tcp_only");
    assert_eq!(TransportMode::from_str(DEFAULT_MODE_NAME), Some(TransportMode::TcpOnly));
}
