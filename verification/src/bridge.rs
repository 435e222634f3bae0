//! What the engine hands to a host in C: texts in buffers that the host
//! owns, and the defaults for what the host leaves out.

use crate::models::{DeviceInfo, DeviceInfoView, DEFAULT_STREAM_PORT};
use crate::text::{join, joined};
use vstd::prelude::*;
use vstd::string::{StrSliceExecFns, StringExecFns};
use vstd::utf8::encode_utf8;

verus! {

/// The name of the mode of a stream request that names none.
pub const DEFAULT_MODE_NAME: &'static str = "tcp_only";

/// What a buffer of `capacity` bytes holds, from its start, once a text is
/// written into it. The text is followed by a zero byte. Where there is
/// room, a second zero byte follows; where there is not even room for the
/// first, the text is cut so that the last byte of the buffer is zero. A
/// text that holds a zero byte cannot be written, nor can anything be
/// written into a buffer without room.
pub open spec fn c_image(text: Seq<u8>, capacity: nat) -> Option<Seq<u8>> {
    if capacity == 0 || text.contains(0u8) {
        None
    } else if text.len() + 1 < capacity {
        Some(text.push(0u8).push(0u8))
    } else {
        Some(text.take(capacity - 1).push(0u8))
    }
}

/// Whatever is written fits the buffer and ends in a zero byte, and before
/// its first zero byte stands the text, as far as there is room for it: the
/// buffer always holds a C string that is a beginning of the text.
pub proof fn lemma_c_image_is_terminated(text: Seq<u8>, capacity: nat)
    requires
        c_image(text, capacity).is_some(),
    ensures
        ({
            let image = c_image(text, capacity).unwrap();
            let kept = if text.len() < capacity {
                text.len() as int
            } else {
                capacity - 1
            };
            &&& 1 <= image.len() <= capacity
            &&& image.last() == 0u8
            &&& image.take(kept) == text.take(kept)
            &&& image[kept] == 0u8
            &&& forall|i: int| 0 <= i < kept ==> image[i] != 0u8
        }),
{
    let image = c_image(text, capacity).unwrap();
    let kept = if text.len() < capacity {
        text.len() as int
    } else {
        capacity - 1
    };
    assert forall|i: int| 0 <= i < kept implies image[i] != 0u8 by {}
}

/// The bytes to put at the start of a buffer of `capacity` bytes so that it
/// holds `text` as a C string, or `None` where that cannot be done.
pub fn c_string_image(text: &str, capacity: usize) -> (image: Option<Vec<u8>>)
    ensures
        match c_image(encode_utf8(text@), capacity as nat) {
            Some(expected) => image.is_some() && image.unwrap()@ == expected,
            None => image.is_none(),
        },
        image.is_some() ==> image.unwrap()@.len() <= capacity,
{
    if capacity == 0 {
        return None;
    }
    let bytes = text.as_bytes();
    let mut image: Vec<u8> = Vec::new();
    let mut i: usize = 0;
    while i < bytes.len()
        invariant
            0 < capacity,
            i <= bytes.len(),
            bytes@ == encode_utf8(text@),
            forall|k: int| 0 <= k < i ==> bytes@[k] != 0u8,
            i <= capacity - 1 ==> image@ == bytes@.take(i as int),
            i > capacity - 1 ==> image@ == bytes@.take(capacity - 1),
        decreases bytes.len() - i,
    {
        if bytes[i] == 0 {
            return None;
        }
        if i < capacity - 1 {
            image.push(bytes[i]);
        }
        i = i + 1;
    }
    image.push(0);
    if bytes.len() < capacity - 1 {
        image.push(0);
    }
    Some(image)
}

/// The stream port that a host asks for: the number it gives, cut to 16
/// bits, or `DEFAULT_STREAM_PORT` where the number is not positive.
pub open spec fn port_or_default(port: i32) -> u16 {
    if port <= 0 {
        DEFAULT_STREAM_PORT
    } else {
        (port % 65536) as u16
    }
}

/// The stream port that a host asks for.
pub fn stream_port(port: i32) -> (chosen: u16)
    ensures
        chosen == port_or_default(port),
{
    if port <= 0 {
        DEFAULT_STREAM_PORT
    } else {
        (port % 65536) as u16
    }
}

/// The line that shows a device to the host: its name, behind `[Monitor] `
/// where it is a monitor.
pub open spec fn device_line(device: DeviceInfoView) -> Seq<char> {
    if device.is_monitor {
        "[Monitor] "@ + device.name
    } else {
        device.name
    }
}

/// The lines that show a list of devices.
pub open spec fn device_lines_of(devices: Seq<DeviceInfoView>) -> Seq<Seq<char>> {
    Seq::new(devices.len(), |i: int| device_line(devices[i]))
}

/// The list of devices as the host shows it: one line each.
pub fn device_lines(devices: &Vec<DeviceInfo>) -> (text: String)
    ensures
        text@ == joined(device_lines_of(devices.deep_view()), seq!['\n']),
{
    let mut lines: Vec<String> = Vec::new();
    let mut i: usize = 0;
    while i < devices.len()
        invariant
            i <= devices.len(),
            lines.deep_view() == device_lines_of(devices.deep_view().take(i as int)),
        decreases devices.len() - i,
    {
        let ghost before = lines.deep_view();
        let line = if devices[i].is_monitor {
            String::from_str("[Monitor] ").concat(devices[i].name.as_str())
        } else {
            devices[i].name.clone()
        };
        let ghost added = line@;
        lines.push(line);
        assert(lines.deep_view() =~= before.push(added));
        i = i + 1;
    }
    assert(devices.deep_view().take(i as int) =~= devices.deep_view());
    proof {
        reveal_strlit("\n");
        assert("\n"@ =~= seq!['\n']);
    }
    join(&lines, "\n")
}

} // verus!
