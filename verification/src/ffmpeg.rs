//! The other way to capture: `ffmpeg` reads the sound server and writes
//! the stream to its standard output.

use vstd::prelude::*;
use vstd::string::StringExecFns;

verus! {

/// The program that captures.
pub const FFMPEG_PROGRAM: &'static str = "ffmpeg";

/// The device that `ffmpeg` reads where the request names none.
pub const DEFAULT_SOURCE: &'static str = "default";

/// The arguments that make `ffmpeg` read `source` from the sound server and
/// write signed 16-bit samples, little-endian, in stereo at 44100 Hz, to
/// its standard output.
pub open spec fn arguments_for(source: Seq<char>) -> Seq<Seq<char>> {
    seq![
        "-f"@,
        "pulse"@,
        "-i"@,
        source,
        "-f"@,
        "s16le"@,
        "-acodec"@,
        "pcm_s16le"@,
        "-ar"@,
        "44100"@,
        "-ac"@,
        "2"@,
        "-"@,
    ]
}

/// The arguments of the capture from `device_name`, or from
/// `DEFAULT_SOURCE` where the request names no device.
pub fn ffmpeg_arguments(device_name: Option<String>) -> (arguments: Vec<String>)
    ensures
        arguments.deep_view() == arguments_for(
            match device_name {
                Some(name) => name@,
                None => DEFAULT_SOURCE@,
            },
        ),
{
    let source = match device_name {
        Some(name) => name,
        None => String::from_str(DEFAULT_SOURCE),
    };
    let mut arguments: Vec<String> = Vec::new();
    arguments.push(String::from_str("-f"));
    arguments.push(String::from_str("pulse"));
    arguments.push(String::from_str("-i"));
    arguments.push(source);
    arguments.push(String::from_str("-f"));
    arguments.push(String::from_str("s16le"));
    arguments.push(String::from_str("-acodec"));
    arguments.push(String::from_str("pcm_s16le"));
    arguments.push(String::from_str("-ar"));
    arguments.push(String::from_str("44100"));
    arguments.push(String::from_str("-ac"));
    arguments.push(String::from_str("2"));
    arguments.push(String::from_str("-"));
    arguments
}

} // verus!
