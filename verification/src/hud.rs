//! What a frame of the display shows, decided from the settings and the
//! latest telemetry. Drawing it is the caller's business.

use vstd::prelude::*;
use vstd::utf8::{decode_utf8, encode_utf8, encode_utf8_decode_utf8, valid_utf8};

use crate::cockpit::scan;
use crate::config::Config;
use crate::data::FlightData;
use crate::occlusion::occluded;
use crate::pattern::{pattern_group, search_group};
use crate::radar::{after_snapshot, well_keyed, RadarMemory};
use crate::text::string_from_utf8;

verus! {

/// Width of the text area in characters.
pub const TEXT_COLUMNS: usize = 42;

/// What one frame shows.
#[derive(Debug, Clone, Copy, PartialEq, Eq, Structural)]
pub enum Frame {
    /// The sample snapshot's text, and no contacts.
    Sample,
    /// The notice that no telemetry is coming in.
    NotConnected,
    /// Nothing: the pilot has ejected.
    Ejected,
    /// The tracked contacts, and the snapshot's text unless `text_hidden`.
    Live { text_hidden: bool },
}

/// Whether the snapshot's cockpit parameters report an ejection.
pub open spec fn has_ejected(data: FlightData) -> bool {
    match data.cp_params {
        Some(text) => scan(text@, false),
        None => false,
    }
}

/// The frame for these settings and this telemetry. The sample goes before
/// everything; an ejection hides all of a live frame; otherwise the text gives
/// way where the visibility policy says so.
pub open spec fn planned(config: Config, data: Option<&FlightData>, camera_angles: (i64, i64, i64))
    -> Frame {
    if config.show_sample_data {
        Frame::Sample
    } else {
        match data {
            None => Frame::NotConnected,
            Some(snapshot) => if has_ejected(*snapshot) {
                Frame::Ejected
            } else {
                Frame::Live {
                    text_hidden: occluded(
                        camera_angles.0 as int,
                        camera_angles.1 as int,
                        config.occlusion,
                    ),
                }
            },
        }
    }
}

/// Decides what the next frame shows and brings the contact table up to date
/// for it. The table takes in the snapshot exactly when the frame is a live
/// one. `camera_angles` is the direction of the pilot's head relative to the
/// airframe as pitch, yaw and roll in degrees; it is read for a live frame
/// only.
pub fn plan_frame(
    config: &Config,
    data: Option<&FlightData>,
    camera_angles: (i64, i64, i64),
    radar_memory: &mut RadarMemory,
) -> (frame: Frame)
    ensures
        frame == planned(*config, data, camera_angles),
        final(radar_memory)@ == if frame is Live {
            after_snapshot(
                old(radar_memory)@,
                data->0.time,
                data->0.targets@,
                data->0.wingmen@,
            )
        } else {
            old(radar_memory)@
        },
        well_keyed(old(radar_memory)@) ==> well_keyed(final(radar_memory)@),
{
    if config.show_sample_data {
        return Frame::Sample;
    }
    match data {
        None => Frame::NotConnected,
        Some(snapshot) => {
            let ejected = match snapshot.parse_cockpit_params() {
                Some(params) => params.ejected,
                None => false,
            };
            if ejected {
                Frame::Ejected
            } else {
                radar_memory.apply_snapshot(snapshot);
                Frame::Live { text_hidden: FlightData::is_occluded(camera_angles, config) }
            }
        },
    }
}

/// The room between two texts that are set left and right in one line of
/// `TEXT_COLUMNS` characters, the last column staying free. The left text is
/// measured in bytes, the right one in characters.
pub open spec fn gap(left: Seq<char>, right: Seq<char>) -> nat {
    let room = TEXT_COLUMNS - 1 - encode_utf8(left).len() - right.len();
    if room > 0 {
        room as nat
    } else {
        0
    }
}

/// One line with `left` at its start and `right` pushed to its end. Where the
/// two leave no room, `right` follows `left` directly.
pub fn two_columns(left: &str, right: &str) -> (line: String)
    ensures
        line@ == left@ + Seq::new(gap(left@, right@), |i: int| ' ') + right@,
{
    let used = left.as_bytes().len();
    let wide = right.unicode_len();
    let room: usize = if used < TEXT_COLUMNS - 1 && wide < TEXT_COLUMNS - 1 - used {
        TEXT_COLUMNS - 1 - used - wide
    } else {
        0
    };
    let mut line = String::from_str(left);
    let mut i: usize = 0;
    proof {
        reveal_strlit(" ");
        assert(" "@ == seq![' ']);
    }
    while i < room
        invariant
            i <= room,
            room == gap(left@, right@),
            " "@ == seq![' '],
            line@ == left@ + Seq::new(i as nat, |k: int| ' '),
        decreases room - i,
    {
        line.append(" ");
        i = i + 1;
    }
    line.append(right);
    line
}

/// A weapon's name as the simulator gives it: an optional family prefix that
/// ends in a hyphen or a full stop, the code, and an optional remark after
/// white space. The code is the pattern's first group.
pub const WEAPON_CODE_PATTERN: &'static str = r"(?:\w+[-.])?(\w+)(?:\s.+)?";

/// The part of `name` between the byte offsets of `span`, where they lie
/// within the name in this order and the bytes between them are text by
/// themselves; the whole name otherwise, and where there is no span.
pub open spec fn name_part(name: Seq<char>, span: Option<(usize, usize)>) -> Seq<char> {
    match span {
        Some((start, end)) => {
            let part = encode_utf8(name).subrange(start as int, end as int);
            if start <= end <= encode_utf8(name).len() && valid_utf8(part) {
                decode_utf8(part)
            } else {
                name
            }
        },
        None => name,
    }
}

/// The short form of a weapon's name: its code where the pattern finds one,
/// the whole name otherwise.
pub open spec fn weapon_code(name: Seq<char>) -> Seq<char> {
    match pattern_group(WEAPON_CODE_PATTERN@, name, 1) {
        Some(span) => name_part(name, span),
        None => name,
    }
}

/// Cuts the part between two byte offsets out of a name, falling back to the
/// whole name where that cannot be done.
pub fn cut_name(name: &str, span: Option<(usize, usize)>) -> (part: String)
    ensures
        part@ == name_part(name@, span),
{
    let (start, end) = match span {
        Some(span) => span,
        None => {
            return String::from_str(name);
        },
    };
    let bytes = name.as_bytes();
    if !(start <= end && end <= bytes.len()) {
        return String::from_str(name);
    }
    let mut part: Vec<u8> = Vec::new();
    let mut i: usize = start;
    while i < end
        invariant
            start <= i <= end <= bytes@.len(),
            part@ == bytes@.subrange(start as int, i as int),
        decreases end - i,
    {
        part.push(bytes[i]);
        i = i + 1;
    }
    match string_from_utf8(part) {
        Ok(part) => {
            proof {
                encode_utf8_decode_utf8(part@);
            }
            part
        },
        Err(_) => String::from_str(name),
    }
}

/// Shortens a weapon's name to its code, for want of room on the display.
pub fn short_weapon_name(name: &str) -> (short: String)
    ensures
        short@ == weapon_code(name@),
{
    match search_group(WEAPON_CODE_PATTERN, name, 1) {
        Ok(span) => cut_name(name, span),
        Err(_) => String::from_str(name),
    }
}

} // verus!
