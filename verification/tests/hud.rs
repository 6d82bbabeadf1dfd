use dcs_hemmecs::config::Config;
use dcs_hemmecs::data::dcs::{Position, Target, Wingman};
use dcs_hemmecs::data::FlightData;
use dcs_hemmecs::hud::{
    cut_name, plan_frame, short_weapon_name, two_columns, Frame, TEXT_COLUMNS,
    WEAPON_CODE_PATTERN,
};
use dcs_hemmecs::radar::RadarMemory;
use dcs_hemmecs::symbols::Identification;

const ONE: i64 = 1_000_000;

fn live(time: i64, cockpit: Option<&str>) -> FlightData {
    let mut data = FlightData::default();
    data.time = time;
    data.cp_params = cockpit.map(String::from);
    data.targets = vec![Target {
        id: 1,
        position: Position::default(),
        distance: 0,
        start_of_lock: 0,
    }];
    data.wingmen = vec![
        None,
        Some(Wingman { wingmen_id: 2, wingmen_position: Position::default() }),
    ];
    data
}

fn seeded() -> RadarMemory {
    let mut memory = RadarMemory::new();
    memory.add_target(0, &Target {
        id: 9,
        position: Position::default(),
        distance: 0,
        start_of_lock: 0,
    });
    memory
}

#[test]
fn text_columns() {
    assert_eq!(TEXT_COLUMNS, 42);
}

#[test]
fn sample_goes_before_everything() {
    let mut config = Config::default();
    config.show_sample_data = true;
    let mut memory = seeded();
    let data = live(5, Some("EJECTION_INITIATED_0:1"));
    assert_eq!(plan_frame(&config, Some(&data), (0, 0, 0), &mut memory), Frame::Sample);
    assert_eq!(plan_frame(&config, None, (0, 0, 0), &mut memory), Frame::Sample);
    assert_eq!(memory.targets.len(), 1);
    assert!(memory.targets.contains_key(&9));
}

#[test]
fn no_telemetry() {
    let mut memory = seeded();
    assert_eq!(
        plan_frame(&Config::default(), None, (0, 0, 0), &mut memory),
        Frame::NotConnected
    );
    assert!(memory.targets.contains_key(&9));
}

#[test]
fn ejection_hides_everything_and_freezes_the_table() {
    let mut memory = seeded();
    let data = live(5, Some("A:1\nEJECTION_INITIATED_0:0\n"));
    assert_eq!(
        plan_frame(&Config::default(), Some(&data), (90 * ONE, 0, 0), &mut memory),
        Frame::Ejected
    );
    assert_eq!(memory.targets.len(), 1);
    assert!(memory.targets.contains_key(&9));
}

#[test]
fn live_frame_takes_the_snapshot_in() {
    for cockpit in [None, Some("EJECTION_INITIATED_0:-1"), Some("")] {
        let mut memory = seeded();
        let data = live(5, cockpit);
        assert_eq!(
            plan_frame(&Config::default(), Some(&data), (90 * ONE, 0, 0), &mut memory),
            Frame::Live { text_hidden: false }
        );
        assert_eq!(memory.targets.len(), 2);
        assert_eq!(memory.targets[&1].iff, Identification::Unknown);
        assert_eq!(memory.targets[&2].iff, Identification::Friendly);
    }
}

#[test]
fn live_frame_hides_the_text_where_the_policy_says_so() {
    let mut memory = RadarMemory::new();
    let data = live(5, None);
    assert_eq!(
        plan_frame(&Config::default(), Some(&data), (3 * ONE, 2 * ONE, 0), &mut memory),
        Frame::Live { text_hidden: true }
    );
    assert_eq!(memory.targets.len(), 2);
    let mut config = Config::default();
    config.occlusion.hide_on_hud = false;
    assert_eq!(
        plan_frame(&config, Some(&data), (3 * ONE, 2 * ONE, 0), &mut memory),
        Frame::Live { text_hidden: false }
    );
}

#[test]
fn two_columns_fill_the_line_but_for_one_column() {
    let line = two_columns("[ 350]", "[22500]");
    assert_eq!(line, "[ 350]                            [22500]");
    assert_eq!(line.len(), 41);
    assert_eq!(two_columns("", ""), " ".repeat(41));
    assert_eq!(two_columns("M 0.56", "120C 4"), format!("M 0.56{}120C 4", " ".repeat(29)));
}

#[test]
fn two_columns_without_room() {
    let left = "x".repeat(30);
    let right = "y".repeat(11);
    assert_eq!(two_columns(&left, &right), format!("{}{}", left, right));
    assert_eq!(two_columns(&left, "yyyyyyyyyy"), format!("{} yyyyyyyyyy", left));
    assert_eq!(two_columns(&left, &"y".repeat(40)), format!("{}{}", left, "y".repeat(40)));
    let long = "x".repeat(41);
    assert_eq!(two_columns(&long, "y"), format!("{}y", long));
    let longer = "x".repeat(100);
    assert_eq!(two_columns(&longer, "y"), format!("{}y", longer));
}

#[test]
fn two_columns_measure_left_in_bytes_and_right_in_characters() {
    // two bytes each
    assert_eq!(two_columns("\u{e9}\u{e9}", "ab"), format!("\u{e9}\u{e9}{}ab", " ".repeat(35)));
    assert_eq!(two_columns("ab", "\u{e9}\u{e9}"), format!("ab{}\u{e9}\u{e9}", " ".repeat(37)));
}

#[test]
fn weapon_code_pattern() {
    assert_eq!(WEAPON_CODE_PATTERN, "(?:\\w+[-.])?(\\w+)(?:\\s.+)?");
}

#[test]
fn short_weapon_names() {
    for (name, short) in [
        ("AIM-120C", "120C"),
        ("AIM-9M Sidewinder", "9M"),
        ("R-73", "73"),
        ("S.25", "25"),
        ("AIM-120C-5", "120C"),
        ("M61", "M61"),
        ("AIM_120", "AIM_120"),
        ("  X-1", "1"),
        ("Kh 29", "Kh"),
        ("\u{e9}-\u{4e16}9", "\u{4e16}9"),
        ("", ""),
        ("--", "--"),
        (" - ", " - "),
    ] {
        assert_eq!(short_weapon_name(name), short, "{:?}", name);
    }
}

#[test]
fn cut_name_between_offsets() {
    assert_eq!(cut_name("AIM-120C", Some((4, 8))), "120C");
    assert_eq!(cut_name("AIM-120C", Some((0, 3))), "AIM");
    assert_eq!(cut_name("AIM-120C", Some((3, 3))), "");
    assert_eq!(cut_name("AIM-120C", Some((0, 8))), "AIM-120C");
    assert_eq!(cut_name("a\u{e9}b", Some((1, 3))), "\u{e9}");
}

#[test]
fn cut_name_falls_back_to_the_whole_name() {
    assert_eq!(cut_name("AIM-120C", None), "AIM-120C");
    assert_eq!(cut_name("AIM-120C", Some((5, 4))), "AIM-120C");
    assert_eq!(cut_name("AIM-120C", Some((4, 9))), "AIM-120C");
    assert_eq!(cut_name("AIM-120C", Some((usize::MAX, usize::MAX))), "AIM-120C");
    assert_eq!(cut_name("a\u{e9}b", Some((0, 2))), "a\u{e9}b");
    assert_eq!(cut_name("a\u{e9}b", Some((2, 4))), "a\u{e9}b");
}
