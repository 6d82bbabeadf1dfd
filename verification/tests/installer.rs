use dcs_hemmecs::installer::snippet::{
    export_snippet_ranges, matching_ranges, remove_ranges, rewrite_export_lua_snippet, rewritten_text,
    SnippetError, HEMMECS_VARS_PATTERN,
};
use dcs_hemmecs::installer::{
    installer_action, installer_button, DCSVersion, InstallStatus, InstallerAction,
};

const HOOK: &str = "local hemmecsStatus, hemmecsErr = pcall(function() dofile(x) end)\n";

#[test]
fn user_folders() {
    assert_eq!(DCSVersion::Stable.user_folder(), "DCS");
    assert_eq!(DCSVersion::Openbeta.user_folder(), "DCS.openbeta");
}

#[test]
fn install_status_from_what_is_on_disk() {
    let current = b"-- export script\nreturn 1\n";
    for version in [DCSVersion::Stable, DCSVersion::Openbeta] {
        assert_eq!(version.install_status(false, None, current), InstallStatus::DCSNotFound);
        assert_eq!(
            version.install_status(false, Some(current), current),
            InstallStatus::DCSNotFound
        );
        assert_eq!(version.install_status(true, None, current), InstallStatus::NotInstalled);
        assert_eq!(
            version.install_status(true, Some(current), current),
            InstallStatus::Installed
        );
        assert_eq!(
            version.install_status(true, Some(b"-- export script\nreturn 2\n"), current),
            InstallStatus::RequiresUpdate
        );
        assert_eq!(
            version.install_status(true, Some(b"-- export script\nreturn 1"), current),
            InstallStatus::RequiresUpdate
        );
        assert_eq!(version.install_status(true, Some(b""), current), InstallStatus::RequiresUpdate);
        assert_eq!(version.install_status(true, Some(b""), b""), InstallStatus::Installed);
    }
}

#[test]
fn installer_actions() {
    assert_eq!(installer_action(&InstallStatus::DCSNotFound), None);
    assert_eq!(installer_action(&InstallStatus::NotInstalled), Some(InstallerAction::Install));
    assert_eq!(installer_action(&InstallStatus::RequiresUpdate), Some(InstallerAction::Update));
    assert_eq!(installer_action(&InstallStatus::Installed), Some(InstallerAction::Uninstall));
}

#[test]
fn pattern() {
    assert_eq!(
        HEMMECS_VARS_PATTERN,
        ".*hemmecsStatus.*hemmecsErr.*\\n|.*:hemmecsErr.*hemmecsStatus.*\\n"
    );
}

#[test]
fn snippet_ranges_are_whole_lines() {
    let text = format!("first\n{}last\n", HOOK);
    assert_eq!(export_snippet_ranges(&text), Ok(vec![6..6 + HOOK.len()]));
}

#[test]
fn snippet_ranges_in_either_order_of_the_variables() {
    let second = "print(x:hemmecsErr, hemmecsStatus)\n";
    let text = format!("{}between\n{}", HOOK, second);
    let from = HOOK.len() + "between\n".len();
    assert_eq!(
        export_snippet_ranges(&text),
        Ok(vec![0..HOOK.len(), from..from + second.len()])
    );
}

#[test]
fn snippet_ranges_of_adjacent_lines() {
    let text = format!("{}{}", HOOK, HOOK);
    assert_eq!(
        export_snippet_ranges(&text),
        Ok(vec![0..HOOK.len(), HOOK.len()..2 * HOOK.len()])
    );
}

#[test]
fn snippet_ranges_count_bytes() {
    let text = format!("h\u{e9}\u{4e16}\n{}", HOOK);
    assert_eq!(export_snippet_ranges(&text), Ok(vec![7..7 + HOOK.len()]));
}

#[test]
fn lines_that_are_not_the_hook() {
    for text in [
        "",
        "\n",
        "hemmecsStatus\nhemmecsErr\n",
        "hemmecsErr, hemmecsStatus\n",
        "hemmecsStatus, hemmecsErr",
        "hemmecsstatus, hemmecserr\n",
    ] {
        assert_eq!(export_snippet_ranges(text), Ok(vec![]), "{:?}", text);
    }
}

#[test]
fn remove_ranges_takes_out_both_ends() {
    assert_eq!(remove_ranges("0123456789", &[]), Ok(String::from("0123456789")));
    assert_eq!(remove_ranges("0123456789", &[2..4]), Ok(String::from("0156789")));
    assert_eq!(remove_ranges("0123456789", &[0..0]), Ok(String::from("123456789")));
    assert_eq!(remove_ranges("0123456789", &[9..9]), Ok(String::from("012345678")));
    assert_eq!(remove_ranges("0123456789", &[0..9]), Ok(String::new()));
    assert_eq!(remove_ranges("0123456789", &[0..usize::MAX]), Ok(String::new()));
    assert_eq!(remove_ranges("0123456789", &[10..20]), Ok(String::from("0123456789")));
    assert_eq!(remove_ranges("", &[0..5]), Ok(String::new()));
}

#[test]
fn remove_ranges_with_several_ranges() {
    assert_eq!(remove_ranges("0123456789", &[1..2, 6..7]), Ok(String::from("034589")));
    assert_eq!(remove_ranges("0123456789", &[6..7, 1..2]), Ok(String::from("034589")));
    assert_eq!(remove_ranges("0123456789", &[1..5, 3..7]), Ok(String::from("089")));
    assert_eq!(remove_ranges("0123456789", &[3..3, 3..3]), Ok(String::from("012456789")));
}

#[test]
fn remove_ranges_ignores_a_range_that_ends_before_it_starts() {
    assert_eq!(remove_ranges("0123456789", &[5..2]), Ok(String::from("0123456789")));
}

#[test]
fn remove_ranges_keeps_whole_characters() {
    assert_eq!(remove_ranges("a\u{e9}b\u{4e16}c", &[1..2]), Ok(String::from("ab\u{4e16}c")));
    assert_eq!(remove_ranges("a\u{e9}b\u{4e16}c", &[4..6]), Ok(String::from("a\u{e9}bc")));
}

#[test]
fn remove_ranges_fails_on_a_broken_character() {
    assert_eq!(remove_ranges("a\u{e9}b", &[1..1]), Err(SnippetError::Encoding));
    assert_eq!(remove_ranges("a\u{e9}b", &[0..1]), Err(SnippetError::Encoding));
    assert_eq!(remove_ranges("\u{4e16}", &[1..1]), Err(SnippetError::Encoding));
}

#[test]
fn rewritten_text_trims_and_ends_the_file() {
    assert_eq!(rewritten_text("a = 1\n\n \t\n", "hook", false), "a = 1\n");
    assert_eq!(rewritten_text("a = 1", "hook", false), "a = 1\n");
    assert_eq!(rewritten_text("  a = 1", "hook", false), "  a = 1\n");
    assert_eq!(rewritten_text("", "hook", false), "\n");
    assert_eq!(rewritten_text(" \n\r\n\u{a0}\u{3000}\u{2028}", "hook", false), "\n");
    assert_eq!(rewritten_text("a\u{200b}", "hook", false), "a\u{200b}\n");
}

#[test]
fn rewritten_text_appends_the_hook() {
    assert_eq!(rewritten_text("a = 1\n\n", "hook", true), "a = 1\n\nhook\n");
    assert_eq!(rewritten_text("", "hook\n", true), "\n\nhook\n\n");
    assert_eq!(rewritten_text("a", "", true), "a\n\n\n");
}

#[test]
fn rewrite_leaves_a_file_without_the_hook_alone() {
    assert_eq!(
        rewrite_export_lua_snippet("dofile(a)\ndofile(b)\n\n", "hook", false),
        Ok(String::from("dofile(a)\ndofile(b)\n"))
    );
    assert_eq!(
        rewrite_export_lua_snippet("dofile(a)\ndofile(b)", "hook", true),
        Ok(String::from("dofile(a)\ndofile(b)\n\nhook\n"))
    );
}

#[test]
fn rewrite_takes_the_hook_out() {
    let text = format!("dofile(a)\n\n{}", HOOK);
    assert_eq!(
        rewrite_export_lua_snippet(&text, "hook", false),
        Ok(String::from("dofile(a)\n"))
    );
    assert_eq!(
        rewrite_export_lua_snippet(&text, HOOK, true),
        Ok(format!("dofile(a)\n\n{}\n", HOOK))
    );
}

#[test]
fn rewrite_takes_the_byte_after_the_hook_too() {
    let text = format!("one\n{}two\n", HOOK);
    assert_eq!(
        rewrite_export_lua_snippet(&text, "hook", false),
        Ok(String::from("one\nwo\n"))
    );
}

#[test]
fn rewrite_fails_where_a_character_is_cut() {
    let text = format!("{}\u{e9}\n", HOOK);
    assert_eq!(rewrite_export_lua_snippet(&text, "hook", false), Err(SnippetError::Encoding));
}

#[test]
fn matching_ranges_of_a_pattern() {
    assert_eq!(matching_ranges("b+", "abba abbba b"), Ok(vec![1..3, 6..9, 11..12]));
    assert_eq!(matching_ranges("x", "abba"), Ok(vec![]));
    assert_eq!(matching_ranges("", "ab"), Ok(vec![0..0, 1..1, 2..2]));
    assert_eq!(matching_ranges("\u{e9}", "a\u{e9}\u{e9}"), Ok(vec![1..3, 3..5]));
}

#[test]
fn matching_ranges_of_a_refused_pattern() {
    assert_eq!(matching_ranges("(", "abba"), Err(SnippetError::Pattern));
    assert_eq!(matching_ranges("a{2,1}", ""), Err(SnippetError::Pattern));
}

#[test]
fn installer_buttons() {
    assert_eq!(installer_button(&InstallStatus::DCSNotFound), (false, "Not Found"));
    assert_eq!(installer_button(&InstallStatus::NotInstalled), (true, "Install"));
    assert_eq!(installer_button(&InstallStatus::RequiresUpdate), (true, "Update"));
    assert_eq!(installer_button(&InstallStatus::Installed), (true, "Uninstall"));
}
