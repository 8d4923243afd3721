use secretary::clock::elapsed_hours;
use secretary::interaction::{custom_id, read_custom_id};
use secretary::locale::{get_local, locale_file, Language};
use secretary::messages::{
    is_update_request, may_end_session, members_to_release, session_end_text, session_number_line,
    session_start_text, session_title, sync_reply, tally_reply, vote_message, SessionEndLabels,
};
use secretary::text::{i64_text, parse_at_most, u64_text};
use secretary::views::{view_channel_permissions, view_roles, Overwrite, RoleInfo, RoleLabels};

#[test]
fn decimal_texts() {
    assert_eq!(u64_text(0), "0");
    assert_eq!(u64_text(1234), "1234");
    assert_eq!(u64_text(u64::MAX), "18446744073709551615");
    assert_eq!(i64_text(-5), "-5");
    assert_eq!(i64_text(i64::MIN), "-9223372036854775808");
    assert_eq!(i64_text(42), "42");
}

#[test]
fn parsing_follows_std() {
    for s in ["", "+", "-1", "12a", "1 ", " 1", "255", "256", "+0", "007", "٣"] {
        assert_eq!(parse_at_most(s, 255), s.parse::<u8>().ok().map(|v| v as u64), "{:?}", s);
    }
    assert_eq!(parse_at_most("18446744073709551615", u64::MAX), Some(u64::MAX));
    assert_eq!(parse_at_most("18446744073709551616", u64::MAX), None);
}

#[test]
fn button_ids_read_back() {
    for (yes, index) in [(true, 0usize), (false, 7), (true, 123456), (false, usize::MAX)] {
        let id = custom_id(yes, index);
        let p = read_custom_id(&id);
        assert_eq!((p.yes, p.index), (yes, index));
    }
    assert_eq!(custom_id(true, 12), "Y-12");
    assert_eq!(custom_id(false, 3), "N-3");
}

#[test]
fn custom_ids_are_read_like_the_buttons_write_them() {
    let p = read_custom_id("y-3");
    assert_eq!((p.yes, p.index), (false, 3));
    let p = read_custom_id("Y-4-5");
    assert_eq!((p.yes, p.index), (true, 4));
    let p = read_custom_id("YY-4");
    assert_eq!((p.yes, p.index), (false, 4));
    let p = read_custom_id("Y-");
    assert_eq!((p.yes, p.index), (true, 0));
    let p = read_custom_id("-9");
    assert_eq!((p.yes, p.index), (false, 9));
}

#[test]
fn vote_message_and_replies() {
    let m = vote_message("Kick <@5>", 3);
    assert_eq!(m.title, "Vote");
    assert_eq!(m.description, "Proposal to Kick <@5>.");
    assert_eq!(m.yes_id, "Y-3");
    assert_eq!(m.no_id, "N-3");
    assert_eq!(tally_reply("Votes:", -2, 3), "Votes: -2/3");
    assert_eq!(sync_reply("Quorum is now", 4), "Quorum is now 4.");
    assert_eq!(session_title(58), "Session 58");
    assert_eq!(session_number_line(58), "pub const SESSION_NUMBER: u16 = 58;");
}

#[test]
fn update_flag() {
    assert!(is_update_request("UPDATE"));
    assert!(is_update_request("update"));
    assert!(is_update_request("UpDaTe"));
    assert!(!is_update_request("UPDATES"));
    assert!(!is_update_request("UPDAT"));
    assert!(!is_update_request("ÜPDATE"));
}

#[test]
fn session_admin() {
    assert!(may_end_session(331431342438875137));
    assert!(!may_end_session(1));
}

#[test]
fn timed_out_members_are_released() {
    let members = vec![(1, true), (2, false), (3, true)];
    assert_eq!(members_to_release(&members), vec![1, 3]);
    assert_eq!(members_to_release(&vec![]), Vec::<u64>::new());
}

#[test]
fn hours_round_toward_zero() {
    let hour: i64 = 3_600_000_000_000;
    assert_eq!(elapsed_hours(2 * hour, 0), 2);
    assert_eq!(elapsed_hours(2 * hour - 1, 0), 1);
    assert_eq!(elapsed_hours(0, hour + hour / 2), -1);
    assert_eq!(elapsed_hours(i64::MAX, i64::MIN), 5124095);
}

#[test]
fn session_texts() {
    let start = session_start_text("Welcome", "Open since", 0);
    assert_eq!(start, "Welcome\n\n_ _    Open since (1970-01-01 00:00:00 UTC+0)");
    let l = SessionEndLabels {
        heading: "Over".to_string(),
        started: "Started".to_string(),
        lasted: "lasted".to_string(),
        hours: "hours,".to_string(),
        proposals: "proposals.".to_string(),
        next: "See <#".to_string(),
        channel_end: ">".to_string(),
    };
    let hour: i64 = 3_600_000_000_000;
    let text = session_end_text(&l, 86_400_000_000_000, 86_400_000_000_000 + 3 * hour, 7);
    assert_eq!(
        text,
        "\nOver \nStarted 1970-01-02 at 00:00:00 UTC+0 lasted 3 hours, 7 proposals.\nSee <#1090509087751536702>\n                            "
    );
}

#[test]
fn channel_permissions_listing() {
    let o = vec![
        Overwrite { role: Some(5), can_view: true, can_send: false },
        Overwrite { role: None, can_view: true, can_send: true },
    ];
    assert_eq!(
        view_channel_permissions(&o, "nothing"),
        "Role <@&5> can view the channel. Role <@&5> can't send messages in the channel.\n"
    );
    assert_eq!(view_channel_permissions(&vec![], "nothing"), "nothing");
    let only_member = vec![Overwrite { role: None, can_view: false, can_send: false }];
    assert_eq!(view_channel_permissions(&only_member, "nothing"), "nothing");
}

#[test]
fn roles_listing() {
    let labels = RoleLabels {
        hoisted: "shown".to_string(),
        not_hoisted: "hidden".to_string(),
        position: "Position".to_string(),
        permissions: "Permissions".to_string(),
    };
    let roles = vec![
        RoleInfo { name: "a".to_string(), id: 1, hoist: true, position: 2, permissions: 8 },
        RoleInfo { name: "b".to_string(), id: 3, hoist: false, position: -1, permissions: 0 },
    ];
    assert_eq!(
        view_roles(&roles, &labels),
        "a : 1 : shown : Position(2) : Permissions(8)\nb : 3 : hidden : Position(-1) : Permissions(0)"
    );
    assert_eq!(view_roles(&vec![], &labels), "");
}

#[test]
fn locale_lookup() {
    let yaml = "greeting: Hello\nfarewell: Bye\n";
    assert_eq!(get_local(yaml, "farewell").ok(), Some("Bye".to_string()));
    assert_eq!(get_local(yaml, "missing").ok(), Some("Template text".to_string()));
    assert!(get_local("- a\n- b\n", "a").is_err());
    assert!(get_local("a: [1, 2]\n", "a").is_err());
    assert_eq!(locale_file(Language::English), "locals/eng.yml");
}
