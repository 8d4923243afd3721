use secretary::actions::channel::{channel_purge, channel_rename, create_text, create_voice};
use secretary::actions::message::{create, delete};
use secretary::actions::role::{
    can_ping_everyone, cant_ping_everyone, cant_view, colour_from_rgb, role_create, role_delete,
    role_hoist, role_rename, role_set_position, role_unhoist,
};
use secretary::actions::user::{role_add, role_remove, user_kick};
use secretary::actions::{Effect, Proposal, VoteAction};
use secretary::consts::{GENERAL_SECRETARY_ROLE, PROPOSE_CHANNEL, VOTER_ROLE, VOTE_CHANNEL};

fn refused(p: Proposal) -> String {
    match p {
        Proposal::Refused(r) => r,
        Proposal::Vote(t, _) => panic!("opened a vote: {}", t),
    }
}

fn vote(p: Proposal) -> (String, VoteAction) {
    match p {
        Proposal::Vote(t, a) => (t, a),
        Proposal::Refused(r) => panic!("refused: {}", r),
    }
}

#[test]
fn cant_view_refuses_protected_roles_and_channels() {
    assert_eq!(refused(cant_view(VOTER_ROLE, 5)), "You cannot modify this role.");
    assert_eq!(refused(cant_view(GENERAL_SECRETARY_ROLE, VOTE_CHANNEL)), "You cannot modify this role.");
    assert_eq!(refused(cant_view(5, PROPOSE_CHANNEL)), "You cannot delete these channels.");
    assert_eq!(refused(cant_view(5, VOTE_CHANNEL)), "You cannot delete these channels.");
}

#[test]
fn cant_view_opens_a_vote() {
    let (text, a) = vote(cant_view(12, 34));
    assert_eq!(text, "Block role <@&12> from seeing <#34>");
    assert_eq!(a.tally(), 1);
    assert!(matches!(a.effect(), Effect::HideChannel { channel_id: 34, role_id: 12 }));
    assert!(a.announces());
}

#[test]
fn role_commands_refuse_protected_roles() {
    assert_eq!(refused(role_delete(VOTER_ROLE)), "You cannot delete this role.");
    assert_eq!(refused(role_hoist(VOTER_ROLE)), "You cannot modify this role.");
    assert_eq!(refused(role_unhoist(GENERAL_SECRETARY_ROLE)), "You cannot modify this role.");
    assert_eq!(refused(role_rename(VOTER_ROLE, "x".to_string())), "You cannot rename this role.");
    assert_eq!(refused(role_set_position(GENERAL_SECRETARY_ROLE, 3)), "You cannot modify this role.");
}

#[test]
fn role_commands_open_votes() {
    let (t, a) = vote(role_delete(9));
    assert_eq!(t, "Delete role <@&9>");
    assert_eq!(a.tally(), 1);
    assert!(matches!(a.effect(), Effect::DeleteRole { role_id: 9 }));

    let (t, a) = vote(role_hoist(9));
    assert_eq!(t, "Proposal to hoist role <@&9>");
    assert_eq!(a.tally(), 0);
    assert!(matches!(a.effect(), Effect::HoistRole { role_id: 9, hoist: true }));
    assert!(!a.announces());

    let (t, a) = vote(role_unhoist(9));
    assert_eq!(t, "Proposal to unhoist role <@&9>");
    assert!(matches!(a.effect(), Effect::HoistRole { role_id: 9, hoist: false }));

    let (t, a) = vote(role_rename(9, "Poets".to_string()));
    assert_eq!(t, "Rename role <@&9> to Poets");
    assert_eq!(a.tally(), 1);
    match a.effect() {
        Effect::RenameRole { guild_id, role_id, name } => {
            assert_eq!((guild_id, role_id, name.as_str()), (9, 9, "Poets"))
        }
        _ => panic!(),
    }

    let (t, a) = vote(role_set_position(9, 17));
    assert_eq!(t, "Move role <@&9> to Position(17)");
    assert_eq!(a.tally(), 0);
    assert!(matches!(a.effect(), Effect::MoveRole { role_id: 9, new_position: 17 }));
    assert!(!a.announces());
}

#[test]
fn role_create_builds_the_colour() {
    assert_eq!(colour_from_rgb(0x12, 0x34, 0x56), 0x123456);
    assert_eq!(colour_from_rgb(255, 255, 255), 0xffffff);
    let (t, a) = vote(role_create(1, 2, 3, "Poets".to_string(), 4));
    assert_eq!(t, "Create role called Poets");
    assert_eq!(a.tally(), 0);
    match a.effect() {
        Effect::CreateRole { colour, name, position } => {
            assert_eq!((colour, name.as_str(), position), (0x010203, "Poets", 4))
        }
        _ => panic!(),
    }
}

#[test]
fn ping_commands() {
    let (t, a) = vote(can_ping_everyone(6));
    assert_eq!(t, "Make role <@&6> able to ping everyone");
    assert!(matches!(a.effect(), Effect::MentionEveryone { role_id: 6, allowed: true }));
    let (t, a) = vote(cant_ping_everyone(6));
    assert_eq!(t, "Make role <@&6> unable to ping everyone");
    assert!(matches!(a.effect(), Effect::MentionEveryone { role_id: 6, allowed: false }));
    assert_eq!(a.tally(), 1);
}

#[test]
fn channel_commands() {
    assert_eq!(refused(channel_purge(VOTE_CHANNEL, 5)), "You cannot purge from these channels.");
    assert_eq!(refused(channel_rename(PROPOSE_CHANNEL, "a".to_string())), "You cannot modify these channels.");
    let (t, a) = vote(channel_purge(8, 30));
    assert_eq!(t, "Purge 100 messages from the <#8> channel");
    assert!(matches!(a.effect(), Effect::Purge { channel_id: 8, limit: 30 }));
    let (t, a) = vote(channel_rename(8, "general".to_string()));
    assert_eq!(t, "Rename channel <#8> to general");
    assert!(matches!(a.effect(), Effect::RenameChannel { channel_id: 8, .. }));
    let (t, a) = vote(create_text("news".to_string(), Some(3), "daily".to_string()));
    assert_eq!(t, "Create channel called news");
    assert_eq!(a.tally(), 0);
    match a.effect() {
        Effect::CreateChannel { name, category_id, voice, topic } => {
            assert_eq!(name, "news");
            assert_eq!(category_id, Some(3));
            assert!(!voice);
            assert_eq!(topic, Some("daily".to_string()));
        }
        _ => panic!(),
    }
    let (t, a) = vote(create_voice("lounge".to_string(), None));
    assert_eq!(t, "Create channel called lounge");
    assert_eq!(a.tally(), 1);
    match a.effect() {
        Effect::CreateChannel { name, category_id, voice, topic } => {
            assert_eq!(name, "lounge");
            assert_eq!(category_id, None);
            assert!(voice);
            assert_eq!(topic, None);
        }
        _ => panic!(),
    }
}

#[test]
fn message_commands() {
    let (t, a) = vote(create(4, "hi".to_string()));
    assert_eq!(t, "Send message \"hi\" to the <#4> channel");
    assert!(!a.announces());
    match a.effect() {
        Effect::Say { channel_id, text } => assert_eq!((channel_id, text.as_str()), (4, "hi")),
        _ => panic!(),
    }
    let (t, a) = vote(delete(1, 2, "345"));
    assert_eq!(t, "Delete this message https://discord.com/channels/1/2/345");
    assert!(matches!(a.effect(), Effect::DeleteMessage { channel_id: 2, message_id: 345 }));
    let (t, a) = vote(delete(1, 2, "oops"));
    assert_eq!(t, "Delete this message https://discord.com/channels/1/2/oops");
    assert!(matches!(a.effect(), Effect::DeleteMessage { channel_id: 2, message_id: 0 }));
    let (_, a) = vote(delete(1, 2, "+18446744073709551615"));
    assert!(matches!(a.effect(), Effect::DeleteMessage { message_id: 18446744073709551615, .. }));
    let (_, a) = vote(delete(1, 2, "18446744073709551616"));
    assert!(matches!(a.effect(), Effect::DeleteMessage { message_id: 0, .. }));
}

#[test]
fn user_commands() {
    let (t, a) = vote(user_kick(5));
    assert_eq!(t, "Kick <@5>");
    assert!(matches!(a.effect(), Effect::Kick { member_id: 5 }));
    let (t, a) = vote(role_add(5, 6));
    assert_eq!(t, "Add role <@&6> to user <@5>");
    assert!(matches!(a.effect(), Effect::AddRole { member_id: 5, role_id: 6 }));
    let (t, a) = vote(role_remove(5, 6));
    assert_eq!(t, "Remove role <@&6> from user <@5>");
    assert!(matches!(a.effect(), Effect::RemoveRole { member_id: 5, role_id: 6 }));
    assert_eq!(a.tally(), 1);
}
