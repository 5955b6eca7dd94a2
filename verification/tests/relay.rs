use mod_mail::config::Config;
use mod_mail::relay::{
    make_channel_suffix, plan_relay, OverwriteTarget, RelayError, RelayRequest, RoleInfo,
    ATTACH_FILES, READ_MESSAGES, SEND_MESSAGES,
};
use mod_mail::session::InboundMessage;

const BOT: u64 = 999;

fn request(attachments: Vec<String>) -> RelayRequest {
    RelayRequest {
        guild_name: String::from("Alpha"),
        config: Config {
            server_id: 42,
            moderator_role: Some(String::from("Mods")),
            category: Some(314),
        },
        message: InboundMessage {
            author_id: 1,
            timestamp: 10,
            content: String::from("please help"),
            attachments,
        },
    }
}

fn roles() -> Vec<RoleInfo> {
    vec![
        RoleInfo { id: 5, name: String::from("@everyone"), mentionable: false },
        RoleInfo { id: 77, name: String::from("Mods"), mentionable: false },
        RoleInfo { id: 78, name: String::from("Bystanders"), mentionable: true },
    ]
}

#[test]
fn plan_posts_single_content_message_without_attachments() {
    let plan = plan_relay(&request(Vec::new()), &roles(), BOT, "abcdefg").unwrap();
    assert_eq!(plan.posts.len(), 2);
    assert_eq!(
        plan.posts[0].text,
        "From: <@1>\nTo: <@&77>\n\nOriginal message below:"
    );
    assert!(plan.posts[0].files.is_empty());
    assert_eq!(plan.posts[1].text, "please help");
    assert!(plan.posts[1].files.is_empty());
}

#[test]
fn plan_bundles_attachments_with_same_text() {
    let atts = vec![String::from("a.png"), String::from("b.txt")];
    let plan = plan_relay(&request(atts), &roles(), BOT, "abcdefg").unwrap();
    assert_eq!(plan.posts.len(), 2);
    assert_eq!(plan.posts[1].text, "please help");
    assert_eq!(plan.posts[1].files, vec![String::from("a.png"), String::from("b.txt")]);
}

#[test]
fn plan_sets_name_category_pause_and_permissions() {
    let plan = plan_relay(&request(Vec::new()), &roles(), BOT, "q1w2e3r").unwrap();
    assert_eq!(plan.channel_name, "mod_mail_q1w2e3r");
    assert_eq!(plan.category, Some(314));
    assert_eq!(plan.pause_seconds, 3);
    assert_eq!(plan.mod_role_id, 77);
    assert!(plan.toggle_mentionable);
    assert_eq!(plan.remove_overwrite_for, BOT);
    let rwa = READ_MESSAGES | SEND_MESSAGES | ATTACH_FILES;
    assert_eq!(plan.overwrites.len(), 4);
    assert_eq!(plan.overwrites[0].target, OverwriteTarget::Role(5));
    assert_eq!(plan.overwrites[0].allow, 0);
    assert_eq!(plan.overwrites[0].deny, READ_MESSAGES);
    assert_eq!(plan.overwrites[1].target, OverwriteTarget::Role(77));
    assert_eq!(plan.overwrites[1].allow, rwa);
    assert_eq!(plan.overwrites[1].deny, 0);
    assert_eq!(plan.overwrites[2].target, OverwriteTarget::Member(1));
    assert_eq!(plan.overwrites[2].allow, rwa);
    assert_eq!(plan.overwrites[3].target, OverwriteTarget::Member(BOT));
    assert_eq!(plan.overwrites[3].allow, rwa);
    assert_eq!(
        plan.announce,
        "In a few seconds, I will create a new channel in the **Alpha** Discord server and relay your message. I will also mention you and the moderators.\n\n**Important**: Please continue the conversation in the new channel and not in this DM. Thanks!"
    );
}

#[test]
fn plan_leaves_mentionable_role_alone() {
    let mut rs = roles();
    rs[1].mentionable = true;
    let plan = plan_relay(&request(Vec::new()), &rs, BOT, "abcdefg").unwrap();
    assert!(!plan.toggle_mentionable);
}

#[test]
fn plan_without_everyone_role_fails() {
    let rs = vec![RoleInfo { id: 77, name: String::from("Mods"), mentionable: true }];
    let err = plan_relay(&request(Vec::new()), &rs, BOT, "abcdefg").unwrap_err();
    assert_eq!(err, RelayError::MissingEveryoneRole);
    assert_eq!(err.describe(), "no @everyone role");
}

#[test]
fn plan_without_moderator_role_fails() {
    let rs = vec![RoleInfo { id: 5, name: String::from("@everyone"), mentionable: false }];
    let err = plan_relay(&request(Vec::new()), &rs, BOT, "abcdefg").unwrap_err();
    assert_eq!(err, RelayError::MissingModeratorRole);
    assert_eq!(err.describe(), "cannot find moderator role");
}

#[test]
fn plan_with_unconfigured_moderator_role_fails() {
    let mut req = request(Vec::new());
    req.config.moderator_role = None;
    let err = plan_relay(&req, &roles(), BOT, "abcdefg").unwrap_err();
    assert_eq!(err, RelayError::MissingModeratorRole);
}

#[test]
fn channel_suffix_is_seven_alphanumerics() {
    let s = make_channel_suffix();
    assert_eq!(s.chars().count(), 7);
    assert!(s.chars().all(|c| c.is_ascii_alphanumeric()));
}
