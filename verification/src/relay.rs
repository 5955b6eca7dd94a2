//! Relay execution planning: everything the original message's trip into a
//! fresh incident channel requires, computed and checked up front. The
//! unverified shell performs the plan's steps in order against the chat
//! platform and stops at the first failure.

use vstd::prelude::*;

use rand::Rng;

use crate::config::{Config, ConfigView};
use crate::session::{InboundMessage, MessageView};
use crate::text::{dec_str, push_dec_u64};

verus! {

/// Permission bit: may read messages in a channel.
pub const READ_MESSAGES: u64 = 0x400;

/// Permission bit: may send messages in a channel.
pub const SEND_MESSAGES: u64 = 0x800;

/// Permission bit: may attach files in a channel.
pub const ATTACH_FILES: u64 = 0x8000;

/// The grants given to everyone who may use an incident channel.
pub const USE_CHANNEL: u64 = READ_MESSAGES | SEND_MESSAGES | ATTACH_FILES;

/// Seconds deliberately waited between creating the channel and posting
/// into it, so the platform's permission changes can propagate.
pub const CREATION_PAUSE_SECS: u64 = 3;

/// Incident channel names start with this, followed by a random suffix.
pub const CHANNEL_NAME_PREFIX: &'static str = "mod_mail_";

/// The name under which every server's default role is resolved.
pub const EVERYONE_ROLE_NAME: &'static str = "@everyone";

/// The mathematical value of a [`RoleInfo`].
pub struct RoleInfoView {
    pub id: u64,
    pub name: Seq<char>,
    pub mentionable: bool,
}

/// One role of the target server, as the gateway cache reports it.
#[derive(Debug)]
pub struct RoleInfo {
    pub id: u64,
    pub name: String,
    pub mentionable: bool,
}

impl View for RoleInfo {
    type V = RoleInfoView;

    open spec fn view(&self) -> RoleInfoView {
        RoleInfoView { id: self.id, name: self.name@, mentionable: self.mentionable }
    }
}

/// Whom a permission overwrite applies to.
#[derive(Clone, Copy, Debug, PartialEq, Eq, Structural)]
pub enum OverwriteTarget {
    Role(u64),
    Member(u64),
}

/// One permission overwrite on the new channel.
#[derive(Clone, Copy, Debug, PartialEq, Eq, Structural)]
pub struct Overwrite {
    pub target: OverwriteTarget,
    pub allow: u64,
    pub deny: u64,
}

/// The mathematical value of a [`ChannelPost`].
pub struct ChannelPostView {
    pub text: Seq<char>,
    pub files: Seq<Seq<char>>,
}

/// One message to post into the new channel: its text, and the names of
/// the attachments to fetch and bundle with it.
#[derive(Debug)]
pub struct ChannelPost {
    pub text: String,
    pub files: Vec<String>,
}

impl View for ChannelPost {
    type V = ChannelPostView;

    open spec fn view(&self) -> ChannelPostView {
        ChannelPostView { text: self.text@, files: self.files@.map_values(|f: String| f@) }
    }
}

/// A relay the state machine has decided on: the chosen server's display
/// name and configuration, and the message to forward.
#[derive(Debug)]
pub struct RelayRequest {
    pub guild_name: String,
    pub config: Config,
    pub message: InboundMessage,
}

/// The mathematical value of a [`RelayRequest`].
pub struct RelayRequestView {
    pub guild_name: Seq<char>,
    pub config: ConfigView,
    pub message: MessageView,
}

impl View for RelayRequest {
    type V = RelayRequestView;

    open spec fn view(&self) -> RelayRequestView {
        RelayRequestView {
            guild_name: self.guild_name@,
            config: self.config@,
            message: self.message@,
        }
    }
}

/// Why a relay could not even be planned: the target server's role data no
/// longer contains a role the configuration depends on.
#[derive(Clone, Copy, Debug, PartialEq, Eq, Structural)]
pub enum RelayError {
    /// The server has no default ("everyone") role.
    MissingEveryoneRole,
    /// The configured moderator role does not exist on the server (or none
    /// is configured).
    MissingModeratorRole,
}

impl RelayError {
    /// A diagnostic description of the error, for the operator log.
    pub fn describe(&self) -> (r: &'static str)
        ensures
            *self is MissingEveryoneRole ==> r@ == "no @everyone role"@,
            *self is MissingModeratorRole ==> r@ == "cannot find moderator role"@,
    {
        match self {
            RelayError::MissingEveryoneRole => "no @everyone role",
            RelayError::MissingModeratorRole => "cannot find moderator role",
        }
    }
}

/// The mathematical value of a [`RelayPlan`].
pub struct RelayPlanView {
    pub announce: Seq<char>,
    pub channel_name: Seq<char>,
    pub category: Option<int>,
    pub overwrites: Seq<Overwrite>,
    pub pause_seconds: u64,
    pub toggle_mentionable: bool,
    pub mod_role_id: u64,
    pub posts: Seq<ChannelPostView>,
    pub remove_overwrite_for: u64,
}

/// Everything the shell must do to execute a relay, in order: tell the
/// user, create the channel (name, parent category, permission
/// overwrites), wait for permission propagation, make the moderator role
/// mentionable if it was not, post each entry of `posts` (fetching the
/// named attachments for any post that has them), restore the role's
/// mentionable flag if it was toggled (best effort), and finally remove
/// the bot's own overwrite from the channel.
#[derive(Debug)]
pub struct RelayPlan {
    pub announce: String,
    pub channel_name: String,
    pub category: Option<i64>,
    pub overwrites: Vec<Overwrite>,
    pub pause_seconds: u64,
    pub toggle_mentionable: bool,
    pub mod_role_id: u64,
    pub posts: Vec<ChannelPost>,
    pub remove_overwrite_for: u64,
}

impl View for RelayPlan {
    type V = RelayPlanView;

    open spec fn view(&self) -> RelayPlanView {
        RelayPlanView {
            announce: self.announce@,
            channel_name: self.channel_name@,
            category: match self.category {
                Some(c) => Some(c as int),
                None => None,
            },
            overwrites: self.overwrites@,
            pause_seconds: self.pause_seconds,
            toggle_mentionable: self.toggle_mentionable,
            mod_role_id: self.mod_role_id,
            posts: self.posts@.map_values(|p: ChannelPost| p@),
            remove_overwrite_for: self.remove_overwrite_for,
        }
    }
}

/// Whether `c` is an ASCII letter or digit.
pub open spec fn spec_is_ascii_alphanumeric(c: char) -> bool {
    (48 <= c as int && c as int <= 57) || (65 <= c as int && c as int <= 90) || (97 <= c as int
        && c as int <= 122)
}

/// Relies on rand's Alphanumeric distribution: each sampled byte is an
/// ASCII letter or digit, drawn uniformly. Nothing further can be promised
/// of a random value.
#[verifier::external_body]
fn random_alphanumeric_7() -> (r: String)
    ensures
        r@.len() == 7,
        forall|i: int| 0 <= i < r@.len() ==> spec_is_ascii_alphanumeric(#[trigger] r@[i]),
{
    rand::thread_rng()
        .sample_iter(&rand::distributions::Alphanumeric)
        .take(7)
        .map(char::from)
        .collect()
}

/// Draws the short random suffix for a new incident channel's name.
/// Collisions are not checked for: the namespace is per incident and the
/// probability is treated as negligible.
pub fn make_channel_suffix() -> (r: String)
    ensures
        r@.len() == 7,
        forall|i: int| 0 <= i < r@.len() ==> spec_is_ascii_alphanumeric(#[trigger] r@[i]),
{
    random_alphanumeric_7()
}

/// The name of the incident channel for a given suffix.
pub open spec fn channel_name_text(suffix: Seq<char>) -> Seq<char> {
    CHANNEL_NAME_PREFIX@ + suffix
}

/// The notice sent to the user just before their relay is executed.
pub open spec fn announce_text(guild_name: Seq<char>) -> Seq<char> {
    "In a few seconds, I will create a new channel in the **"@ + guild_name
        + "** Discord server and relay your message. I will also mention you and the moderators.\n\n**Important**: Please continue the conversation in the new channel and not in this DM. Thanks!"@
}

/// The header posted into the new channel, mentioning the reporting user
/// and the moderator role.
pub open spec fn header_text(author_id: u64, mod_role_id: u64) -> Seq<char> {
    "From: <@"@ + dec_str(author_id as nat) + ">\nTo: <@&"@ + dec_str(mod_role_id as nat)
        + ">\n\nOriginal message below:"@
}

/// Builds [`announce_text`] for a concrete guild name.
pub fn announce_message(guild_name: &str) -> (r: String)
    ensures
        r@ == announce_text(guild_name@),
{
    let mut out = String::new();
    out.append("In a few seconds, I will create a new channel in the **");
    out.append(guild_name);
    out.append(
        "** Discord server and relay your message. I will also mention you and the moderators.\n\n**Important**: Please continue the conversation in the new channel and not in this DM. Thanks!",
    );
    proof {
        assert(out@ =~= announce_text(guild_name@));
    }
    out
}

/// Builds [`header_text`] for concrete identifiers.
pub fn header_message(author_id: u64, mod_role_id: u64) -> (r: String)
    ensures
        r@ == header_text(author_id, mod_role_id),
{
    let mut out = String::new();
    out.append("From: <@");
    push_dec_u64(&mut out, author_id);
    out.append(">\nTo: <@&");
    push_dec_u64(&mut out, mod_role_id);
    out.append(">\n\nOriginal message below:");
    proof {
        assert(out@ =~= header_text(author_id, mod_role_id));
    }
    out
}

/// The index of the first role in `roles` that carries `name`.
pub open spec fn spec_first_role(roles: Seq<RoleInfo>, name: Seq<char>) -> Option<int>
    decreases roles.len(),
{
    if roles.len() == 0 {
        None
    } else if roles[0].name@ == name {
        Some(0)
    } else {
        match spec_first_role(roles.skip(1), name) {
            Some(i) => Some(i + 1),
            None => None,
        }
    }
}

/// Finds the first role carrying `name`.
fn find_role(roles: &Vec<RoleInfo>, name: &String) -> (r: Option<usize>)
    ensures
        match r {
            Some(i) => i < roles@.len() && spec_first_role(roles@, name@) == Some(i as int),
            None => spec_first_role(roles@, name@) is None,
        },
{
    let mut i: usize = 0;
    proof {
        assert(roles@.skip(0) =~= roles@);
    }
    loop
        invariant
            i <= roles@.len(),
            spec_first_role(roles@, name@) == match spec_first_role(
                roles@.skip(i as int),
                name@,
            ) {
                Some(k) => Some(k + i),
                None => None::<int>,
            },
        decreases roles@.len() - i,
    {
        if i == roles.len() {
            return None;
        }
        if roles[i].name == *name {
            proof {
                assert(roles@.skip(i as int)[0] == roles@[i as int]);
            }
            return Some(i);
        }
        proof {
            assert(roles@.skip(i as int)[0] == roles@[i as int]);
            assert(roles@.skip(i as int).skip(1) =~= roles@.skip(i + 1));
        }
        i = i + 1;
    }
}

/// The conditions under which a relay into a server with role data `roles`
/// and configuration `config` can be planned at all.
pub open spec fn spec_relay_plannable(roles: Seq<RoleInfo>, config: ConfigView) -> bool {
    &&& spec_first_role(roles, EVERYONE_ROLE_NAME@) is Some
    &&& config.moderator_role is Some
    &&& spec_first_role(roles, config.moderator_role->0) is Some
}

/// Plans the relay of `request.message` into a fresh incident channel of
/// the chosen server. `roles` is the server's current role data, `bot_id`
/// the bot's own user identifier, and `suffix` the random channel-name
/// suffix (see [`make_channel_suffix`]). Fails, without any effect to
/// perform, when the server's default role or the configured moderator
/// role cannot be resolved.
pub fn plan_relay(request: &RelayRequest, roles: &Vec<RoleInfo>, bot_id: u64, suffix: &str) -> (r:
    Result<RelayPlan, RelayError>)
    ensures
        r is Ok <==> spec_relay_plannable(roles@, request@.config),
        r is Err ==> (r->Err_0 == RelayError::MissingEveryoneRole <==> spec_first_role(
            roles@,
            EVERYONE_ROLE_NAME@,
        ) is None),
        (match r {
            Ok(plan) => {
                let ev = spec_first_role(roles@, EVERYONE_ROLE_NAME@)->0;
                let mi = spec_first_role(roles@, request@.config.moderator_role->0)->0;
                &&& plan@.announce == announce_text(request@.guild_name)
                &&& plan@.channel_name == channel_name_text(suffix@)
                &&& plan@.category == request@.config.category
                &&& plan@.overwrites =~= seq![
                    (Overwrite {
                        target: OverwriteTarget::Role(roles@[ev].id),
                        allow: 0,
                        deny: READ_MESSAGES,
                    }),
                    (Overwrite {
                        target: OverwriteTarget::Role(roles@[mi].id),
                        allow: USE_CHANNEL,
                        deny: 0,
                    }),
                    (Overwrite {
                        target: OverwriteTarget::Member(request@.message.author_id),
                        allow: USE_CHANNEL,
                        deny: 0,
                    }),
                    (Overwrite {
                        target: OverwriteTarget::Member(bot_id),
                        allow: USE_CHANNEL,
                        deny: 0,
                    }),
                ]
                &&& plan@.pause_seconds == CREATION_PAUSE_SECS
                &&& plan@.toggle_mentionable == !roles@[mi].mentionable
                &&& plan@.mod_role_id == roles@[mi].id
                &&& plan@.posts.len() == 2
                &&& plan@.posts[0].text == header_text(request@.message.author_id, roles@[mi].id)
                &&& plan@.posts[0].files.len() == 0
                &&& plan@.posts[1].text == request@.message.content
                &&& plan@.posts[1].files == request@.message.attachments
                &&& plan@.remove_overwrite_for == bot_id
            },
            Err(_) => true,
        }),
{
    let everyone_name = String::from_str(EVERYONE_ROLE_NAME);
    let everyone = match find_role(roles, &everyone_name) {
        Some(i) => i,
        None => {
            return Err(RelayError::MissingEveryoneRole);
        },
    };
    let moderator = match &request.config.moderator_role {
        Some(name) => match find_role(roles, name) {
            Some(i) => i,
            None => {
                return Err(RelayError::MissingModeratorRole);
            },
        },
        None => {
            return Err(RelayError::MissingModeratorRole);
        },
    };
    let mod_role_id = roles[moderator].id;
    let mod_mentionable = roles[moderator].mentionable;

    let mut channel_name = String::new();
    channel_name.append(CHANNEL_NAME_PREFIX);
    channel_name.append(suffix);

    let mut overwrites: Vec<Overwrite> = Vec::new();
    overwrites.push(
        Overwrite {
            target: OverwriteTarget::Role(roles[everyone].id),
            allow: 0,
            deny: READ_MESSAGES,
        },
    );
    overwrites.push(Overwrite { target: OverwriteTarget::Role(mod_role_id), allow: USE_CHANNEL, deny: 0 });
    overwrites.push(
        Overwrite {
            target: OverwriteTarget::Member(request.message.author_id),
            allow: USE_CHANNEL,
            deny: 0,
        },
    );
    overwrites.push(Overwrite { target: OverwriteTarget::Member(bot_id), allow: USE_CHANNEL, deny: 0 });

    let header = ChannelPost {
        text: header_message(request.message.author_id, mod_role_id),
        files: Vec::new(),
    };
    let copy = request.message.duplicate();
    let content = ChannelPost { text: copy.content, files: copy.attachments };
    let mut posts: Vec<ChannelPost> = Vec::new();
    posts.push(header);
    posts.push(content);

    let plan = RelayPlan {
        announce: announce_message(request.guild_name.as_str()),
        channel_name,
        category: request.config.category,
        overwrites,
        pause_seconds: CREATION_PAUSE_SECS,
        toggle_mentionable: !mod_mentionable,
        mod_role_id,
        posts,
        remove_overwrite_for: bot_id,
    };
    proof {
        assert(plan@.overwrites =~= seq![
            (Overwrite {
                target: OverwriteTarget::Role(roles@[spec_first_role(
                    roles@,
                    EVERYONE_ROLE_NAME@,
                )->0].id),
                allow: 0,
                deny: READ_MESSAGES,
            }),
            (Overwrite { target: OverwriteTarget::Role(mod_role_id), allow: USE_CHANNEL, deny: 0 }),
            (Overwrite {
                target: OverwriteTarget::Member(request@.message.author_id),
                allow: USE_CHANNEL,
                deny: 0,
            }),
            (Overwrite { target: OverwriteTarget::Member(bot_id), allow: USE_CHANNEL, deny: 0 }),
        ]);
        assert(plan@.channel_name =~= channel_name_text(suffix@));
    }
    Ok(plan)
}

} // verus!
