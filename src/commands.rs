//! What each bot command and platform event does to the clock and personal
//! tables. The platform's own work (creating a channel, posting a message,
//! sending a reply) happens between these steps, outside the library: a
//! command is planned, the resource is provisioned, and the outcome is
//! recorded.
use vstd::prelude::*;

use crate::personal::PersonalStore;
use crate::quota::{allow_creation, creation_allowed};
use crate::registry::{
    count_selected, guild_count, kept, storable_template, ClockRecord, ClockRegistry,
    ClockRow, Selector,
};
use crate::template::{has_placeholder, is_placeholder_letter, lemma_resolved_template, resolve_preset, resolved, DEFAULT_FORMAT};
use crate::text::{decimal, decimal_spec};
use crate::zone::{is_known_zone, parse_timezone, Timezone};

verus! {

/// What a command can fail with, as reported to the user.
#[derive(Clone, Copy, Debug, PartialEq, Eq, Structural)]
pub enum CommandError {
    /// The caller may not manage the group.
    NotAuthorized,
    /// No timezone was given.
    MissingTimezone,
    /// The timezone is not an IANA name the database knows.
    UnknownTimezone,
    /// The group already holds `max` channel clocks.
    QuotaReached { max: u32 },
    /// A check named no user, or more than one.
    WrongMentionCount,
    /// The channel or message could not be created.
    ProvisionFailed,
    /// No clock of the group has that channel or message.
    NotFound,
    /// The persisted store could not be reached.
    StoreUnavailable,
}

/// The text shown to the user for each error.
pub open spec fn error_text(e: CommandError) -> Seq<char> {
    match e {
        CommandError::NotAuthorized => "You need the Manage Server permission to do that."@,
        CommandError::MissingTimezone => "Please supply a timezone, for example `Europe/London`."@,
        CommandError::UnknownTimezone =>
            "Please supply a valid IANA timezone, for example `America/New_York`."@,
        CommandError::QuotaReached { max } => "This server has reached its limit of "@
            + decimal_spec(max as nat) + " clock channels."@,
        CommandError::WrongMentionCount =>
            "Please mention exactly one user whose time you want to check."@,
        CommandError::ProvisionFailed =>
            "The clock could not be created. Please check my permissions and try again."@,
        CommandError::NotFound => "No clock of this server has that channel or message."@,
        CommandError::StoreUnavailable => "Something went wrong while saving. Please try again."@,
    }
}

impl CommandError {
    /// The text shown to the user.
    pub fn message(&self) -> (r: String)
        ensures
            r@ == error_text(*self),
    {
        match *self {
            CommandError::NotAuthorized => "You need the Manage Server permission to do that.".to_owned(),
            CommandError::MissingTimezone => "Please supply a timezone, for example `Europe/London`.".to_owned(),
            CommandError::UnknownTimezone => "Please supply a valid IANA timezone, for example `America/New_York`.".to_owned(),
            CommandError::QuotaReached { max } => {
                let mut s = "This server has reached its limit of ".to_owned();
                let n = decimal(max);
                s.append(n.as_str());
                s.append(" clock channels.");
                s
            },
            CommandError::WrongMentionCount => "Please mention exactly one user whose time you want to check.".to_owned(),
            CommandError::ProvisionFailed => "The clock could not be created. Please check my permissions and try again.".to_owned(),
            CommandError::NotFound => "No clock of this server has that channel or message.".to_owned(),
            CommandError::StoreUnavailable => "Something went wrong while saving. Please try again.".to_owned(),
        }
    }
}

/// The view of an optional command argument.
pub open spec fn arg_view(a: Option<&str>) -> Option<Seq<char>> {
    match a {
        Some(s) => Some(s@),
        None => None,
    }
}

/// The template a clock gets from its optional template argument.
pub open spec fn chosen_template(a: Option<Seq<char>>) -> Seq<char> {
    match a {
        Some(t) => resolved(t),
        None => DEFAULT_FORMAT@,
    }
}

/// The outcome of planning a clock: its timezone and template, or the error.
/// `quota` is `None` for a message clock and, for a channel clock, the
/// group's current count of clocks and its ceiling.
pub open spec fn planned(
    may_manage: bool,
    timezone: Option<Seq<char>>,
    template: Option<Seq<char>>,
    quota: Option<(nat, u32)>,
) -> Result<(Seq<char>, Seq<char>), CommandError> {
    if !may_manage {
        Err(CommandError::NotAuthorized)
    } else {
        match timezone {
            None => Err(CommandError::MissingTimezone),
            Some(z) => if !is_known_zone(z) {
                Err(CommandError::UnknownTimezone)
            } else {
                match quota {
                    Some((count, max)) => if !creation_allowed(count as int, max as int) {
                        Err(CommandError::QuotaReached { max })
                    } else {
                        Ok((z, chosen_template(template)))
                    },
                    None => Ok((z, chosen_template(template))),
                }
            },
        }
    }
}

/// The view of a planning result.
pub open spec fn plan_view(r: Result<ClockPlan, CommandError>) -> Result<(Seq<char>, Seq<char>), CommandError> {
    match r {
        Ok(p) => Ok(p@),
        Err(e) => Err(e),
    }
}

/// A clock that has passed every check and waits for its resource.
#[derive(Debug)]
pub struct ClockPlan {
    timezone: Timezone,
    template: String,
}

impl View for ClockPlan {
    type V = (Seq<char>, Seq<char>);

    closed spec fn view(&self) -> (Seq<char>, Seq<char>) {
        (self.timezone@, self.template@)
    }
}

impl ClockPlan {
    #[verifier::type_invariant]
    spec fn well_formed(&self) -> bool {
        storable_template(self.template@)
    }

    /// The checked timezone.
    pub fn timezone(&self) -> (r: &Timezone)
        ensures
            r@ == self@.0,
    {
        &self.timezone
    }

    /// The template to render the clock's name or message with.
    pub fn template(&self) -> (r: &str)
        ensures
            r@ == self@.1,
    {
        self.template.as_str()
    }
}

fn plan_clock(may_manage: bool, timezone: Option<&str>, template: Option<&str>, quota: Option<(
    usize,
    u32,
)>) -> (r: Result<ClockPlan, CommandError>)
    ensures
        plan_view(r) == planned(
                may_manage,
                arg_view(timezone),
                arg_view(template),
                match quota {
                    Some((c, m)) => Some((c as nat, m)),
                    None => None,
                },
            ),
{
    if !may_manage {
        return Err(CommandError::NotAuthorized);
    }
    let zone_name = match timezone {
        None => {
            return Err(CommandError::MissingTimezone);
        },
        Some(z) => z,
    };
    let tz = match parse_timezone(zone_name) {
        Ok(tz) => tz,
        Err(_) => {
            return Err(CommandError::UnknownTimezone);
        },
    };
    if let Some((count, max)) = quota {
        let allowed = if count > u32::MAX as usize {
            false
        } else {
            allow_creation(count as u32, max)
        };
        if !allowed {
            return Err(CommandError::QuotaReached { max });
        }
    }
    let chosen = match template {
        Some(t) => resolve_preset(t),
        None => DEFAULT_FORMAT.to_owned(),
    };
    proof {
        match template {
            Some(t) => lemma_resolved_template(t@),
            None => lemma_resolved_template(DEFAULT_FORMAT@),
        }
        if template is None {
            assert(resolved(DEFAULT_FORMAT@) == DEFAULT_FORMAT@) by {
                reveal_strlit("🕒 %H:%M (%Z)");
                reveal_strlit("preset:");
                assert(DEFAULT_FORMAT@.subrange(0, 7)[0] != "preset:"@[0]);
                assert(DEFAULT_FORMAT@[2] == '%' && is_placeholder_letter(DEFAULT_FORMAT@[3]));
                assert(has_placeholder(DEFAULT_FORMAT@));
            }
        }
    }
    Ok(ClockPlan { timezone: tz, template: chosen })
}

/// Checks a `new` command: the caller may manage the group, the timezone is
/// known, and the group `guild_id` holds fewer than `max` channel clocks.
pub fn plan_channel_clock(
    registry: &ClockRegistry,
    guild_id: u64,
    may_manage: bool,
    timezone: Option<&str>,
    template: Option<&str>,
    max: u32,
) -> (r: Result<ClockPlan, CommandError>)
    ensures
        plan_view(r) == planned(
                may_manage,
                arg_view(timezone),
                arg_view(template),
                Some((guild_count(registry@, guild_id), max)),
            ),
{
    let count = registry.count_by_guild(guild_id);
    plan_clock(may_manage, timezone, template, Some((count, max)))
}

/// Checks a `space` command, which creates a standing-message clock.
pub fn plan_message_clock(may_manage: bool, timezone: Option<&str>, template: Option<&str>) -> (r:
    Result<ClockPlan, CommandError>)
    ensures
        plan_view(r) == planned(may_manage, arg_view(timezone), arg_view(template), None),
{
    plan_clock(may_manage, timezone, template, None)
}

/// What the platform did with a planned clock's resource.
#[derive(Clone, Copy, Debug, PartialEq, Eq, Structural)]
pub enum Provisioned {
    /// Nothing was created.
    Failed,
    /// A channel was created; `restricted` tells whether joining it was
    /// then denied to the group's default role.
    Channel { channel_id: u64, restricted: bool },
    /// A standing message was posted.
    Message { channel_id: u64, message_id: u64 },
}

/// How a clock's creation went, where it went at all.
#[derive(Clone, Copy, Debug, PartialEq, Eq, Structural)]
pub enum ClockOutcome {
    /// The clock exists as asked.
    Created,
    /// The channel exists but anyone may join it: the permission change
    /// failed and is left to an administrator.
    CreatedWithoutRestriction,
}

/// The row a plan becomes in the group `guild_id` once provisioned.
pub open spec fn planned_row(plan: (Seq<char>, Seq<char>), guild_id: u64, outcome: Provisioned) -> ClockRow {
    match outcome {
        Provisioned::Message { channel_id, message_id } => ClockRow {
            channel_id,
            message_id: Some(message_id),
            guild_id,
            timezone: plan.0,
            name_template: plan.1,
        },
        Provisioned::Channel { channel_id, .. } => ClockRow {
            channel_id,
            message_id: None,
            guild_id,
            timezone: plan.0,
            name_template: plan.1,
        },
        Provisioned::Failed => ClockRow {
            channel_id: 0,
            message_id: None,
            guild_id,
            timezone: plan.0,
            name_template: plan.1,
        },
    }
}

/// Records a planned clock once the platform has answered: a failure leaves
/// the table as it was; a created resource, restricted or not, gets its row.
pub fn complete_clock(
    registry: &mut ClockRegistry,
    plan: ClockPlan,
    guild_id: u64,
    outcome: Provisioned,
) -> (r: Result<ClockOutcome, CommandError>)
    ensures
        outcome is Failed ==> r == Err::<ClockOutcome, CommandError>(CommandError::ProvisionFailed)
            && final(registry)@ == old(registry)@,
        !(outcome is Failed) ==> final(registry)@ == old(registry)@.push(
            planned_row(plan@, guild_id, outcome),
        ),
        outcome matches Provisioned::Channel { restricted, .. } ==> r == if restricted {
            Ok::<ClockOutcome, CommandError>(ClockOutcome::Created)
        } else {
            Ok(ClockOutcome::CreatedWithoutRestriction)
        },
        outcome is Message ==> r == Ok::<ClockOutcome, CommandError>(ClockOutcome::Created),
{
    proof {
        use_type_invariant(&plan);
    }
    let (channel_id, message_id, result) = match outcome {
        Provisioned::Failed => {
            return Err(CommandError::ProvisionFailed);
        },
        Provisioned::Channel { channel_id, restricted } => (
            channel_id,
            None,
            if restricted {
                ClockOutcome::Created
            } else {
                ClockOutcome::CreatedWithoutRestriction
            },
        ),
        Provisioned::Message { channel_id, message_id } => (
            channel_id,
            Some(message_id),
            ClockOutcome::Created,
        ),
    };
    let ClockPlan { timezone, template } = plan;
    match ClockRecord::new(channel_id, message_id, guild_id, timezone, template) {
        Ok(rec) => {
            registry.insert(rec);
            Ok(result)
        },
        Err(_) => Err(CommandError::ProvisionFailed),
    }
}

} // verus!

verus! {

/// Handles a `personal` command: a known timezone becomes the caller's,
/// replacing any earlier one; anything else leaves the table as it was.
pub fn set_personal_timezone(store: &mut PersonalStore, user_id: u64, timezone: Option<&str>) -> (r:
    Result<Timezone, CommandError>)
    ensures
        timezone is None ==> r == Err::<Timezone, CommandError>(CommandError::MissingTimezone),
        timezone matches Some(z) ==> (r is Ok <==> is_known_zone(z@)),
        timezone matches Some(z) && !is_known_zone(z@) ==> r == Err::<Timezone, CommandError>(
            CommandError::UnknownTimezone,
        ),
        r matches Ok(tz) ==> (timezone matches Some(z) && tz@ == z@ && final(store)@ == old(
            store,
        )@.insert(user_id, z@)),
        r is Err ==> final(store)@ == old(store)@,
{
    let name = match timezone {
        None => {
            return Err(CommandError::MissingTimezone);
        },
        Some(z) => z,
    };
    match parse_timezone(name) {
        Ok(tz) => {
            store.upsert(user_id, tz.clone());
            Ok(tz)
        },
        Err(_) => Err(CommandError::UnknownTimezone),
    }
}

/// Handles a `check` command: exactly one user must be mentioned; the answer
/// is that user and their timezone, if they set one. The table is only read.
pub fn check_personal_timezone(store: &PersonalStore, mentions: &[u64]) -> (r: Result<
    (u64, Option<Timezone>),
    CommandError,
>)
    ensures
        mentions@.len() != 1 ==> r == Err::<(u64, Option<Timezone>), CommandError>(
            CommandError::WrongMentionCount,
        ),
        mentions@.len() == 1 ==> (r matches Ok((user, zone)) && user == mentions@[0] && (zone is Some
            <==> store@.contains_key(user)) && (zone matches Some(tz) ==> tz@ == store@[user])),
{
    if mentions.len() != 1 {
        return Err(CommandError::WrongMentionCount);
    }
    let user = mentions[0];
    match store.get(user) {
        Some(tz) => Ok((user, Some(tz.clone()))),
        None => Ok((user, None)),
    }
}

/// Handles an explicit request to remove the clock of channel or message
/// `resource_id` in the group `guild_id`.
pub fn remove_clock(
    registry: &mut ClockRegistry,
    guild_id: u64,
    may_manage: bool,
    resource_id: u64,
) -> (r: Result<(), CommandError>)
    ensures
        !may_manage ==> r == Err::<(), CommandError>(CommandError::NotAuthorized)
            && final(registry)@ == old(registry)@,
        may_manage ==> final(registry)@ == kept(
            old(registry)@,
            Selector::Resource { id: resource_id, guild_id },
        ),
        may_manage ==> (r is Ok <==> count_selected(
            old(registry)@,
            Selector::Resource { id: resource_id, guild_id },
        ) > 0),
        may_manage && r is Err ==> r == Err::<(), CommandError>(CommandError::NotFound),
{
    if !may_manage {
        return Err(CommandError::NotAuthorized);
    }
    if registry.delete_by_explicit_request(resource_id, guild_id) {
        Ok(())
    } else {
        Err(CommandError::NotFound)
    }
}

/// The notifications the platform delivers.
#[derive(Clone, Copy, Debug, PartialEq, Eq, Structural)]
pub enum PlatformEvent {
    /// The session is up.
    Ready,
    /// A channel was deleted.
    ChannelDeleted { channel_id: u64 },
    /// The bot joined a group.
    GuildCreated { guild_id: u64 },
    /// The bot left a group, or it was removed.
    GuildDeleted { guild_id: u64 },
}

/// Reconciles the clock table with a platform event and returns how many rows
/// it removed: a deleted channel loses every clock row; other events change
/// nothing.
pub fn handle_event(registry: &mut ClockRegistry, event: PlatformEvent) -> (r: usize)
    ensures
        event matches PlatformEvent::ChannelDeleted { channel_id } ==> final(registry)@ == kept(
            old(registry)@,
            Selector::Channel(channel_id),
        ) && r == count_selected(old(registry)@, Selector::Channel(channel_id)),
        !(event is ChannelDeleted) ==> final(registry)@ == old(registry)@ && r == 0,
{
    match event {
        PlatformEvent::ChannelDeleted { channel_id } => registry.delete_by_channel(channel_id),
        PlatformEvent::Ready => 0,
        PlatformEvent::GuildCreated { .. } => 0,
        PlatformEvent::GuildDeleted { .. } => 0,
    }
}

} // verus!

verus! {

/// The reply to a `personal` command, given the caller's time rendered in
/// the new zone.
pub fn personal_reply(time: &str) -> (r: String)
    ensures
        r@ == "Your current time should be "@ + time@,
{
    let mut s = "Your current time should be ".to_owned();
    s.append(time);
    s
}

/// The reply to a `check` command about the user called `name`, given their
/// rendered time, or `None` where they set no timezone.
pub fn check_reply(name: &str, time: Option<&str>) -> (r: String)
    ensures
        time matches Some(t) ==> r@ == name@ + "'s current time is `"@ + t@ + "`"@,
        time is None ==> r@ == name@ + " has not set a personal timezone."@,
{
    let mut s = name.to_owned();
    match time {
        Some(t) => {
            s.append("'s current time is `");
            s.append(t);
            s.append("`");
        },
        None => {
            s.append(" has not set a personal timezone.");
        },
    }
    s
}

/// The text reported once a clock was created.
pub open spec fn outcome_text(o: ClockOutcome) -> Seq<char> {
    match o {
        ClockOutcome::Created => "The clock has been created."@,
        ClockOutcome::CreatedWithoutRestriction =>
            "The clock has been created, but I could not stop members joining its channel. Please deny the Connect permission on it yourself."@,
    }
}

impl ClockOutcome {
    /// The text reported to the user.
    pub fn message(&self) -> (r: String)
        ensures
            r@ == outcome_text(*self),
    {
        match *self {
            ClockOutcome::Created => "The clock has been created.".to_owned(),
            ClockOutcome::CreatedWithoutRestriction => "The clock has been created, but I could not stop members joining its channel. Please deny the Connect permission on it yourself.".to_owned(),
        }
    }
}

} // verus!
