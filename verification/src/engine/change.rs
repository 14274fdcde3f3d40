//! Handling a change of reactions: bring the participant list of the
//! message up to date and announce the party once it is complete.

use vstd::prelude::*;
use vstd::string::*;
use crate::embed::{opt_embed_view, participants_embed, with_participants, Embed, EmbedView};
use crate::engine::{
    Action, ActionView, EngineError, Event, EventView, Outcome, PARTY_CAPACITY,
};
use crate::messages::{completion_message, completion_text, DEFAULT_COMPLETION_TEXT};
use crate::participants::{
    group_views, participants, unique_users, GroupView, ReactionGroup,
};
use crate::recruitment::{Recruitment, RecruitmentStatus};
use crate::scan::{spec_targets, ReactionScan, ScanModel};

verus! {

/// Where the handling of a reaction change stands.
#[derive(Debug)]
pub enum ChangeFlow {
    /// The store is being asked for the recruitment of the message.
    Loading { guild_id: u64, channel_id: u64, message_id: u64, bot_id: u64 },
    /// The message is being fetched.
    FetchingMessage { recruitment: Recruitment, bot_id: u64 },
    /// The reacting users are being fetched.
    Scanning { recruitment: Recruitment, embed: Option<Embed>, scan: ReactionScan },
    /// The embed of the message is being replaced.
    Editing { recruitment: Recruitment, participants: Vec<u64> },
    /// The completion announcement is being taken on.
    Claiming { recruitment: Recruitment, participants: Vec<u64> },
    /// The wording of the announcement is being looked up.
    FetchingText { recruitment: Recruitment, participants: Vec<u64> },
    /// The announcement is being posted.
    Announcing { recruitment: Recruitment },
    /// The posted announcement is being recorded.
    Recording,
    /// The announcement could not be posted and is being given up.
    Releasing,
    Finished(Outcome),
}

/// The state of a reaction change, as plain values.
pub enum ChangeModel {
    Loading { guild_id: u64, channel_id: u64, message_id: u64, bot_id: u64 },
    FetchingMessage { recruitment: Recruitment, bot_id: u64 },
    Scanning { recruitment: Recruitment, embed: Option<EmbedView>, scan: ScanModel },
    Editing { recruitment: Recruitment, participants: Seq<u64> },
    Claiming { recruitment: Recruitment, participants: Seq<u64> },
    FetchingText { recruitment: Recruitment, participants: Seq<u64> },
    Announcing { recruitment: Recruitment },
    Recording,
    Releasing,
    Finished(Outcome),
}

impl View for ChangeFlow {
    type V = ChangeModel;

    open spec fn view(&self) -> ChangeModel {
        match *self {
            ChangeFlow::Loading { guild_id, channel_id, message_id, bot_id } => ChangeModel::Loading {
                guild_id,
                channel_id,
                message_id,
                bot_id,
            },
            ChangeFlow::FetchingMessage { recruitment, bot_id } => ChangeModel::FetchingMessage {
                recruitment,
                bot_id,
            },
            ChangeFlow::Scanning { recruitment, embed, scan } => ChangeModel::Scanning {
                recruitment,
                embed: opt_embed_view(embed),
                scan: scan@,
            },
            ChangeFlow::Editing { recruitment, participants } => ChangeModel::Editing {
                recruitment,
                participants: participants@,
            },
            ChangeFlow::Claiming { recruitment, participants } => ChangeModel::Claiming {
                recruitment,
                participants: participants@,
            },
            ChangeFlow::FetchingText { recruitment, participants } => ChangeModel::FetchingText {
                recruitment,
                participants: participants@,
            },
            ChangeFlow::Announcing { recruitment } => ChangeModel::Announcing { recruitment },
            ChangeFlow::Recording => ChangeModel::Recording,
            ChangeFlow::Releasing => ChangeModel::Releasing,
            ChangeFlow::Finished(outcome) => ChangeModel::Finished(outcome),
        }
    }
}

/// A flow that ends here with `outcome`.
pub open spec fn finished(outcome: Outcome) -> (ChangeModel, ActionView) {
    (ChangeModel::Finished(outcome), ActionView::Finish(outcome))
}

/// Whether a recruitment was cancelled or started: its message is left
/// alone from then on.
pub open spec fn is_closed(status: RecruitmentStatus) -> bool {
    status == RecruitmentStatus::Cancelled || status == RecruitmentStatus::Started
}

/// Whether the party is complete and nobody has announced it or taken the
/// announcement on.
pub open spec fn completion_due(participants: Seq<u64>, status: RecruitmentStatus) -> bool {
    participants.len() >= PARTY_CAPACITY && status == RecruitmentStatus::Open
}

/// What follows the edit of the embed: the claim of the announcement where
/// one is due, the end of the flow otherwise.
pub open spec fn after_edit(recruitment: Recruitment, participants: Seq<u64>) -> (
    ChangeModel,
    ActionView,
) {
    if completion_due(participants, recruitment.status) {
        (
            ChangeModel::Claiming { recruitment, participants },
            ActionView::ClaimCompletion { recruitment_id: recruitment.id },
        )
    } else {
        finished(Outcome::Updated { announced: false })
    }
}

/// What follows the scan: the embed of the message is replaced by one that
/// shows the groups; a message without an embed is not edited.
pub open spec fn after_scan(
    recruitment: Recruitment,
    embed: Option<EmbedView>,
    groups: Seq<GroupView>,
) -> (ChangeModel, ActionView) {
    match embed {
        Some(current) => (
            ChangeModel::Editing { recruitment, participants: participants(groups) },
            ActionView::EditMessage {
                channel_id: recruitment.channel_id,
                message_id: recruitment.message_id,
                content: None,
                embed: Some(with_participants(current, groups)),
            },
        ),
        None => after_edit(recruitment, participants(groups)),
    }
}

/// The next page of the scan, or what follows the scan once it is done.
pub open spec fn scan_on(recruitment: Recruitment, embed: Option<EmbedView>, scan: ScanModel) -> (
    ChangeModel,
    ActionView,
) {
    match scan.request() {
        Some(request) => (
            ChangeModel::Scanning { recruitment, embed, scan },
            ActionView::FetchReactionUsers {
                channel_id: recruitment.channel_id,
                message_id: recruitment.message_id,
                request,
            },
        ),
        None => after_scan(recruitment, embed, scan.groups),
    }
}

impl ChangeModel {
    /// The state a reaction change starts in.  A reaction outside a guild
    /// and a reaction of the bot itself concern no recruitment.
    pub open spec fn start(
        guild_id: Option<u64>,
        channel_id: u64,
        message_id: u64,
        reacting_user: Option<u64>,
        bot_id: u64,
    ) -> (ChangeModel, ActionView) {
        match guild_id {
            Some(guild_id) => if reacting_user == Some(bot_id) {
                finished(Outcome::Ignored)
            } else {
                (
                    ChangeModel::Loading { guild_id, channel_id, message_id, bot_id },
                    ActionView::GetRecruitment { guild_id, channel_id, message_id },
                )
            },
            None => finished(Outcome::Ignored),
        }
    }

    /// The next state and the next action, given what the last action came
    /// to.
    ///
    /// A message without a recruitment, a recruitment that was cancelled or
    /// started, and a message that is not the bot's own are left alone.
    /// Users that cannot be fetched for one element leave that element
    /// without a group.  The announcement is posted only by the flow whose
    /// claim was granted, and given up again if it cannot be posted.
    pub open spec fn step(self, event: EventView) -> (ChangeModel, ActionView) {
        match self {
            ChangeModel::Loading { guild_id, channel_id, message_id, bot_id } => match event {
                EventView::RecruitmentLookedUp(Some(recruitment)) => if is_closed(
                    recruitment.status,
                ) {
                    finished(Outcome::Ignored)
                } else {
                    (
                        ChangeModel::FetchingMessage { recruitment, bot_id },
                        ActionView::FetchMessage {
                            channel_id: recruitment.channel_id,
                            message_id: recruitment.message_id,
                        },
                    )
                },
                EventView::RecruitmentLookedUp(None) => finished(Outcome::Ignored),
                _ => finished(Outcome::Failed(EngineError::Persistence)),
            },
            ChangeModel::FetchingMessage { recruitment, bot_id } => match event {
                EventView::MessageFetched(snapshot) => if snapshot.author_id != bot_id {
                    finished(Outcome::Ignored)
                } else {
                    scan_on(
                        recruitment,
                        snapshot.embed,
                        ScanModel::start(
                            spec_targets(recruitment.battle_type, snapshot.reactions),
                            bot_id,
                        ),
                    )
                },
                _ => finished(Outcome::Failed(EngineError::Platform)),
            },
            ChangeModel::Scanning { recruitment, embed, scan } => match event {
                EventView::UsersFetched(page) => scan_on(recruitment, embed, scan.accept(page)),
                _ => scan_on(recruitment, embed, scan.skip()),
            },
            ChangeModel::Editing { recruitment, participants } => match event {
                EventView::Done => after_edit(recruitment, participants),
                _ => finished(Outcome::Failed(EngineError::Platform)),
            },
            ChangeModel::Claiming { recruitment, participants } => match event {
                EventView::Claimed(true) => (
                    ChangeModel::FetchingText { recruitment, participants },
                    ActionView::GetCompletionText { guild_id: recruitment.guild_id },
                ),
                EventView::Claimed(false) => finished(Outcome::Updated { announced: false }),
                _ => finished(Outcome::Failed(EngineError::Persistence)),
            },
            ChangeModel::FetchingText { recruitment, participants } => {
                let wording = match event {
                    EventView::CompletionText(Some(text)) => text,
                    _ => DEFAULT_COMPLETION_TEXT@,
                };
                (
                    ChangeModel::Announcing { recruitment },
                    ActionView::SendMessage {
                        channel_id: recruitment.channel_id,
                        content: completion_text(participants, wording),
                        embed: None,
                    },
                )
            },
            ChangeModel::Announcing { recruitment } => match event {
                EventView::MessageSent(message_id) => (
                    ChangeModel::Recording,
                    ActionView::RecordCompletion { recruitment_id: recruitment.id, message_id },
                ),
                _ => (
                    ChangeModel::Releasing,
                    ActionView::ReleaseCompletion { recruitment_id: recruitment.id },
                ),
            },
            ChangeModel::Recording => finished(Outcome::Updated { announced: true }),
            ChangeModel::Releasing => finished(Outcome::Failed(EngineError::Platform)),
            ChangeModel::Finished(outcome) => finished(outcome),
        }
    }
}

fn finish(outcome: Outcome) -> (r: (ChangeFlow, Action))
    ensures
        (r.0@, r.1@) == finished(outcome),
{
    (ChangeFlow::Finished(outcome), Action::Finish(outcome))
}

fn continue_after_edit(recruitment: Recruitment, participants: Vec<u64>) -> (r: (ChangeFlow, Action))
    ensures
        (r.0@, r.1@) == after_edit(recruitment, participants@),
{
    if participants.len() >= PARTY_CAPACITY && recruitment.status == RecruitmentStatus::Open {
        (
            ChangeFlow::Claiming { recruitment, participants },
            Action::ClaimCompletion { recruitment_id: recruitment.id },
        )
    } else {
        finish(Outcome::Updated { announced: false })
    }
}

fn continue_after_scan(recruitment: Recruitment, embed: Option<Embed>, groups: Vec<ReactionGroup>) -> (r:
    (ChangeFlow, Action))
    ensures
        (r.0@, r.1@) == after_scan(recruitment, opt_embed_view(embed), group_views(groups@)),
{
    let participants = unique_users(&groups);
    match embed {
        Some(current) => {
            let rendered = participants_embed(&current, &groups);
            (
                ChangeFlow::Editing { recruitment, participants },
                Action::EditMessage {
                    channel_id: recruitment.channel_id,
                    message_id: recruitment.message_id,
                    content: None,
                    embed: Some(rendered),
                },
            )
        },
        None => continue_after_edit(recruitment, participants),
    }
}

fn continue_scan(recruitment: Recruitment, embed: Option<Embed>, scan: ReactionScan) -> (r: (
    ChangeFlow,
    Action,
))
    ensures
        (r.0@, r.1@) == scan_on(recruitment, opt_embed_view(embed), scan@),
{
    match scan.request() {
        Some(request) => (
            ChangeFlow::Scanning { recruitment, embed, scan },
            Action::FetchReactionUsers {
                channel_id: recruitment.channel_id,
                message_id: recruitment.message_id,
                request,
            },
        ),
        None => {
            let groups = scan.into_groups();
            continue_after_scan(recruitment, embed, groups)
        },
    }
}

impl ChangeFlow {
    /// Starts the handling of a reaction that `reacting_user` added to or
    /// removed from a message; `bot_id` is the bot's own account.
    pub fn begin(
        guild_id: Option<u64>,
        channel_id: u64,
        message_id: u64,
        reacting_user: Option<u64>,
        bot_id: u64,
    ) -> (r: (ChangeFlow, Action))
        ensures
            (r.0@, r.1@) == ChangeModel::start(
                guild_id,
                channel_id,
                message_id,
                reacting_user,
                bot_id,
            ),
    {
        let own = match reacting_user {
            Some(user) => user == bot_id,
            None => false,
        };
        match guild_id {
            Some(guild_id) => {
                if own {
                    finish(Outcome::Ignored)
                } else {
                    (
                        ChangeFlow::Loading { guild_id, channel_id, message_id, bot_id },
                        Action::GetRecruitment { guild_id, channel_id, message_id },
                    )
                }
            },
            None => finish(Outcome::Ignored),
        }
    }

    /// Takes in what the last action came to and says what to do next.
    pub fn step(self, event: Event) -> (r: (ChangeFlow, Action))
        ensures
            (r.0@, r.1@) == self@.step(event@),
    {
        match self {
            ChangeFlow::Loading { guild_id, channel_id, message_id, bot_id } => match event {
                Event::RecruitmentLookedUp(Some(recruitment)) => {
                    if recruitment.status == RecruitmentStatus::Cancelled || recruitment.status
                        == RecruitmentStatus::Started {
                        finish(Outcome::Ignored)
                    } else {
                        (
                            ChangeFlow::FetchingMessage { recruitment, bot_id },
                            Action::FetchMessage {
                                channel_id: recruitment.channel_id,
                                message_id: recruitment.message_id,
                            },
                        )
                    }
                },
                Event::RecruitmentLookedUp(None) => finish(Outcome::Ignored),
                _ => finish(Outcome::Failed(EngineError::Persistence)),
            },
            ChangeFlow::FetchingMessage { recruitment, bot_id } => match event {
                Event::MessageFetched(snapshot) => {
                    if snapshot.author_id != bot_id {
                        finish(Outcome::Ignored)
                    } else {
                        let scan = ReactionScan::begin(
                            recruitment.battle_type,
                            &snapshot.reactions,
                            bot_id,
                        );
                        continue_scan(recruitment, snapshot.embed, scan)
                    }
                },
                _ => finish(Outcome::Failed(EngineError::Platform)),
            },
            ChangeFlow::Scanning { recruitment, embed, scan } => match event {
                Event::UsersFetched(page) => {
                    let scan = scan.accept_page(&page);
                    continue_scan(recruitment, embed, scan)
                },
                _ => {
                    let scan = scan.skip_failed();
                    continue_scan(recruitment, embed, scan)
                },
            },
            ChangeFlow::Editing { recruitment, participants } => match event {
                Event::Done => continue_after_edit(recruitment, participants),
                _ => finish(Outcome::Failed(EngineError::Platform)),
            },
            ChangeFlow::Claiming { recruitment, participants } => match event {
                Event::Claimed(true) => (
                    ChangeFlow::FetchingText { recruitment, participants },
                    Action::GetCompletionText { guild_id: recruitment.guild_id },
                ),
                Event::Claimed(false) => finish(Outcome::Updated { announced: false }),
                _ => finish(Outcome::Failed(EngineError::Persistence)),
            },
            ChangeFlow::FetchingText { recruitment, participants } => {
                let content = match event {
                    Event::CompletionText(Some(text)) => completion_message(
                        &participants,
                        text.as_str(),
                    ),
                    _ => completion_message(&participants, DEFAULT_COMPLETION_TEXT),
                };
                (
                    ChangeFlow::Announcing { recruitment },
                    Action::SendMessage {
                        channel_id: recruitment.channel_id,
                        content,
                        embed: None,
                    },
                )
            },
            ChangeFlow::Announcing { recruitment } => match event {
                Event::MessageSent(message_id) => (
                    ChangeFlow::Recording,
                    Action::RecordCompletion { recruitment_id: recruitment.id, message_id },
                ),
                _ => (
                    ChangeFlow::Releasing,
                    Action::ReleaseCompletion { recruitment_id: recruitment.id },
                ),
            },
            ChangeFlow::Recording => finish(Outcome::Updated { announced: true }),
            ChangeFlow::Releasing => finish(Outcome::Failed(EngineError::Platform)),
            ChangeFlow::Finished(outcome) => finish(outcome),
        }
    }

    /// How the handling ended, none while it is under way.
    pub fn outcome(&self) -> (r: Option<Outcome>)
        ensures
            r == match self@ {
                ChangeModel::Finished(outcome) => Some(outcome),
                _ => None,
            },
    {
        match self {
            ChangeFlow::Finished(outcome) => Some(*outcome),
            _ => None,
        }
    }
}

} // verus!
