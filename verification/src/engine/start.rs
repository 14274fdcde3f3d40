//! Starting a recruitment: tell the participants that it is time to depart.

use vstd::prelude::*;
use vstd::string::*;
use crate::engine::{Action, ActionView, EngineError, Event, EventView, Outcome};
use crate::messages::{start_notice, start_text};
use crate::participants::{participants, unique_users, GroupView};
use crate::recruitment::Recruitment;
use crate::scan::{spec_targets, ReactionScan, ScanModel};
use crate::text::{mention_strings, mentions};

verus! {

/// The name shown for a quest that the directory does not know.
pub const UNNAMED_QUEST: &'static str = "クエスト";

/// Where the start of a recruitment stands.
#[derive(Debug)]
pub enum StartFlow {
    /// The store is being asked for the recruitment of the message.
    Loading { guild_id: u64, channel_id: u64, message_id: u64, recruitment_id: i32, bot_id: u64 },
    /// The directory is being asked for the quest's name.
    NamingQuest { recruitment: Recruitment, bot_id: u64 },
    /// The message is being fetched.
    FetchingMessage { recruitment: Recruitment, quest_name: String, bot_id: u64 },
    /// The reacting users are being fetched.
    Scanning { recruitment: Recruitment, quest_name: String, scan: ReactionScan },
    /// The notice is being posted.
    Notifying { recruitment: Recruitment },
    /// The recruitment is being marked as started.
    Closing,
    Finished(Outcome),
}

/// The state of a start, as plain values.
pub enum StartModel {
    Loading { guild_id: u64, channel_id: u64, message_id: u64, recruitment_id: i32, bot_id: u64 },
    NamingQuest { recruitment: Recruitment, bot_id: u64 },
    FetchingMessage { recruitment: Recruitment, quest_name: Seq<char>, bot_id: u64 },
    Scanning { recruitment: Recruitment, quest_name: Seq<char>, scan: ScanModel },
    Notifying { recruitment: Recruitment },
    Closing,
    Finished(Outcome),
}

impl View for StartFlow {
    type V = StartModel;

    open spec fn view(&self) -> StartModel {
        match *self {
            StartFlow::Loading {
                guild_id,
                channel_id,
                message_id,
                recruitment_id,
                bot_id,
            } => StartModel::Loading { guild_id, channel_id, message_id, recruitment_id, bot_id },
            StartFlow::NamingQuest { recruitment, bot_id } => StartModel::NamingQuest {
                recruitment,
                bot_id,
            },
            StartFlow::FetchingMessage {
                recruitment,
                quest_name,
                bot_id,
            } => StartModel::FetchingMessage { recruitment, quest_name: quest_name@, bot_id },
            StartFlow::Scanning { recruitment, quest_name, scan } => StartModel::Scanning {
                recruitment,
                quest_name: quest_name@,
                scan: scan@,
            },
            StartFlow::Notifying { recruitment } => StartModel::Notifying { recruitment },
            StartFlow::Closing => StartModel::Closing,
            StartFlow::Finished(outcome) => StartModel::Finished(outcome),
        }
    }
}

/// A flow that ends here with `outcome`.
pub open spec fn finished(outcome: Outcome) -> (StartModel, ActionView) {
    (StartModel::Finished(outcome), ActionView::Finish(outcome))
}

/// The fetch of the message, once the name to show is settled.
pub open spec fn fetch_message(recruitment: Recruitment, quest_name: Seq<char>, bot_id: u64) -> (
    StartModel,
    ActionView,
) {
    (
        StartModel::FetchingMessage { recruitment, quest_name, bot_id },
        ActionView::FetchMessage {
            channel_id: recruitment.channel_id,
            message_id: recruitment.message_id,
        },
    )
}

/// What follows the scan: the notice, a reply to the recruitment message
/// that mentions every participant.
pub open spec fn after_scan(recruitment: Recruitment, quest_name: Seq<char>, groups: Seq<GroupView>) -> (
    StartModel,
    ActionView,
) {
    (
        StartModel::Notifying { recruitment },
        ActionView::SendReply {
            channel_id: recruitment.channel_id,
            reply_to: recruitment.message_id,
            content: start_text(quest_name, mentions(participants(groups))),
        },
    )
}

/// The next page of the scan, or what follows the scan once it is done.
pub open spec fn scan_on(recruitment: Recruitment, quest_name: Seq<char>, scan: ScanModel) -> (
    StartModel,
    ActionView,
) {
    match scan.request() {
        Some(request) => (
            StartModel::Scanning { recruitment, quest_name, scan },
            ActionView::FetchReactionUsers {
                channel_id: recruitment.channel_id,
                message_id: recruitment.message_id,
                request,
            },
        ),
        None => after_scan(recruitment, quest_name, scan.groups),
    }
}

impl StartModel {
    /// The state a start begins in.
    pub open spec fn start(
        guild_id: u64,
        channel_id: u64,
        message_id: u64,
        recruitment_id: i32,
        bot_id: u64,
    ) -> (StartModel, ActionView) {
        (
            StartModel::Loading { guild_id, channel_id, message_id, recruitment_id, bot_id },
            ActionView::GetRecruitment { guild_id, channel_id, message_id },
        )
    }

    /// The next state and the next action, given what the last action came
    /// to.
    ///
    /// A message without a recruitment, or with another recruitment than
    /// the one asked for, ends the flow with `NotFound`.  A recruitment that
    /// has reached a terminal state is left as it is: nothing is posted.  A
    /// quest that the directory does not know is shown under a placeholder
    /// name.
    pub open spec fn step(self, event: EventView) -> (StartModel, ActionView) {
        match self {
            StartModel::Loading { guild_id, channel_id, message_id, recruitment_id, bot_id } => {
                match event {
                    EventView::RecruitmentLookedUp(Some(recruitment)) => if recruitment.id
                        != recruitment_id {
                        finished(Outcome::Failed(EngineError::NotFound))
                    } else if recruitment.status.spec_is_terminal() {
                        finished(Outcome::Ignored)
                    } else {
                        match recruitment.target_id {
                            Some(target_id) => (
                                StartModel::NamingQuest { recruitment, bot_id },
                                ActionView::FindQuestByTargetId { target_id },
                            ),
                            None => fetch_message(recruitment, UNNAMED_QUEST@, bot_id),
                        }
                    },
                    EventView::RecruitmentLookedUp(None) => finished(
                        Outcome::Failed(EngineError::NotFound),
                    ),
                    _ => finished(Outcome::Failed(EngineError::Persistence)),
                }
            },
            StartModel::NamingQuest { recruitment, bot_id } => match event {
                EventView::QuestLookedUp(Some(quest)) => fetch_message(
                    recruitment,
                    quest.quest_name,
                    bot_id,
                ),
                _ => fetch_message(recruitment, UNNAMED_QUEST@, bot_id),
            },
            StartModel::FetchingMessage { recruitment, quest_name, bot_id } => match event {
                EventView::MessageFetched(snapshot) => scan_on(
                    recruitment,
                    quest_name,
                    ScanModel::start(
                        spec_targets(recruitment.battle_type, snapshot.reactions),
                        bot_id,
                    ),
                ),
                _ => finished(Outcome::Failed(EngineError::Platform)),
            },
            StartModel::Scanning { recruitment, quest_name, scan } => match event {
                EventView::UsersFetched(page) => scan_on(
                    recruitment,
                    quest_name,
                    scan.accept(page),
                ),
                _ => scan_on(recruitment, quest_name, scan.skip()),
            },
            StartModel::Notifying { recruitment } => match event {
                EventView::MessageSent(_) => (
                    StartModel::Closing,
                    ActionView::MarkStarted { recruitment_id: recruitment.id },
                ),
                _ => finished(Outcome::Failed(EngineError::Platform)),
            },
            StartModel::Closing => match event {
                EventView::Done => finished(Outcome::Started),
                _ => finished(Outcome::Failed(EngineError::Persistence)),
            },
            StartModel::Finished(outcome) => finished(outcome),
        }
    }
}

fn finish(outcome: Outcome) -> (r: (StartFlow, Action))
    ensures
        (r.0@, r.1@) == finished(outcome),
{
    (StartFlow::Finished(outcome), Action::Finish(outcome))
}

fn continue_with_name(recruitment: Recruitment, quest_name: String, bot_id: u64) -> (r: (
    StartFlow,
    Action,
))
    ensures
        (r.0@, r.1@) == fetch_message(recruitment, quest_name@, bot_id),
{
    (
        StartFlow::FetchingMessage { recruitment, quest_name, bot_id },
        Action::FetchMessage {
            channel_id: recruitment.channel_id,
            message_id: recruitment.message_id,
        },
    )
}

fn continue_scan(recruitment: Recruitment, quest_name: String, scan: ReactionScan) -> (r: (
    StartFlow,
    Action,
))
    ensures
        (r.0@, r.1@) == scan_on(recruitment, quest_name@, scan@),
{
    match scan.request() {
        Some(request) => (
            StartFlow::Scanning { recruitment, quest_name, scan },
            Action::FetchReactionUsers {
                channel_id: recruitment.channel_id,
                message_id: recruitment.message_id,
                request,
            },
        ),
        None => {
            let groups = scan.into_groups();
            let participants = unique_users(&groups);
            let listed = mention_strings(&participants);
            (
                StartFlow::Notifying { recruitment },
                Action::SendReply {
                    channel_id: recruitment.channel_id,
                    reply_to: recruitment.message_id,
                    content: start_notice(quest_name.as_str(), listed.as_slice()),
                },
            )
        },
    }
}

impl StartFlow {
    /// Starts the departure of the recruitment `recruitment_id`, which
    /// belongs to the given message.
    pub fn begin(
        guild_id: u64,
        channel_id: u64,
        message_id: u64,
        recruitment_id: i32,
        bot_id: u64,
    ) -> (r: (StartFlow, Action))
        ensures
            (r.0@, r.1@) == StartModel::start(
                guild_id,
                channel_id,
                message_id,
                recruitment_id,
                bot_id,
            ),
    {
        (
            StartFlow::Loading { guild_id, channel_id, message_id, recruitment_id, bot_id },
            Action::GetRecruitment { guild_id, channel_id, message_id },
        )
    }

    /// Takes in what the last action came to and says what to do next.
    pub fn step(self, event: Event) -> (r: (StartFlow, Action))
        ensures
            (r.0@, r.1@) == self@.step(event@),
    {
        match self {
            StartFlow::Loading { guild_id, channel_id, message_id, recruitment_id, bot_id } => {
                match event {
                    Event::RecruitmentLookedUp(Some(recruitment)) => {
                        if recruitment.id != recruitment_id {
                            finish(Outcome::Failed(EngineError::NotFound))
                        } else if recruitment.status.is_terminal() {
                            finish(Outcome::Ignored)
                        } else {
                            match recruitment.target_id {
                                Some(target_id) => (
                                    StartFlow::NamingQuest { recruitment, bot_id },
                                    Action::FindQuestByTargetId { target_id },
                                ),
                                None => continue_with_name(
                                    recruitment,
                                    String::from_str(UNNAMED_QUEST),
                                    bot_id,
                                ),
                            }
                        }
                    },
                    Event::RecruitmentLookedUp(None) => finish(
                        Outcome::Failed(EngineError::NotFound),
                    ),
                    _ => finish(Outcome::Failed(EngineError::Persistence)),
                }
            },
            StartFlow::NamingQuest { recruitment, bot_id } => match event {
                Event::QuestLookedUp(Some(quest)) => continue_with_name(
                    recruitment,
                    quest.quest_name,
                    bot_id,
                ),
                _ => continue_with_name(recruitment, String::from_str(UNNAMED_QUEST), bot_id),
            },
            StartFlow::FetchingMessage { recruitment, quest_name, bot_id } => match event {
                Event::MessageFetched(snapshot) => {
                    let scan = ReactionScan::begin(
                        recruitment.battle_type,
                        &snapshot.reactions,
                        bot_id,
                    );
                    continue_scan(recruitment, quest_name, scan)
                },
                _ => finish(Outcome::Failed(EngineError::Platform)),
            },
            StartFlow::Scanning { recruitment, quest_name, scan } => match event {
                Event::UsersFetched(page) => {
                    let scan = scan.accept_page(&page);
                    continue_scan(recruitment, quest_name, scan)
                },
                _ => {
                    let scan = scan.skip_failed();
                    continue_scan(recruitment, quest_name, scan)
                },
            },
            StartFlow::Notifying { recruitment } => match event {
                Event::MessageSent(_) => (
                    StartFlow::Closing,
                    Action::MarkStarted { recruitment_id: recruitment.id },
                ),
                _ => finish(Outcome::Failed(EngineError::Platform)),
            },
            StartFlow::Closing => match event {
                Event::Done => finish(Outcome::Started),
                _ => finish(Outcome::Failed(EngineError::Persistence)),
            },
            StartFlow::Finished(outcome) => finish(outcome),
        }
    }

    /// How the start ended, none while it is under way.
    pub fn outcome(&self) -> (r: Option<Outcome>)
        ensures
            r == match self@ {
                StartModel::Finished(outcome) => Some(outcome),
                _ => None,
            },
    {
        match self {
            StartFlow::Finished(outcome) => Some(*outcome),
            _ => None,
        }
    }
}

} // verus!
