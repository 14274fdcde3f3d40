//! Cancelling a recruitment: rewrite its message and tell whoever had
//! signed up.

use vstd::prelude::*;
use vstd::string::*;
use crate::engine::{Action, ActionView, EngineError, Event, EventView, Outcome};
use crate::messages::{cancel_notice, cancel_notice_text, cancelled_message, cancelled_text};
use crate::participants::{participants, unique_users, GroupView};
use crate::recruitment::Recruitment;
use crate::scan::{spec_targets, ReactionScan, ScanModel};
use crate::text::{mention_strings, mentions};

verus! {

/// Where the cancellation of a recruitment stands.
#[derive(Debug)]
pub enum CancelFlow {
    /// The store is being asked for the recruitment of the message.
    Loading { guild_id: u64, channel_id: u64, message_id: u64, bot_id: u64 },
    /// The message is being fetched.
    FetchingMessage { recruitment: Recruitment, bot_id: u64 },
    /// The reacting users are being fetched.
    Scanning { recruitment: Recruitment, content: String, scan: ReactionScan },
    /// The message is being rewritten.
    Rewriting { recruitment: Recruitment, participants: Vec<u64> },
    /// The notice is being posted.
    Notifying { recruitment: Recruitment },
    /// The recruitment is being marked as cancelled.
    Closing,
    Finished(Outcome),
}

/// The state of a cancellation, as plain values.
pub enum CancelModel {
    Loading { guild_id: u64, channel_id: u64, message_id: u64, bot_id: u64 },
    FetchingMessage { recruitment: Recruitment, bot_id: u64 },
    Scanning { recruitment: Recruitment, content: Seq<char>, scan: ScanModel },
    Rewriting { recruitment: Recruitment, participants: Seq<u64> },
    Notifying { recruitment: Recruitment },
    Closing,
    Finished(Outcome),
}

impl View for CancelFlow {
    type V = CancelModel;

    open spec fn view(&self) -> CancelModel {
        match *self {
            CancelFlow::Loading { guild_id, channel_id, message_id, bot_id } => CancelModel::Loading {
                guild_id,
                channel_id,
                message_id,
                bot_id,
            },
            CancelFlow::FetchingMessage { recruitment, bot_id } => CancelModel::FetchingMessage {
                recruitment,
                bot_id,
            },
            CancelFlow::Scanning { recruitment, content, scan } => CancelModel::Scanning {
                recruitment,
                content: content@,
                scan: scan@,
            },
            CancelFlow::Rewriting { recruitment, participants } => CancelModel::Rewriting {
                recruitment,
                participants: participants@,
            },
            CancelFlow::Notifying { recruitment } => CancelModel::Notifying { recruitment },
            CancelFlow::Closing => CancelModel::Closing,
            CancelFlow::Finished(outcome) => CancelModel::Finished(outcome),
        }
    }
}

/// A flow that ends here with `outcome`.
pub open spec fn finished(outcome: Outcome) -> (CancelModel, ActionView) {
    (CancelModel::Finished(outcome), ActionView::Finish(outcome))
}

/// What follows the scan: the message is rewritten as cancelled.
pub open spec fn after_scan(recruitment: Recruitment, content: Seq<char>, groups: Seq<GroupView>) -> (
    CancelModel,
    ActionView,
) {
    (
        CancelModel::Rewriting { recruitment, participants: participants(groups) },
        ActionView::EditMessage {
            channel_id: recruitment.channel_id,
            message_id: recruitment.message_id,
            content: Some(cancelled_text(content)),
            embed: None,
        },
    )
}

/// The next page of the scan, or what follows the scan once it is done.
pub open spec fn scan_on(recruitment: Recruitment, content: Seq<char>, scan: ScanModel) -> (
    CancelModel,
    ActionView,
) {
    match scan.request() {
        Some(request) => (
            CancelModel::Scanning { recruitment, content, scan },
            ActionView::FetchReactionUsers {
                channel_id: recruitment.channel_id,
                message_id: recruitment.message_id,
                request,
            },
        ),
        None => after_scan(recruitment, content, scan.groups),
    }
}

impl CancelModel {
    /// The state a cancellation starts in.
    pub open spec fn start(guild_id: u64, channel_id: u64, message_id: u64, bot_id: u64) -> (
        CancelModel,
        ActionView,
    ) {
        (
            CancelModel::Loading { guild_id, channel_id, message_id, bot_id },
            ActionView::GetRecruitment { guild_id, channel_id, message_id },
        )
    }

    /// The actions asked for in answer to a series of events, one after
    /// each event.
    pub open spec fn trace(self, events: Seq<EventView>) -> Seq<ActionView>
        decreases events.len(),
    {
        if events.len() == 0 {
            Seq::empty()
        } else {
            let (next, action) = self.step(events[0]);
            seq![action] + next.trace(events.drop_first())
        }
    }

    /// The next state and the next action, given what the last action came
    /// to.
    ///
    /// A message without a recruitment ends the flow with `NotFound`.  A
    /// recruitment that has reached a terminal state is left as it is:
    /// nothing is rewritten and nothing is posted.  Otherwise the message is
    /// rewritten first; the notice is a reply to it and mentions every
    /// participant; the recruitment is marked last.
    pub open spec fn step(self, event: EventView) -> (CancelModel, ActionView) {
        match self {
            CancelModel::Loading { guild_id, channel_id, message_id, bot_id } => match event {
                EventView::RecruitmentLookedUp(Some(recruitment)) => if recruitment.status
                    .spec_is_terminal() {
                    finished(Outcome::Ignored)
                } else {
                    (
                        CancelModel::FetchingMessage { recruitment, bot_id },
                        ActionView::FetchMessage {
                            channel_id: recruitment.channel_id,
                            message_id: recruitment.message_id,
                        },
                    )
                },
                EventView::RecruitmentLookedUp(None) => finished(
                    Outcome::Failed(EngineError::NotFound),
                ),
                _ => finished(Outcome::Failed(EngineError::Persistence)),
            },
            CancelModel::FetchingMessage { recruitment, bot_id } => match event {
                EventView::MessageFetched(snapshot) => scan_on(
                    recruitment,
                    snapshot.content,
                    ScanModel::start(
                        spec_targets(recruitment.battle_type, snapshot.reactions),
                        bot_id,
                    ),
                ),
                _ => finished(Outcome::Failed(EngineError::Platform)),
            },
            CancelModel::Scanning { recruitment, content, scan } => match event {
                EventView::UsersFetched(page) => scan_on(recruitment, content, scan.accept(page)),
                _ => scan_on(recruitment, content, scan.skip()),
            },
            CancelModel::Rewriting { recruitment, participants } => match event {
                EventView::Done => (
                    CancelModel::Notifying { recruitment },
                    ActionView::SendReply {
                        channel_id: recruitment.channel_id,
                        reply_to: recruitment.message_id,
                        content: cancel_notice_text(mentions(participants)),
                    },
                ),
                _ => finished(Outcome::Failed(EngineError::Platform)),
            },
            CancelModel::Notifying { recruitment } => match event {
                EventView::MessageSent(_) => (
                    CancelModel::Closing,
                    ActionView::MarkCancelled { recruitment_id: recruitment.id },
                ),
                _ => finished(Outcome::Failed(EngineError::Platform)),
            },
            CancelModel::Closing => match event {
                EventView::Done => finished(Outcome::Cancelled),
                _ => finished(Outcome::Failed(EngineError::Persistence)),
            },
            CancelModel::Finished(outcome) => finished(outcome),
        }
    }
}

fn finish(outcome: Outcome) -> (r: (CancelFlow, Action))
    ensures
        (r.0@, r.1@) == finished(outcome),
{
    (CancelFlow::Finished(outcome), Action::Finish(outcome))
}

fn continue_scan(recruitment: Recruitment, content: String, scan: ReactionScan) -> (r: (
    CancelFlow,
    Action,
))
    ensures
        (r.0@, r.1@) == scan_on(recruitment, content@, scan@),
{
    match scan.request() {
        Some(request) => (
            CancelFlow::Scanning { recruitment, content, scan },
            Action::FetchReactionUsers {
                channel_id: recruitment.channel_id,
                message_id: recruitment.message_id,
                request,
            },
        ),
        None => {
            let groups = scan.into_groups();
            let participants = unique_users(&groups);
            (
                CancelFlow::Rewriting { recruitment, participants },
                Action::EditMessage {
                    channel_id: recruitment.channel_id,
                    message_id: recruitment.message_id,
                    content: Some(cancelled_message(content.as_str())),
                    embed: None,
                },
            )
        },
    }
}

impl CancelFlow {
    /// Starts the cancellation of the recruitment of a message.
    pub fn begin(guild_id: u64, channel_id: u64, message_id: u64, bot_id: u64) -> (r: (
        CancelFlow,
        Action,
    ))
        ensures
            (r.0@, r.1@) == CancelModel::start(guild_id, channel_id, message_id, bot_id),
    {
        (
            CancelFlow::Loading { guild_id, channel_id, message_id, bot_id },
            Action::GetRecruitment { guild_id, channel_id, message_id },
        )
    }

    /// Takes in what the last action came to and says what to do next.
    pub fn step(self, event: Event) -> (r: (CancelFlow, Action))
        ensures
            (r.0@, r.1@) == self@.step(event@),
    {
        match self {
            CancelFlow::Loading { guild_id, channel_id, message_id, bot_id } => match event {
                Event::RecruitmentLookedUp(Some(recruitment)) => {
                    if recruitment.status.is_terminal() {
                        finish(Outcome::Ignored)
                    } else {
                        (
                            CancelFlow::FetchingMessage { recruitment, bot_id },
                            Action::FetchMessage {
                                channel_id: recruitment.channel_id,
                                message_id: recruitment.message_id,
                            },
                        )
                    }
                },
                Event::RecruitmentLookedUp(None) => finish(Outcome::Failed(EngineError::NotFound)),
                _ => finish(Outcome::Failed(EngineError::Persistence)),
            },
            CancelFlow::FetchingMessage { recruitment, bot_id } => match event {
                Event::MessageFetched(snapshot) => {
                    let scan = ReactionScan::begin(
                        recruitment.battle_type,
                        &snapshot.reactions,
                        bot_id,
                    );
                    continue_scan(recruitment, snapshot.content, scan)
                },
                _ => finish(Outcome::Failed(EngineError::Platform)),
            },
            CancelFlow::Scanning { recruitment, content, scan } => match event {
                Event::UsersFetched(page) => {
                    let scan = scan.accept_page(&page);
                    continue_scan(recruitment, content, scan)
                },
                _ => {
                    let scan = scan.skip_failed();
                    continue_scan(recruitment, content, scan)
                },
            },
            CancelFlow::Rewriting { recruitment, participants } => match event {
                Event::Done => {
                    let listed = mention_strings(&participants);
                    (
                        CancelFlow::Notifying { recruitment },
                        Action::SendReply {
                            channel_id: recruitment.channel_id,
                            reply_to: recruitment.message_id,
                            content: cancel_notice(listed.as_slice()),
                        },
                    )
                },
                _ => finish(Outcome::Failed(EngineError::Platform)),
            },
            CancelFlow::Notifying { recruitment } => match event {
                Event::MessageSent(_) => (
                    CancelFlow::Closing,
                    Action::MarkCancelled { recruitment_id: recruitment.id },
                ),
                _ => finish(Outcome::Failed(EngineError::Platform)),
            },
            CancelFlow::Closing => match event {
                Event::Done => finish(Outcome::Cancelled),
                _ => finish(Outcome::Failed(EngineError::Persistence)),
            },
            CancelFlow::Finished(outcome) => finish(outcome),
        }
    }

    /// How the cancellation ended, none while it is under way.
    pub fn outcome(&self) -> (r: Option<Outcome>)
        ensures
            r == match self@ {
                CancelModel::Finished(outcome) => Some(outcome),
                _ => None,
            },
    {
        match self {
            CancelFlow::Finished(outcome) => Some(*outcome),
            _ => None,
        }
    }
}

} // verus!
