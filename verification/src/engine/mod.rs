//! The recruitment lifecycle as step functions.  A flow is given what the
//! last action came to and answers with the next action to perform; it
//! performs nothing itself.  Whoever drives a flow talks to the chat
//! platform and to the store and hands back what they said.

pub mod cancel;
pub mod change;
pub mod create;
pub mod laws;
pub mod start;
pub mod update;

use vstd::prelude::*;
use crate::battle_type::{BattleType, Element};
use crate::embed::{opt_embed_view, Embed, EmbedView};
use crate::event_date::EventDate;
use crate::message_service::Language;
use crate::quest::{opt_quest_view, Quest, QuestView};
use crate::recruitment::Recruitment;
use crate::scan::PageRequest;
use crate::text::{opt_view, views};

verus! {

/// How many participants make a party complete.
pub const PARTY_CAPACITY: usize = 6;

/// The kinds of failure a flow can end with.
#[derive(Debug, Clone, Copy, PartialEq, Eq, Structural)]
pub enum EngineError {
    /// No recruitment belongs to the message.
    NotFound,
    /// A call to the chat platform failed.
    Platform,
    /// A call to the store failed.
    Persistence,
    /// The recruitment message could not be sent at all.
    QuestResolution,
}

impl EngineError {
    /// What the failure is called towards a user who reads `language`.
    pub open spec fn spec_describe(self, language: Language) -> Seq<char> {
        match language {
            Language::Japanese => match self {
                EngineError::NotFound => "募集が見つかりませんでした。"@,
                EngineError::Platform => "Discordとの通信に失敗しました。"@,
                EngineError::Persistence => "データベースエラーが発生しました。"@,
                EngineError::QuestResolution => "募集メッセージの送信に失敗しました。"@,
            },
            Language::English => match self {
                EngineError::NotFound => "The recruitment was not found."@,
                EngineError::Platform => "The chat platform could not be reached."@,
                EngineError::Persistence => "The database failed."@,
                EngineError::QuestResolution => "The recruitment message could not be sent."@,
            },
        }
    }

    /// What the failure is called towards a user who reads `language`.
    pub fn describe(&self, language: Language) -> (text: &'static str)
        ensures
            text@ == self.spec_describe(language),
    {
        match language {
            Language::Japanese => match self {
                EngineError::NotFound => "募集が見つかりませんでした。",
                EngineError::Platform => "Discordとの通信に失敗しました。",
                EngineError::Persistence => "データベースエラーが発生しました。",
                EngineError::QuestResolution => "募集メッセージの送信に失敗しました。",
            },
            Language::English => match self {
                EngineError::NotFound => "The recruitment was not found.",
                EngineError::Platform => "The chat platform could not be reached.",
                EngineError::Persistence => "The database failed.",
                EngineError::QuestResolution => "The recruitment message could not be sent.",
            },
        }
    }
}

/// How a flow ended.
#[derive(Debug, Clone, Copy, PartialEq, Eq, Structural)]
pub enum Outcome {
    /// A recruitment message was sent.  Reactions that could not be
    /// attached and a row that could not be stored are reported, not fatal.
    Created { message_id: u64, reactions_failed: usize, persisted: bool },
    /// Nothing was done: the event or the request concerned no recruitment
    /// of this bot that can still change.
    Ignored,
    /// The participant list was brought up to date.
    Updated { announced: bool },
    /// The recruitment message was rewritten.
    Edited,
    Cancelled,
    Started,
    Failed(EngineError),
}

/// A message as the platform shows it.
#[derive(Debug, Clone, PartialEq, Eq)]
pub struct MessageSnapshot {
    pub author_id: u64,
    pub content: String,
    /// The first embed of the message, if it has one.
    pub embed: Option<Embed>,
    /// The emoji that the message carries reactions of.
    pub reactions: Vec<String>,
}

/// What a message snapshot holds, as plain values.
pub struct SnapshotView {
    pub author_id: u64,
    pub content: Seq<char>,
    pub embed: Option<EmbedView>,
    pub reactions: Seq<Seq<char>>,
}

impl View for MessageSnapshot {
    type V = SnapshotView;

    open spec fn view(&self) -> SnapshotView {
        SnapshotView {
            author_id: self.author_id,
            content: self.content@,
            embed: opt_embed_view(self.embed),
            reactions: views(self.reactions@),
        }
    }
}

/// What the driver of a flow is asked to do next.
#[derive(Debug, Clone, PartialEq, Eq)]
#[allow(inconsistent_fields)]
pub enum Action {
    FindQuestByAlias { alias: String },
    FindQuestByTargetId { target_id: i32 },
    SendMessage { channel_id: u64, content: String, embed: Option<Embed> },
    SendReply { channel_id: u64, reply_to: u64, content: String },
    EditMessage { channel_id: u64, message_id: u64, content: Option<String>, embed: Option<Embed> },
    AddReaction { channel_id: u64, message_id: u64, element: Element },
    FetchMessage { channel_id: u64, message_id: u64 },
    FetchReactionUsers { channel_id: u64, message_id: u64, request: PageRequest },
    GetRecruitment { guild_id: u64, channel_id: u64, message_id: u64 },
    CreateRecruitment {
        guild_id: u64,
        channel_id: u64,
        message_id: u64,
        target_id: Option<i32>,
        battle_type: BattleType,
        expiry: EventDate,
    },
    /// Take on the completion announcement; the answer says whether this
    /// flow is the one to post it.
    ClaimCompletion { recruitment_id: i32 },
    RecordCompletion { recruitment_id: i32, message_id: u64 },
    ReleaseCompletion { recruitment_id: i32 },
    MarkCancelled { recruitment_id: i32 },
    MarkStarted { recruitment_id: i32 },
    /// Look up the guild's own wording of the completion announcement.
    GetCompletionText { guild_id: u64 },
    /// Nothing is left to do.
    Finish(Outcome),
}

/// What an action holds, as plain values.
#[allow(inconsistent_fields)]
pub enum ActionView {
    FindQuestByAlias { alias: Seq<char> },
    FindQuestByTargetId { target_id: i32 },
    SendMessage { channel_id: u64, content: Seq<char>, embed: Option<EmbedView> },
    SendReply { channel_id: u64, reply_to: u64, content: Seq<char> },
    EditMessage {
        channel_id: u64,
        message_id: u64,
        content: Option<Seq<char>>,
        embed: Option<EmbedView>,
    },
    AddReaction { channel_id: u64, message_id: u64, element: Element },
    FetchMessage { channel_id: u64, message_id: u64 },
    FetchReactionUsers { channel_id: u64, message_id: u64, request: PageRequest },
    GetRecruitment { guild_id: u64, channel_id: u64, message_id: u64 },
    CreateRecruitment {
        guild_id: u64,
        channel_id: u64,
        message_id: u64,
        target_id: Option<i32>,
        battle_type: BattleType,
        expiry: EventDate,
    },
    ClaimCompletion { recruitment_id: i32 },
    RecordCompletion { recruitment_id: i32, message_id: u64 },
    ReleaseCompletion { recruitment_id: i32 },
    MarkCancelled { recruitment_id: i32 },
    MarkStarted { recruitment_id: i32 },
    GetCompletionText { guild_id: u64 },
    Finish(Outcome),
}

impl View for Action {
    type V = ActionView;

    open spec fn view(&self) -> ActionView {
        match *self {
            Action::FindQuestByAlias { alias } => ActionView::FindQuestByAlias { alias: alias@ },
            Action::FindQuestByTargetId { target_id } => ActionView::FindQuestByTargetId {
                target_id,
            },
            Action::SendMessage { channel_id, content, embed } => ActionView::SendMessage {
                channel_id,
                content: content@,
                embed: opt_embed_view(embed),
            },
            Action::SendReply { channel_id, reply_to, content } => ActionView::SendReply {
                channel_id,
                reply_to,
                content: content@,
            },
            Action::EditMessage { channel_id, message_id, content, embed } => ActionView::EditMessage {
                channel_id,
                message_id,
                content: opt_view(content),
                embed: opt_embed_view(embed),
            },
            Action::AddReaction { channel_id, message_id, element } => ActionView::AddReaction {
                channel_id,
                message_id,
                element,
            },
            Action::FetchMessage { channel_id, message_id } => ActionView::FetchMessage {
                channel_id,
                message_id,
            },
            Action::FetchReactionUsers {
                channel_id,
                message_id,
                request,
            } => ActionView::FetchReactionUsers { channel_id, message_id, request },
            Action::GetRecruitment { guild_id, channel_id, message_id } => ActionView::GetRecruitment {
                guild_id,
                channel_id,
                message_id,
            },
            Action::CreateRecruitment {
                guild_id,
                channel_id,
                message_id,
                target_id,
                battle_type,
                expiry,
            } => ActionView::CreateRecruitment {
                guild_id,
                channel_id,
                message_id,
                target_id,
                battle_type,
                expiry,
            },
            Action::ClaimCompletion { recruitment_id } => ActionView::ClaimCompletion {
                recruitment_id,
            },
            Action::RecordCompletion { recruitment_id, message_id } => ActionView::RecordCompletion {
                recruitment_id,
                message_id,
            },
            Action::ReleaseCompletion { recruitment_id } => ActionView::ReleaseCompletion {
                recruitment_id,
            },
            Action::MarkCancelled { recruitment_id } => ActionView::MarkCancelled {
                recruitment_id,
            },
            Action::MarkStarted { recruitment_id } => ActionView::MarkStarted { recruitment_id },
            Action::GetCompletionText { guild_id } => ActionView::GetCompletionText { guild_id },
            Action::Finish(outcome) => ActionView::Finish(outcome),
        }
    }
}

/// What the last action came to.
#[derive(Debug, Clone, PartialEq, Eq)]
pub enum Event {
    /// The directory was asked; it knows the quest or it does not.
    QuestLookedUp(Option<Quest>),
    /// A message or a reply was posted under this id.
    MessageSent(u64),
    MessageFetched(MessageSnapshot),
    /// One page of reacting users, in order of arrival.
    UsersFetched(Vec<u64>),
    /// The store was asked; the message has a recruitment or it has none.
    RecruitmentLookedUp(Option<Recruitment>),
    /// The answer to a claim: whether this flow is the one to announce.
    Claimed(bool),
    /// The guild's own completion text, where it has one.
    CompletionText(Option<String>),
    /// The action was performed and has nothing to report.
    Done,
    /// The action failed.
    Failed,
}

/// What an event holds, as plain values.
pub enum EventView {
    QuestLookedUp(Option<QuestView>),
    MessageSent(u64),
    MessageFetched(SnapshotView),
    UsersFetched(Seq<u64>),
    RecruitmentLookedUp(Option<Recruitment>),
    Claimed(bool),
    CompletionText(Option<Seq<char>>),
    Done,
    Failed,
}

impl View for Event {
    type V = EventView;

    open spec fn view(&self) -> EventView {
        match *self {
            Event::QuestLookedUp(quest) => EventView::QuestLookedUp(opt_quest_view(quest)),
            Event::MessageSent(id) => EventView::MessageSent(id),
            Event::MessageFetched(snapshot) => EventView::MessageFetched(snapshot@),
            Event::UsersFetched(users) => EventView::UsersFetched(users@),
            Event::RecruitmentLookedUp(found) => EventView::RecruitmentLookedUp(found),
            Event::Claimed(won) => EventView::Claimed(won),
            Event::CompletionText(text) => EventView::CompletionText(opt_view(text)),
            Event::Done => EventView::Done,
            Event::Failed => EventView::Failed,
        }
    }
}

} // verus!
