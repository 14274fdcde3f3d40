//! The recruitment services: what each of them writes.

use vstd::prelude::*;
use vstd::string::*;
use crate::battle_type::BattleType;
use crate::embed::{initial_embed, spec_initial_embed, Embed, EmbedField, EmbedView, FieldView};
use crate::event_date::EventDate;
use crate::messages::{
    cancel_notice, cancel_notice_text, cancelled_message, cancelled_text, date_update,
    date_update_text, members_ready, members_ready_text, participant_count_text,
    participant_list, participant_list_text, quest_datetime, quest_datetime_text,
    recruitment_message, recruitment_text, start_notice, start_text, status_update,
    status_update_text,
};
use crate::text::{join, join_strings, views};

verus! {

/// The colour of an embed while places are left.
pub const COLOR_OPEN: u32 = 0x0099ff;

/// The colour of an embed once every place is taken.
pub const COLOR_FULL: u32 = 0x00ff00;

/// The colour of an embed that calls for attention.
pub const COLOR_URGENT: u32 = 0xff0000;

/// Writes the call for participants.
#[derive(Debug, Clone, Copy)]
pub struct RecruitmentService;

impl RecruitmentService {
    pub fn new() -> (service: RecruitmentService) {
        RecruitmentService
    }

    /// The recruitment message: its content and the embed it starts with.
    pub fn create_recruitment_message(
        &self,
        quest_name: &str,
        battle_type: BattleType,
        event_date: &EventDate,
    ) -> (r: (String, Embed))
        ensures
            r.0@ == recruitment_text(quest_name@, battle_type, event_date@),
            r.1@ == spec_initial_embed(),
    {
        (recruitment_message(quest_name, battle_type, event_date), initial_embed())
    }
}

/// Writes what a cancelled recruitment shows.
#[derive(Debug, Clone, Copy)]
pub struct CancelRecruitmentService;

impl CancelRecruitmentService {
    pub fn new() -> (service: CancelRecruitmentService) {
        CancelRecruitmentService
    }

    /// The content of the recruitment message once it is cancelled.
    pub fn create_cancelled_message(&self, original_content: &str) -> (r: Result<String, String>)
        ensures
            r matches Ok(text) && text@ == cancelled_text(original_content@),
    {
        Ok(cancelled_message(original_content))
    }

    /// The notice of the cancellation; `participants` are mentions.
    pub fn create_cancel_notification(&self, participants: &[String]) -> (r: Result<
        String,
        String,
    >)
        ensures
            r matches Ok(text) && text@ == cancel_notice_text(views(participants@)),
    {
        Ok(cancel_notice(participants))
    }
}

impl Default for CancelRecruitmentService {
    fn default() -> (service: CancelRecruitmentService)
        ensures
            service == CancelRecruitmentService,
    {
        CancelRecruitmentService
    }
}

/// Writes the lists of participants.
#[derive(Debug, Clone, Copy)]
pub struct ParticipantsService;

impl ParticipantsService {
    pub fn new() -> (service: ParticipantsService) {
        ParticipantsService
    }

    /// The list of who signed up for a quest; `participants` are mentions.
    pub fn create_participant_message(&self, participants: &[String], quest_name: &str) -> (r:
        Result<String, String>)
        ensures
            r matches Ok(text) && text@ == participant_list_text(
                quest_name@,
                views(participants@),
            ),
    {
        Ok(participant_list(quest_name, participants))
    }

    /// A recruitment with its date, the number of participants and their
    /// list.
    pub fn create_quest_datetime_message(
        &self,
        quest_name: &str,
        datetime: &str,
        participants: &[String],
    ) -> (r: Result<String, String>)
        ensures
            r matches Ok(text) && text@ == quest_datetime_text(
                quest_name@,
                datetime@,
                views(participants@),
            ),
    {
        Ok(quest_datetime(quest_name, datetime, participants))
    }
}

impl Default for ParticipantsService {
    fn default() -> (service: ParticipantsService)
        ensures
            service == ParticipantsService,
    {
        ParticipantsService
    }
}

/// Writes the notice that it is time to depart.
#[derive(Debug, Clone, Copy)]
pub struct StartRecruitmentService;

impl StartRecruitmentService {
    pub fn new() -> (service: StartRecruitmentService) {
        StartRecruitmentService
    }

    /// The notice of the departure; `participants` are mentions.
    pub fn create_start_message(&self, quest_name: &str, participants: &[String]) -> (r: Result<
        String,
        String,
    >)
        ensures
            r matches Ok(text) && text@ == start_text(quest_name@, views(participants@)),
    {
        Ok(start_notice(quest_name, participants))
    }
}

impl Default for StartRecruitmentService {
    fn default() -> (service: StartRecruitmentService)
        ensures
            service == StartRecruitmentService,
    {
        StartRecruitmentService
    }
}

/// The embed that counts the places taken: blue while places are left,
/// green once all are taken.
pub open spec fn count_embed(count: nat, capacity: nat) -> EmbedView {
    EmbedView {
        title: Some("参加者一覧"@),
        description: Some(participant_count_text(count, capacity)),
        color: Some(
            if count >= capacity {
                COLOR_FULL
            } else {
                COLOR_OPEN
            },
        ),
        fields: Seq::empty(),
    }
}

/// The embed that closes a complete recruitment; `participants` are
/// mentions.
pub open spec fn complete_embed(participants: Seq<Seq<char>>) -> EmbedView {
    EmbedView {
        title: Some("募集完了"@),
        description: Some("メンバーが揃いました！"@),
        color: Some(COLOR_FULL),
        fields: seq![
            FieldView { name: "参加者"@, value: join(participants, "\n"@), inline: false },
        ],
    }
}

/// The embed of an urgent update.
pub open spec fn urgent_embed(urgent_message: Seq<char>) -> EmbedView {
    EmbedView {
        title: Some("🚨 重要な更新"@),
        description: Some(urgent_message),
        color: Some(COLOR_URGENT),
        fields: Seq::empty(),
    }
}

/// Writes the updates of a recruitment message.
#[derive(Debug, Clone, Copy)]
pub struct UpdateRecruitmentService;

impl UpdateRecruitmentService {
    pub fn new() -> (service: UpdateRecruitmentService) {
        UpdateRecruitmentService
    }

    /// The embed that counts the places taken.
    pub fn update_participants_embed(&self, participant_count: usize, capacity: usize) -> (embed:
        Embed)
        ensures
            embed@ == count_embed(participant_count as nat, capacity as nat),
    {
        let color = if participant_count >= capacity {
            COLOR_FULL
        } else {
            COLOR_OPEN
        };
        let embed = Embed {
            title: Some(String::from_str("参加者一覧")),
            description: Some(crate::messages::participant_count(participant_count, capacity)),
            color: Some(color),
            fields: Vec::new(),
        };
        assert(embed@.fields =~= Seq::<FieldView>::empty());
        embed
    }

    /// The content of a recruitment message with a new date.
    pub fn update_recruitment_date(&self, quest_name: &str, new_date: &EventDate) -> (text: String)
        ensures
            text@ == date_update_text(quest_name@, new_date@),
    {
        date_update(quest_name, new_date)
    }

    /// A status line about the recruitment message `original_message_id`.
    pub fn add_status_update(&self, original_message_id: u64, status: &str) -> (text: String)
        ensures
            text@ == status_update_text(original_message_id as nat, status@),
    {
        status_update(original_message_id, status)
    }

    /// What an urgent update shows: the content that marks the message and
    /// the embed with the update.
    pub fn urgent_update(&self, urgent_message: &str) -> (r: (String, Embed))
        ensures
            r.0@ == "🚨 重要更新あり 🚨"@,
            r.1@ == urgent_embed(urgent_message@),
    {
        let embed = Embed {
            title: Some(String::from_str("🚨 重要な更新")),
            description: Some(String::from_str(urgent_message)),
            color: Some(COLOR_URGENT),
            fields: Vec::new(),
        };
        assert(embed@.fields =~= Seq::<FieldView>::empty());
        (String::from_str("🚨 重要更新あり 🚨"), embed)
    }

    /// What a complete recruitment shows: the content of its message, its
    /// embed, and the notice to the members; `participants` are mentions.
    pub fn mark_recruitment_complete(&self, participants: &[String]) -> (r: (String, Embed, String))
        ensures
            r.0@ == "✅ 募集完了"@,
            r.1@ == complete_embed(views(participants@)),
            r.2@ == members_ready_text(views(participants@)),
    {
        let mut fields: Vec<EmbedField> = Vec::new();
        fields.push(
            EmbedField {
                name: String::from_str("参加者"),
                value: join_strings(participants, "\n"),
                inline: false,
            },
        );
        let embed = Embed {
            title: Some(String::from_str("募集完了")),
            description: Some(String::from_str("メンバーが揃いました！")),
            color: Some(COLOR_FULL),
            fields,
        };
        assert(embed@.fields =~= complete_embed(views(participants@)).fields);
        (String::from_str("✅ 募集完了"), embed, members_ready(participants))
    }
}

} // verus!
