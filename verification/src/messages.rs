//! The wording of every message the recruitment flow posts.

use vstd::prelude::*;
use vstd::string::*;
use crate::battle_type::BattleType;
use crate::event_date::{DateModel, EventDate};
use crate::text::{
    decimal, decimal_string, join, join_strings, joined_mentions, mentions, push_decimal, views,
};

verus! {

/// The key under which a guild may store its own completion announcement.
pub const COMPLETION_TEXT_KEY: &'static str = "MSG00032";

/// The completion announcement used when a guild has stored none.
pub const DEFAULT_COMPLETION_TEXT: &'static str = "募集が完了しました！";

/// The call for participants: the quest, the category unless every element
/// is asked for, and below it the date.
pub open spec fn recruitment_text(quest_name: Seq<char>, battle_type: BattleType, date: DateModel) -> Seq<
    char,
> {
    let call = if battle_type == BattleType::AllElement {
        quest_name + "の参加者を募集します！"@
    } else {
        quest_name + "の"@ + battle_type.spec_name() + "参加者を募集します！"@
    };
    call + "\n開催日時："@ + date.month_day_time()
}

/// The announcement that a party is complete: every participant mentioned,
/// then the announcement text on a line of its own.
pub open spec fn completion_text(participants: Seq<u64>, announcement: Seq<char>) -> Seq<char> {
    join(mentions(participants), " "@) + "\n"@ + announcement
}

/// The content of a recruitment message after it was cancelled.
pub open spec fn cancelled_text(original: Seq<char>) -> Seq<char> {
    "【キャンセル済み】\n"@ + original + "\n\nこの募集はキャンセルされました。"@
}

/// The notice that a recruitment was cancelled, addressed to whoever had
/// signed up.
pub open spec fn cancel_notice_text(participants: Seq<Seq<char>>) -> Seq<char> {
    "この募集はキャンセルされました。\n参加予定だった方: "@ + if participants.len() == 0 {
        "参加者はいませんでした"@
    } else {
        join(participants, " "@)
    }
}

/// The notice that it is time to depart.
pub open spec fn start_text(quest_name: Seq<char>, participants: Seq<Seq<char>>) -> Seq<char> {
    "🚀 **クエスト出発時間です！** 🚀\n\n"@ + quest_name + "\n\n参加者の皆さん: "@ + (if participants.len()
        == 0 {
        "参加者がいません"@
    } else {
        join(participants, " "@)
    }) + "\n\nクエストを開始してください！"@
}

/// The list of who signed up for a quest, one to a line.
pub open spec fn participant_list_text(quest_name: Seq<char>, participants: Seq<Seq<char>>) -> Seq<
    char,
> {
    quest_name + "の参加者一覧\n\n"@ + if participants.len() == 0 {
        "現在参加者はいません"@
    } else {
        join(participants, "\n"@)
    }
}

/// A recruitment with its date, the number of participants and their list.
pub open spec fn quest_datetime_text(
    quest_name: Seq<char>,
    datetime: Seq<char>,
    participants: Seq<Seq<char>>,
) -> Seq<char> {
    quest_name + "の募集\n開催日時: "@ + datetime + "\n参加者数: "@ + decimal(participants.len())
        + "名\n\n参加者:\n"@ + if participants.len() == 0 {
        "なし"@
    } else {
        join(participants, "\n"@)
    }
}

/// How many of the places are taken.
pub open spec fn participant_count_text(count: nat, capacity: nat) -> Seq<char> {
    "現在の参加者: "@ + decimal(count) + "/"@ + decimal(capacity)
}

/// The call for participants with a new date.
pub open spec fn date_update_text(quest_name: Seq<char>, date: DateModel) -> Seq<char> {
    quest_name + "の参加者を募集します。\n開催日時："@ + date.month_day_time()
}

/// A status line that refers to the recruitment message it is about.
pub open spec fn status_update_text(message_id: nat, status: Seq<char>) -> Seq<char> {
    "募集更新 (元メッセージ: "@ + decimal(message_id) + "): "@ + status
}

/// The notice that all members are there.
pub open spec fn members_ready_text(participants: Seq<Seq<char>>) -> Seq<char> {
    join(participants, " "@) + "\nメンバーが揃いました！"@
}

/// The part of a message link that names the guild; direct messages have
/// none.
pub open spec fn guild_part(guild_id: Option<u64>) -> Seq<char> {
    match guild_id {
        Some(id) => decimal(id as nat),
        None => "@me"@,
    }
}

/// The link to a message.
pub open spec fn message_url(guild_id: Option<u64>, channel_id: u64, message_id: u64) -> Seq<char> {
    "https://discord.com/channels/"@ + guild_part(guild_id) + "/"@ + decimal(channel_id as nat)
        + "/"@ + decimal(message_id as nat)
}

pub fn recruitment_message(quest_name: &str, battle_type: BattleType, event_date: &EventDate) -> (s:
    String)
    ensures
        s@ == recruitment_text(quest_name@, battle_type, event_date@),
{
    let mut s = String::from_str(quest_name);
    if battle_type == BattleType::AllElement {
        s.append("の参加者を募集します！");
    } else {
        s.append("の");
        s.append(battle_type.name());
        s.append("参加者を募集します！");
    }
    s.append("\n開催日時：");
    let date = event_date.month_day_time();
    s.append(date.as_str());
    s
}

pub fn completion_message(participants: &Vec<u64>, announcement: &str) -> (s: String)
    ensures
        s@ == completion_text(participants@, announcement@),
{
    let mut s = joined_mentions(participants, " ");
    s.append("\n");
    s.append(announcement);
    s
}

pub fn cancelled_message(original_content: &str) -> (s: String)
    ensures
        s@ == cancelled_text(original_content@),
{
    let mut s = String::from_str("【キャンセル済み】\n");
    s.append(original_content);
    s.append("\n\nこの募集はキャンセルされました。");
    s
}

pub fn cancel_notice(participants: &[String]) -> (s: String)
    ensures
        s@ == cancel_notice_text(views(participants@)),
{
    let mut s = String::from_str("この募集はキャンセルされました。\n参加予定だった方: ");
    if participants.len() == 0 {
        s.append("参加者はいませんでした");
    } else {
        let listed = join_strings(participants, " ");
        s.append(listed.as_str());
    }
    s
}

pub fn start_notice(quest_name: &str, participants: &[String]) -> (s: String)
    ensures
        s@ == start_text(quest_name@, views(participants@)),
{
    let mut s = String::from_str("🚀 **クエスト出発時間です！** 🚀\n\n");
    s.append(quest_name);
    s.append("\n\n参加者の皆さん: ");
    if participants.len() == 0 {
        s.append("参加者がいません");
    } else {
        let listed = join_strings(participants, " ");
        s.append(listed.as_str());
    }
    s.append("\n\nクエストを開始してください！");
    s
}

pub fn participant_list(quest_name: &str, participants: &[String]) -> (s: String)
    ensures
        s@ == participant_list_text(quest_name@, views(participants@)),
{
    let mut s = String::from_str(quest_name);
    s.append("の参加者一覧\n\n");
    if participants.len() == 0 {
        s.append("現在参加者はいません");
    } else {
        let listed = join_strings(participants, "\n");
        s.append(listed.as_str());
    }
    s
}

pub fn quest_datetime(quest_name: &str, datetime: &str, participants: &[String]) -> (s: String)
    ensures
        s@ == quest_datetime_text(quest_name@, datetime@, views(participants@)),
{
    let mut s = String::from_str(quest_name);
    s.append("の募集\n開催日時: ");
    s.append(datetime);
    s.append("\n参加者数: ");
    push_decimal(&mut s, participants.len() as u64);
    s.append("名\n\n参加者:\n");
    if participants.len() == 0 {
        s.append("なし");
    } else {
        let listed = join_strings(participants, "\n");
        s.append(listed.as_str());
    }
    s
}

pub fn participant_count(count: usize, capacity: usize) -> (s: String)
    ensures
        s@ == participant_count_text(count as nat, capacity as nat),
{
    let mut s = String::from_str("現在の参加者: ");
    push_decimal(&mut s, count as u64);
    s.append("/");
    push_decimal(&mut s, capacity as u64);
    s
}

pub fn date_update(quest_name: &str, new_date: &EventDate) -> (s: String)
    ensures
        s@ == date_update_text(quest_name@, new_date@),
{
    let mut s = String::from_str(quest_name);
    s.append("の参加者を募集します。\n開催日時：");
    let date = new_date.month_day_time();
    s.append(date.as_str());
    s
}

pub fn status_update(original_message_id: u64, status: &str) -> (s: String)
    ensures
        s@ == status_update_text(original_message_id as nat, status@),
{
    let mut s = String::from_str("募集更新 (元メッセージ: ");
    push_decimal(&mut s, original_message_id);
    s.append("): ");
    s.append(status);
    s
}

pub fn members_ready(participants: &[String]) -> (s: String)
    ensures
        s@ == members_ready_text(views(participants@)),
{
    let mut s = join_strings(participants, " ");
    s.append("\nメンバーが揃いました！");
    s
}

/// The part of a message link that names the guild.
pub fn guild_id_url_str(guild_id: Option<u64>) -> (s: String)
    ensures
        s@ == guild_part(guild_id),
{
    match guild_id {
        Some(id) => decimal_string(id),
        None => String::from_str("@me"),
    }
}

/// The link to the message `message_id` in `channel_id`.
pub fn make_message_url(guild_id: Option<u64>, channel_id: u64, message_id: u64) -> (s: String)
    ensures
        s@ == message_url(guild_id, channel_id, message_id),
{
    let mut s = String::from_str("https://discord.com/channels/");
    let guild = guild_id_url_str(guild_id);
    s.append(guild.as_str());
    s.append("/");
    push_decimal(&mut s, channel_id);
    s.append("/");
    push_decimal(&mut s, message_id);
    s
}

} // verus!
