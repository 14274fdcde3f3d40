use gbf_recruitment::battle_type::{BattleType, Element};
use gbf_recruitment::embed::Embed;
use gbf_recruitment::engine::cancel::CancelFlow;
use gbf_recruitment::engine::change::ChangeFlow;
use gbf_recruitment::engine::create::CreateFlow;
use gbf_recruitment::engine::start::StartFlow;
use gbf_recruitment::engine::update::UpdateFlow;
use gbf_recruitment::engine::{Action, EngineError, Event, MessageSnapshot, Outcome};
use gbf_recruitment::event_date::EventDate;
use gbf_recruitment::message_service::Language;
use gbf_recruitment::quest::{Quest, QuestAlias, QuestDirectory};
use gbf_recruitment::recruitment::RecruitmentStatus;
use gbf_recruitment::store::RecruitmentStore;

const BOT: u64 = 9000;

struct FakeMessage {
    id: u64,
    channel_id: u64,
    author_id: u64,
    content: String,
    embed: Option<Embed>,
    reactions: Vec<(String, Vec<u64>)>,
    reply_to: Option<u64>,
}

struct World {
    next_message_id: u64,
    messages: Vec<FakeMessage>,
    store: RecruitmentStore,
    quests: QuestDirectory,
    completion_text: Option<String>,
    fail_send: bool,
    fail_store: bool,
    failing_reactions: Vec<Element>,
    failing_fetches: Vec<Element>,
    log: Vec<Action>,
}

impl World {
    fn new() -> World {
        let mut quests = QuestDirectory::new();
        quests.quests.push(Quest {
            id: 1,
            target_id: 10,
            quest_name: "Amanda Raid".to_string(),
            default_battle_type: 2,
        });
        quests.aliases.push(QuestAlias { id: 1, target_id: 10, alias: "Amanda".to_string() });
        World {
            next_message_id: 500,
            messages: Vec::new(),
            store: RecruitmentStore::new(),
            quests,
            completion_text: None,
            fail_send: false,
            fail_store: false,
            failing_reactions: Vec::new(),
            failing_fetches: Vec::new(),
            log: Vec::new(),
        }
    }

    fn message(&self, id: u64) -> &FakeMessage {
        self.messages.iter().find(|m| m.id == id).unwrap()
    }

    fn message_mut(&mut self, id: u64) -> &mut FakeMessage {
        self.messages.iter_mut().find(|m| m.id == id).unwrap()
    }

    fn react(&mut self, message_id: u64, element: Element, user: u64) {
        let message = self.message_mut(message_id);
        match message.reactions.iter_mut().find(|(emoji, _)| emoji == element.emoji()) {
            Some((_, users)) => users.push(user),
            None => message.reactions.push((element.emoji().to_string(), vec![user])),
        }
    }

    fn post(&mut self, channel_id: u64, content: &str, embed: Option<Embed>, reply_to: Option<u64>) -> u64 {
        let id = self.next_message_id;
        self.next_message_id += 1;
        self.messages.push(FakeMessage {
            id,
            channel_id,
            author_id: BOT,
            content: content.to_string(),
            embed,
            reactions: Vec::new(),
            reply_to,
        });
        id
    }

    fn perform(&mut self, action: &Action) -> Event {
        self.log.push(action.clone());
        match action {
            Action::FindQuestByAlias { alias } => {
                Event::QuestLookedUp(self.quests.find_by_alias(alias))
            }
            Action::FindQuestByTargetId { target_id } => {
                Event::QuestLookedUp(self.quests.find_by_target_id(*target_id))
            }
            Action::SendMessage { channel_id, content, embed } => {
                if self.fail_send {
                    return Event::Failed;
                }
                Event::MessageSent(self.post(*channel_id, content, embed.clone(), None))
            }
            Action::SendReply { channel_id, reply_to, content } => {
                if self.fail_send {
                    return Event::Failed;
                }
                Event::MessageSent(self.post(*channel_id, content, None, Some(*reply_to)))
            }
            Action::EditMessage { message_id, content, embed, .. } => {
                let message = self.message_mut(*message_id);
                if let Some(content) = content {
                    message.content = content.clone();
                }
                if let Some(embed) = embed {
                    message.embed = Some(embed.clone());
                }
                Event::Done
            }
            Action::AddReaction { message_id, element, .. } => {
                if self.failing_reactions.contains(element) {
                    return Event::Failed;
                }
                self.react(*message_id, *element, BOT);
                Event::Done
            }
            Action::FetchMessage { message_id, .. } => {
                let message = self.message(*message_id);
                Event::MessageFetched(MessageSnapshot {
                    author_id: message.author_id,
                    content: message.content.clone(),
                    embed: message.embed.clone(),
                    reactions: message.reactions.iter().map(|(emoji, _)| emoji.clone()).collect(),
                })
            }
            Action::FetchReactionUsers { message_id, request, .. } => {
                if self.failing_fetches.contains(&request.element) {
                    return Event::Failed;
                }
                let message = self.message(*message_id);
                let users = message
                    .reactions
                    .iter()
                    .find(|(emoji, _)| emoji == request.element.emoji())
                    .map(|(_, users)| users.clone())
                    .unwrap_or_default();
                let start = match request.after {
                    Some(last) => users.iter().position(|u| *u == last).map(|i| i + 1).unwrap_or(0),
                    None => 0,
                };
                let end = usize::min(users.len(), start + request.limit);
                Event::UsersFetched(users[start..end].to_vec())
            }
            Action::GetRecruitment { guild_id, channel_id, message_id } => {
                Event::RecruitmentLookedUp(self.store.get_by_message(*guild_id, *channel_id, *message_id))
            }
            Action::CreateRecruitment {
                guild_id,
                channel_id,
                message_id,
                target_id,
                battle_type,
                expiry,
            } => {
                if self.fail_store {
                    return Event::Failed;
                }
                match self.store.create(
                    *guild_id,
                    *channel_id,
                    *message_id,
                    *target_id,
                    *battle_type,
                    *expiry,
                ) {
                    Ok(_) => Event::Done,
                    Err(_) => Event::Failed,
                }
            }
            Action::ClaimCompletion { recruitment_id } => {
                Event::Claimed(self.store.claim_completion(*recruitment_id))
            }
            Action::RecordCompletion { recruitment_id, message_id } => {
                if self.store.record_completion(*recruitment_id, *message_id) {
                    Event::Done
                } else {
                    Event::Failed
                }
            }
            Action::ReleaseCompletion { recruitment_id } => {
                performed(self.store.release_completion(*recruitment_id))
            }
            Action::MarkCancelled { recruitment_id } => {
                performed(self.store.mark_cancelled(*recruitment_id))
            }
            Action::MarkStarted { recruitment_id } => {
                performed(self.store.mark_started(*recruitment_id))
            }
            Action::GetCompletionText { .. } => Event::CompletionText(self.completion_text.clone()),
            Action::Finish(_) => unreachable!(),
        }
    }

    fn create(&mut self, guild: u64, channel: u64, text: &str, category: BattleType, expiry: EventDate) -> Outcome {
        let (mut flow, mut action) = CreateFlow::begin(guild, channel, text, category, expiry);
        loop {
            if let Action::Finish(outcome) = action {
                assert_eq!(flow.outcome(), Some(outcome));
                return outcome;
            }
            assert_eq!(flow.outcome(), None);
            let event = self.perform(&action);
            (flow, action) = flow.step(event);
        }
    }

    fn change(&mut self, guild: Option<u64>, channel: u64, message: u64, user: Option<u64>) -> Outcome {
        let (mut flow, mut action) = ChangeFlow::begin(guild, channel, message, user, BOT);
        loop {
            if let Action::Finish(outcome) = action {
                assert_eq!(flow.outcome(), Some(outcome));
                return outcome;
            }
            let event = self.perform(&action);
            (flow, action) = flow.step(event);
        }
    }

    fn cancel(&mut self, guild: u64, channel: u64, message: u64) -> Outcome {
        let (mut flow, mut action) = CancelFlow::begin(guild, channel, message, BOT);
        loop {
            if let Action::Finish(outcome) = action {
                assert_eq!(flow.outcome(), Some(outcome));
                return outcome;
            }
            let event = self.perform(&action);
            (flow, action) = flow.step(event);
        }
    }

    fn start(&mut self, guild: u64, channel: u64, message: u64, recruitment_id: i32) -> Outcome {
        let (mut flow, mut action) = StartFlow::begin(guild, channel, message, recruitment_id, BOT);
        loop {
            if let Action::Finish(outcome) = action {
                assert_eq!(flow.outcome(), Some(outcome));
                return outcome;
            }
            let event = self.perform(&action);
            (flow, action) = flow.step(event);
        }
    }

    fn sent_by_bot_after(&self, message_id: u64) -> Vec<&FakeMessage> {
        self.messages.iter().filter(|m| m.id > message_id).collect()
    }
}

fn performed(done: bool) -> Event {
    if done {
        Event::Done
    } else {
        Event::Failed
    }
}

fn christmas() -> EventDate {
    EventDate::new(2024, 12, 25, 21, 0, 0).unwrap()
}

fn created_message(outcome: Outcome) -> u64 {
    match outcome {
        Outcome::Created { message_id, .. } => message_id,
        other => panic!("not created: {:?}", other),
    }
}

fn six_sign_up(world: &mut World, message_id: u64) {
    let elements = Element::all();
    for (i, element) in elements.iter().enumerate() {
        world.react(message_id, *element, 101 + i as u64);
    }
}

#[test]
fn create_sends_message_attaches_reactions_and_stores_row() {
    let mut world = World::new();
    let outcome = world.create(1, 2, "Amanda", BattleType::AllElement, christmas());
    assert_eq!(
        outcome,
        Outcome::Created { message_id: 500, reactions_failed: 0, persisted: true }
    );
    let message = world.message(500);
    assert_eq!(message.channel_id, 2);
    assert!(message.content.contains("Amanda Raid"));
    assert!(message.content.contains("12/25 21:00"));
    assert_eq!(message.content, "Amanda Raidの参加者を募集します！\n開催日時：12/25 21:00");
    let embed = message.embed.as_ref().unwrap();
    assert_eq!(embed.title.as_deref(), Some("参加者一覧"));
    assert_eq!(embed.description.as_deref(), Some("現在参加者はいません。"));
    assert_eq!(embed.color, None);
    assert!(embed.fields.is_empty());
    let emoji: Vec<&str> = message.reactions.iter().map(|(e, _)| e.as_str()).collect();
    assert_eq!(emoji, vec!["🔥", "💧", "🌱", "🌪️", "✨", "🌑"]);
    let row = world.store.get_by_message(1, 2, 500).unwrap();
    assert_eq!(row.battle_type, BattleType::AllElement);
    assert_eq!(row.target_id, Some(10));
    assert_eq!(row.expiry, christmas());
    assert_eq!(row.completion_message_id(), None);
    assert_eq!(row.status, RecruitmentStatus::Open);
    assert_eq!(world.store.len(), 1);
}

#[test]
fn create_with_default_category_takes_the_quests_own() {
    let mut world = World::new();
    let id = created_message(world.create(1, 2, "Amanda", BattleType::Default, christmas()));
    let message = world.message(id);
    assert_eq!(message.content, "Amanda Raidの火属性参加者を募集します！\n開催日時：12/25 21:00");
    assert_eq!(message.reactions.len(), 1);
    assert_eq!(message.reactions[0].0, "🔥");
    assert_eq!(world.store.get_by_message(1, 2, id).unwrap().battle_type, BattleType::Fire);
}

#[test]
fn create_falls_back_to_the_literal_text() {
    let mut world = World::new();
    let outcome = world.create(1, 2, "Unknown Boss", BattleType::Water, christmas());
    let id = created_message(outcome);
    let message = world.message(id);
    assert_eq!(
        message.content,
        "Unknown Bossの水属性参加者を募集します！\n開催日時：12/25 21:00"
    );
    let row = world.store.get_by_message(1, 2, id).unwrap();
    assert_eq!(row.target_id, None);
    assert_eq!(row.battle_type, BattleType::Water);
}

#[test]
fn create_falls_back_when_the_directory_fails() {
    let (flow, action) = CreateFlow::begin(1, 2, "Amanda", BattleType::Default, christmas());
    assert_eq!(action, Action::FindQuestByAlias { alias: "Amanda".to_string() });
    let (_, action) = flow.step(Event::Failed);
    match action {
        Action::SendMessage { channel_id, content, embed } => {
            assert_eq!(channel_id, 2);
            assert_eq!(content, "Amandaのデフォルト参加者を募集します！\n開催日時：12/25 21:00");
            assert!(embed.is_some());
        }
        other => panic!("unexpected action {:?}", other),
    }
}

#[test]
fn create_fails_only_when_the_message_cannot_be_sent() {
    let mut world = World::new();
    world.fail_send = true;
    let outcome = world.create(1, 2, "Amanda", BattleType::AllElement, christmas());
    assert_eq!(outcome, Outcome::Failed(EngineError::QuestResolution));
    assert!(world.messages.is_empty());
    assert_eq!(world.store.len(), 0);
}

#[test]
fn a_failed_reaction_does_not_stop_the_others() {
    let mut world = World::new();
    world.failing_reactions = vec![Element::Water, Element::Light];
    let outcome = world.create(1, 2, "Amanda", BattleType::AllElement, christmas());
    assert_eq!(
        outcome,
        Outcome::Created { message_id: 500, reactions_failed: 2, persisted: true }
    );
    let emoji: Vec<&str> = world.message(500).reactions.iter().map(|(e, _)| e.as_str()).collect();
    assert_eq!(emoji, vec!["🔥", "🌱", "🌪️", "🌑"]);
    let asked = world.log.iter().filter(|a| matches!(a, Action::AddReaction { .. })).count();
    assert_eq!(asked, 6);
}

#[test]
fn a_row_that_cannot_be_stored_leaves_the_message() {
    let mut world = World::new();
    world.fail_store = true;
    let outcome = world.create(1, 2, "Amanda", BattleType::Dark, christmas());
    assert_eq!(
        outcome,
        Outcome::Created { message_id: 500, reactions_failed: 0, persisted: false }
    );
    assert_eq!(world.messages.len(), 1);
    assert_eq!(world.store.len(), 0);
}

#[test]
fn six_participants_complete_the_party_once() {
    let mut world = World::new();
    let id = created_message(world.create(1, 2, "Amanda", BattleType::AllElement, christmas()));
    six_sign_up(&mut world, id);
    let outcome = world.change(Some(1), 2, id, Some(106));
    assert_eq!(outcome, Outcome::Updated { announced: true });

    let announcements = world.sent_by_bot_after(id);
    assert_eq!(announcements.len(), 1);
    let announcement = announcements[0];
    assert_eq!(announcement.reply_to, None);
    assert_eq!(announcement.channel_id, 2);
    for user in 101..=106 {
        assert!(announcement.content.contains(&format!("<@{}>", user)));
    }
    assert!(!announcement.content.contains(&format!("<@{}>", BOT)));
    assert_eq!(
        announcement.content,
        "<@101> <@102> <@103> <@104> <@105> <@106>\n募集が完了しました！"
    );
    let announcement_id = announcement.id;
    let row = world.store.get_by_message(1, 2, id).unwrap();
    assert_eq!(row.completion_message_id(), Some(announcement_id));
    assert_eq!(row.status, RecruitmentStatus::Complete(announcement_id));
    assert_eq!(world.store.has_completion_announcement(row.id), Some(true));

    let embed = world.message(id).embed.clone().unwrap();
    assert_eq!(embed.title.as_deref(), Some("参加者一覧"));
    assert_eq!(embed.fields.len(), 6);
    assert_eq!(embed.fields[0].name, "🔥");
    assert_eq!(embed.fields[0].value, "<@101>");
    assert_eq!(embed.fields[5].name, "🌑");
    assert_eq!(embed.fields[5].value, "<@106>");
    assert!(embed.fields.iter().all(|f| !f.inline));
}

#[test]
fn the_guilds_own_wording_is_used_for_the_announcement() {
    let mut world = World::new();
    world.completion_text = Some("全員集合！".to_string());
    let id = created_message(world.create(1, 2, "Amanda", BattleType::AllElement, christmas()));
    six_sign_up(&mut world, id);
    assert_eq!(world.change(Some(1), 2, id, None), Outcome::Updated { announced: true });
    let announcement = world.sent_by_bot_after(id)[0];
    assert!(announcement.content.ends_with("\n全員集合！"));
}

#[test]
fn handling_the_same_reactions_twice_announces_once() {
    let mut world = World::new();
    let id = created_message(world.create(1, 2, "Amanda", BattleType::AllElement, christmas()));
    six_sign_up(&mut world, id);
    assert_eq!(world.change(Some(1), 2, id, Some(106)), Outcome::Updated { announced: true });
    let first = world.message(id).embed.clone();
    assert_eq!(world.change(Some(1), 2, id, Some(106)), Outcome::Updated { announced: false });
    let second = world.message(id).embed.clone();
    assert_eq!(first, second);
    assert_eq!(world.sent_by_bot_after(id).len(), 1);
}

#[test]
fn five_participants_do_not_complete_the_party() {
    let mut world = World::new();
    let id = created_message(world.create(1, 2, "Amanda", BattleType::AllElement, christmas()));
    for user in 101..=105 {
        world.react(id, Element::Fire, user);
    }
    // the fifth user also signs up with a second element, and stays one participant
    world.react(id, Element::Water, 105);
    assert_eq!(world.change(Some(1), 2, id, Some(105)), Outcome::Updated { announced: false });
    assert!(world.sent_by_bot_after(id).is_empty());
    let embed = world.message(id).embed.clone().unwrap();
    assert_eq!(embed.fields[0].value, "<@101>  <@102>  <@103>  <@104>  <@105>");
    assert_eq!(embed.fields[1].value, "<@105>");
    assert_eq!(embed.fields[2].value, "無し");
    let row = world.store.get_by_message(1, 2, id).unwrap();
    assert_eq!(row.status, RecruitmentStatus::Open);
    assert_eq!(world.store.has_completion_announcement(row.id), Some(false));
}

#[test]
fn of_two_racing_handlers_one_announces() {
    let mut world = World::new();
    let id = created_message(world.create(1, 2, "Amanda", BattleType::AllElement, christmas()));
    six_sign_up(&mut world, id);
    world.react(id, Element::Fire, 107);

    // both handlers run up to their claim before either of them proceeds
    let mut racers = Vec::new();
    for user in [106u64, 107u64] {
        let (mut flow, mut action) = ChangeFlow::begin(Some(1), 2, id, Some(user), BOT);
        while !matches!(action, Action::ClaimCompletion { .. }) {
            let event = world.perform(&action);
            (flow, action) = flow.step(event);
        }
        racers.push((flow, action));
    }
    let mut outcomes = Vec::new();
    for (mut flow, mut action) in racers {
        let outcome = loop {
            if let Action::Finish(outcome) = action {
                break outcome;
            }
            let event = world.perform(&action);
            (flow, action) = flow.step(event);
        };
        outcomes.push(outcome);
    }
    assert_eq!(
        outcomes,
        vec![Outcome::Updated { announced: true }, Outcome::Updated { announced: false }]
    );
    assert_eq!(world.sent_by_bot_after(id).len(), 1);
    let posted = world.log.iter().filter(|a| matches!(a, Action::SendMessage { .. })).count();
    assert_eq!(posted, 2); // the recruitment message and one announcement
}

#[test]
fn an_announcement_that_cannot_be_posted_is_given_up() {
    let mut world = World::new();
    let id = created_message(world.create(1, 2, "Amanda", BattleType::AllElement, christmas()));
    six_sign_up(&mut world, id);
    world.fail_send = true;
    assert_eq!(world.change(Some(1), 2, id, None), Outcome::Failed(EngineError::Platform));
    assert_eq!(world.store.get_by_message(1, 2, id).unwrap().status, RecruitmentStatus::Open);
    world.fail_send = false;
    assert_eq!(world.change(Some(1), 2, id, None), Outcome::Updated { announced: true });
}

#[test]
fn events_that_concern_no_recruitment_are_ignored() {
    let mut world = World::new();
    let id = created_message(world.create(1, 2, "Amanda", BattleType::AllElement, christmas()));
    let before = world.log.len();
    // a reaction outside a guild
    assert_eq!(world.change(None, 2, id, Some(101)), Outcome::Ignored);
    // a reaction of the bot itself
    assert_eq!(world.change(Some(1), 2, id, Some(BOT)), Outcome::Ignored);
    assert_eq!(world.log.len(), before);
    // a message without a recruitment
    assert_eq!(world.change(Some(1), 2, 77, Some(101)), Outcome::Ignored);
    // a recruitment on a message somebody else wrote
    world.message_mut(id).author_id = 1234;
    assert_eq!(world.change(Some(1), 2, id, Some(101)), Outcome::Ignored);
    assert!(world.message(id).embed.as_ref().unwrap().fields.is_empty());
}

#[test]
fn a_failing_store_or_platform_ends_the_change_in_failure() {
    let (flow, _) = ChangeFlow::begin(Some(1), 2, 3, Some(101), BOT);
    let (_, action) = flow.step(Event::Failed);
    assert_eq!(action, Action::Finish(Outcome::Failed(EngineError::Persistence)));

    let mut world = World::new();
    let id = created_message(world.create(1, 2, "Amanda", BattleType::Fire, christmas()));
    let row = world.store.get_by_message(1, 2, id).unwrap();
    let (flow, _) = ChangeFlow::begin(Some(1), 2, id, Some(101), BOT);
    let (flow, action) = flow.step(Event::RecruitmentLookedUp(Some(row)));
    assert_eq!(action, Action::FetchMessage { channel_id: 2, message_id: id });
    let (flow, action) = flow.step(Event::Failed);
    assert_eq!(action, Action::Finish(Outcome::Failed(EngineError::Platform)));
    // a finished flow stays finished
    let (_, action) = flow.step(Event::Done);
    assert_eq!(action, Action::Finish(Outcome::Failed(EngineError::Platform)));
}

#[test]
fn users_that_cannot_be_fetched_leave_one_element_out() {
    let mut world = World::new();
    let id = created_message(world.create(1, 2, "Amanda", BattleType::AllElement, christmas()));
    six_sign_up(&mut world, id);
    world.failing_fetches = vec![Element::Earth];
    assert_eq!(world.change(Some(1), 2, id, None), Outcome::Updated { announced: false });
    let embed = world.message(id).embed.clone().unwrap();
    let names: Vec<&str> = embed.fields.iter().map(|f| f.name.as_str()).collect();
    assert_eq!(names, vec!["🔥", "💧", "🌪️", "✨", "🌑"]);
}

#[test]
fn reacting_users_are_fetched_page_by_page() {
    let mut world = World::new();
    let id = created_message(world.create(1, 2, "Amanda", BattleType::Fire, christmas()));
    for user in 1..=250u64 {
        world.react(id, Element::Fire, 10_000 + user);
    }
    let before = world.log.len();
    assert_eq!(world.change(Some(1), 2, id, None), Outcome::Updated { announced: true });
    let fetches: Vec<&Action> = world.log[before..]
        .iter()
        .filter(|a| matches!(a, Action::FetchReactionUsers { .. }))
        .collect();
    // 251 users with the bot: pages of 100, 100 and 51
    assert_eq!(fetches.len(), 3);
    match fetches[1] {
        Action::FetchReactionUsers { request, .. } => {
            assert_eq!(request.element, Element::Fire);
            assert_eq!(request.limit, 100);
            assert_eq!(request.after, Some(10_099));
        }
        _ => unreachable!(),
    }
    let announcement = world.sent_by_bot_after(id)[0];
    assert_eq!(announcement.content.matches("<@").count(), 250);
}

#[test]
fn cancel_rewrites_the_message_and_notifies_the_participants() {
    let mut world = World::new();
    let id = created_message(world.create(1, 2, "Amanda", BattleType::AllElement, christmas()));
    world.react(id, Element::Fire, 123456789);
    world.react(id, Element::Dark, 987654321);
    let original = world.message(id).content.clone();
    assert_eq!(world.cancel(1, 2, id), Outcome::Cancelled);

    let message = world.message(id);
    assert_ne!(message.content, original);
    assert_eq!(
        message.content,
        format!("【キャンセル済み】\n{}\n\nこの募集はキャンセルされました。", original)
    );
    let replies = world.sent_by_bot_after(id);
    assert_eq!(replies.len(), 1);
    assert_eq!(replies[0].reply_to, Some(id));
    assert!(replies[0].content.contains("<@123456789>"));
    assert!(replies[0].content.contains("<@987654321>"));
    assert_eq!(
        replies[0].content,
        "この募集はキャンセルされました。\n参加予定だった方: <@123456789> <@987654321>"
    );
    let row = world.store.get_by_message(1, 2, id).unwrap();
    assert_eq!(row.status, RecruitmentStatus::Cancelled);

    // a cancelled recruitment is left alone by later reactions
    six_sign_up(&mut world, id);
    assert_eq!(world.change(Some(1), 2, id, Some(101)), Outcome::Ignored);
    assert_eq!(world.sent_by_bot_after(id).len(), 1);
}

#[test]
fn cancel_without_participants_says_so() {
    let mut world = World::new();
    let id = created_message(world.create(1, 2, "Amanda", BattleType::Wind, christmas()));
    assert_eq!(world.cancel(1, 2, id), Outcome::Cancelled);
    assert_eq!(
        world.sent_by_bot_after(id)[0].content,
        "この募集はキャンセルされました。\n参加予定だった方: 参加者はいませんでした"
    );
}

#[test]
fn cancel_and_start_need_a_recruitment() {
    let mut world = World::new();
    assert_eq!(world.cancel(1, 2, 3), Outcome::Failed(EngineError::NotFound));
    assert_eq!(world.start(1, 2, 3, 1), Outcome::Failed(EngineError::NotFound));
    let id = created_message(world.create(1, 2, "Amanda", BattleType::Wind, christmas()));
    let row = world.store.get_by_message(1, 2, id).unwrap();
    assert_eq!(world.start(1, 2, id, row.id + 1), Outcome::Failed(EngineError::NotFound));
    assert!(world.sent_by_bot_after(id).is_empty());
    let (flow, _) = CancelFlow::begin(1, 2, id, BOT);
    let (_, action) = flow.step(Event::Failed);
    assert_eq!(action, Action::Finish(Outcome::Failed(EngineError::Persistence)));
}

#[test]
fn start_tells_the_participants_to_depart() {
    let mut world = World::new();
    let id = created_message(world.create(1, 2, "Amanda", BattleType::AllElement, christmas()));
    world.react(id, Element::Fire, 444444444);
    world.react(id, Element::Water, 555555555);
    let row = world.store.get_by_message(1, 2, id).unwrap();
    assert_eq!(world.start(1, 2, id, row.id), Outcome::Started);
    let replies = world.sent_by_bot_after(id);
    assert_eq!(replies.len(), 1);
    assert_eq!(replies[0].reply_to, Some(id));
    assert_eq!(
        replies[0].content,
        "🚀 **クエスト出発時間です！** 🚀\n\nAmanda Raid\n\n参加者の皆さん: <@444444444> <@555555555>\n\nクエストを開始してください！"
    );
    assert_eq!(world.store.get(row.id).unwrap().status, RecruitmentStatus::Started);
}

#[test]
fn a_recruitment_in_a_terminal_state_is_left_as_it_is() {
    let mut world = World::new();
    let started = created_message(world.create(1, 2, "Amanda", BattleType::Fire, christmas()));
    let cancelled = created_message(world.create(1, 2, "Amanda", BattleType::Fire, christmas()));
    let complete = created_message(world.create(1, 2, "Amanda", BattleType::Fire, christmas()));
    for user in 101..=106 {
        world.react(complete, Element::Fire, user);
    }
    let row = |world: &World, message: u64| world.store.get_by_message(1, 2, message).unwrap();
    assert_eq!(world.start(1, 2, started, row(&world, started).id), Outcome::Started);
    assert_eq!(world.cancel(1, 2, cancelled), Outcome::Cancelled);
    assert_eq!(world.change(Some(1), 2, complete, None), Outcome::Updated { announced: true });
    assert!(matches!(row(&world, complete).status, RecruitmentStatus::Complete(_)));

    let contents: Vec<String> = world.messages.iter().map(|m| m.content.clone()).collect();
    let statuses: Vec<RecruitmentStatus> =
        [started, cancelled, complete].iter().map(|m| row(&world, *m).status).collect();
    let before = world.log.len();
    for message in [started, cancelled, complete] {
        let id = row(&world, message).id;
        assert_eq!(world.cancel(1, 2, message), Outcome::Ignored);
        assert_eq!(world.start(1, 2, message, id), Outcome::Ignored);
    }
    // the store was asked for the row and nothing else was done
    assert_eq!(world.log.len(), before + 6);
    assert!(world.log[before..].iter().all(|a| matches!(a, Action::GetRecruitment { .. })));
    let after: Vec<String> = world.messages.iter().map(|m| m.content.clone()).collect();
    assert_eq!(after, contents);
    let unchanged: Vec<RecruitmentStatus> =
        [started, cancelled, complete].iter().map(|m| row(&world, *m).status).collect();
    assert_eq!(unchanged, statuses);
}

#[test]
fn a_claimed_recruitment_can_still_be_cancelled() {
    let mut world = World::new();
    let id = created_message(world.create(1, 2, "Amanda", BattleType::Fire, christmas()));
    let row = world.store.get_by_message(1, 2, id).unwrap();
    assert!(world.store.claim_completion(row.id));
    assert_eq!(world.cancel(1, 2, id), Outcome::Cancelled);
    assert_eq!(world.store.get(row.id).unwrap().status, RecruitmentStatus::Cancelled);
}

#[test]
fn a_mark_that_the_store_refuses_ends_in_failure() {
    let mut world = World::new();
    let id = created_message(world.create(1, 2, "Amanda", BattleType::Fire, christmas()));
    let row = world.store.get_by_message(1, 2, id).unwrap();
    // somebody else cancels between the load and the mark
    let (mut flow, mut action) = CancelFlow::begin(1, 2, id, BOT);
    while !matches!(action, Action::MarkCancelled { .. }) {
        let event = world.perform(&action);
        (flow, action) = flow.step(event);
    }
    assert!(world.store.mark_started(row.id));
    let event = world.perform(&action);
    assert_eq!(event, Event::Failed);
    let (_, action) = flow.step(event);
    assert_eq!(action, Action::Finish(Outcome::Failed(EngineError::Persistence)));
    assert_eq!(world.store.get(row.id).unwrap().status, RecruitmentStatus::Started);
}

#[test]
fn only_the_message_of_a_recruitment_is_rewritten() {
    let mut world = World::new();
    let id = created_message(world.create(1, 2, "Amanda", BattleType::Light, christmas()));
    let embed = world.message(id).embed.clone();

    let (flow, action) = UpdateFlow::begin(1, 2, id, Some("新しい内容".to_string()), None);
    assert_eq!(flow.outcome(), None);
    let event = world.perform(&action);
    let (flow, action) = flow.step(event);
    assert_eq!(
        action,
        Action::EditMessage {
            channel_id: 2,
            message_id: id,
            content: Some("新しい内容".to_string()),
            embed: None
        }
    );
    let event = world.perform(&action);
    let (flow, action) = flow.step(event);
    assert_eq!(action, Action::Finish(Outcome::Edited));
    assert_eq!(flow.outcome(), Some(Outcome::Edited));
    assert_eq!(world.message(id).content, "新しい内容");
    assert_eq!(world.message(id).embed, embed);

    let (flow, action) = UpdateFlow::begin(1, 2, 77, None, None);
    let event = world.perform(&action);
    let (flow, action) = flow.step(event);
    assert_eq!(action, Action::Finish(Outcome::Failed(EngineError::NotFound)));
    let (_, action) = flow.step(Event::Done);
    assert_eq!(action, Action::Finish(Outcome::Failed(EngineError::NotFound)));

    let (flow, _) = UpdateFlow::begin(1, 2, id, None, None);
    let (_, action) = flow.step(Event::Failed);
    assert_eq!(action, Action::Finish(Outcome::Failed(EngineError::Persistence)));
    let row = world.store.get_by_message(1, 2, id);
    let (flow, _) = UpdateFlow::begin(1, 2, id, None, None);
    let (flow, _) = flow.step(Event::RecruitmentLookedUp(row));
    let (_, action) = flow.step(Event::Failed);
    assert_eq!(action, Action::Finish(Outcome::Failed(EngineError::Platform)));
}

#[test]
fn start_of_an_unnamed_quest_uses_a_placeholder() {
    let mut world = World::new();
    let id = created_message(world.create(1, 2, "Nameless", BattleType::Light, christmas()));
    let row = world.store.get_by_message(1, 2, id).unwrap();
    assert_eq!(world.start(1, 2, id, row.id), Outcome::Started);
    assert_eq!(
        world.sent_by_bot_after(id)[0].content,
        "🚀 **クエスト出発時間です！** 🚀\n\nクエスト\n\n参加者の皆さん: 参加者がいません\n\nクエストを開始してください！"
    );
}

#[test]
fn failures_are_named_in_the_users_language() {
    let japanese = Language::Japanese;
    let english = Language::English;
    assert_eq!(EngineError::NotFound.describe(japanese), "募集が見つかりませんでした。");
    assert_eq!(EngineError::Platform.describe(japanese), "Discordとの通信に失敗しました。");
    assert_eq!(EngineError::Persistence.describe(japanese), "データベースエラーが発生しました。");
    assert_eq!(
        EngineError::QuestResolution.describe(japanese),
        "募集メッセージの送信に失敗しました。"
    );
    assert_eq!(EngineError::NotFound.describe(english), "The recruitment was not found.");
    assert_eq!(EngineError::Platform.describe(english), "The chat platform could not be reached.");
    assert_eq!(EngineError::Persistence.describe(english), "The database failed.");
    assert_eq!(
        EngineError::QuestResolution.describe(english),
        "The recruitment message could not be sent."
    );
}
