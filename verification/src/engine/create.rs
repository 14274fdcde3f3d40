//! Creating a recruitment: resolve the quest, send the message, attach the
//! reactions, store the row.

use vstd::prelude::*;
use vstd::string::*;
use crate::battle_type::BattleType;
use crate::embed::{initial_embed, spec_initial_embed};
use crate::engine::{Action, ActionView, EngineError, Event, EventView, Outcome};
use crate::event_date::EventDate;
use crate::messages::{recruitment_message, recruitment_text};
use crate::quest::{resolve, resolve_quest};

verus! {

/// Where the creation of a recruitment stands.
#[derive(Debug)]
pub enum CreateFlow {
    /// The directory is being asked for the quest.
    Resolving { guild_id: u64, channel_id: u64, text: String, requested: BattleType, expiry: EventDate },
    /// The recruitment message is being sent.
    Sending {
        guild_id: u64,
        channel_id: u64,
        target_id: Option<i32>,
        battle_type: BattleType,
        expiry: EventDate,
    },
    /// The reactions are being attached; `next` of them were asked for and
    /// `failed` of the answered ones failed.
    Reacting {
        guild_id: u64,
        channel_id: u64,
        message_id: u64,
        target_id: Option<i32>,
        battle_type: BattleType,
        expiry: EventDate,
        next: usize,
        failed: usize,
    },
    /// The row is being stored.
    Storing { message_id: u64, failed: usize },
    Finished(Outcome),
}

/// The state of a creation, as plain values.
pub enum CreateModel {
    Resolving {
        guild_id: u64,
        channel_id: u64,
        text: Seq<char>,
        requested: BattleType,
        expiry: EventDate,
    },
    Sending {
        guild_id: u64,
        channel_id: u64,
        target_id: Option<i32>,
        battle_type: BattleType,
        expiry: EventDate,
    },
    Reacting {
        guild_id: u64,
        channel_id: u64,
        message_id: u64,
        target_id: Option<i32>,
        battle_type: BattleType,
        expiry: EventDate,
        next: usize,
        failed: usize,
    },
    Storing { message_id: u64, failed: usize },
    Finished(Outcome),
}

impl View for CreateFlow {
    type V = CreateModel;

    open spec fn view(&self) -> CreateModel {
        match *self {
            CreateFlow::Resolving {
                guild_id,
                channel_id,
                text,
                requested,
                expiry,
            } => CreateModel::Resolving { guild_id, channel_id, text: text@, requested, expiry },
            CreateFlow::Sending {
                guild_id,
                channel_id,
                target_id,
                battle_type,
                expiry,
            } => CreateModel::Sending { guild_id, channel_id, target_id, battle_type, expiry },
            CreateFlow::Reacting {
                guild_id,
                channel_id,
                message_id,
                target_id,
                battle_type,
                expiry,
                next,
                failed,
            } => CreateModel::Reacting {
                guild_id,
                channel_id,
                message_id,
                target_id,
                battle_type,
                expiry,
                next,
                failed,
            },
            CreateFlow::Storing { message_id, failed } => CreateModel::Storing {
                message_id,
                failed,
            },
            CreateFlow::Finished(outcome) => CreateModel::Finished(outcome),
        }
    }
}

/// One more failure, as far as the counter goes.
pub open spec fn one_more(failed: usize) -> usize {
    if failed < usize::MAX {
        (failed + 1) as usize
    } else {
        failed
    }
}

/// What follows once `next` reactions were asked for: the next reaction of
/// the category, or the row once all were asked for.
pub open spec fn after_reactions(
    guild_id: u64,
    channel_id: u64,
    message_id: u64,
    target_id: Option<i32>,
    battle_type: BattleType,
    expiry: EventDate,
    next: usize,
    failed: usize,
) -> (CreateModel, ActionView) {
    let elements = battle_type.spec_elements();
    if next < elements.len() {
        (
            CreateModel::Reacting {
                guild_id,
                channel_id,
                message_id,
                target_id,
                battle_type,
                expiry,
                next: (next + 1) as usize,
                failed,
            },
            ActionView::AddReaction { channel_id, message_id, element: elements[next as int] },
        )
    } else {
        (
            CreateModel::Storing { message_id, failed },
            ActionView::CreateRecruitment {
                guild_id,
                channel_id,
                message_id,
                target_id,
                battle_type,
                expiry,
            },
        )
    }
}

impl CreateModel {
    /// The state a creation starts in.
    pub open spec fn start(
        guild_id: u64,
        channel_id: u64,
        text: Seq<char>,
        requested: BattleType,
        expiry: EventDate,
    ) -> (CreateModel, ActionView) {
        (
            CreateModel::Resolving { guild_id, channel_id, text, requested, expiry },
            ActionView::FindQuestByAlias { alias: text },
        )
    }

    /// The next state and the next action, given what the last action came
    /// to.
    ///
    /// A quest that is not found, or a directory that fails, leaves the
    /// text of the command as the name to show.  Only a message that cannot
    /// be sent ends the creation in failure; a reaction that cannot be
    /// attached is counted and the others are still attached, and a row
    /// that cannot be stored is reported with the message that was sent.
    pub open spec fn step(self, event: EventView) -> (CreateModel, ActionView) {
        match self {
            CreateModel::Resolving { guild_id, channel_id, text, requested, expiry } => {
                let found = match event {
                    EventView::QuestLookedUp(quest) => quest,
                    _ => None,
                };
                let resolved = resolve(text, found, requested);
                (
                    CreateModel::Sending {
                        guild_id,
                        channel_id,
                        target_id: resolved.target_id,
                        battle_type: resolved.battle_type,
                        expiry,
                    },
                    ActionView::SendMessage {
                        channel_id,
                        content: recruitment_text(
                            resolved.display_name,
                            resolved.battle_type,
                            expiry@,
                        ),
                        embed: Some(spec_initial_embed()),
                    },
                )
            },
            CreateModel::Sending { guild_id, channel_id, target_id, battle_type, expiry } => {
                match event {
                    EventView::MessageSent(message_id) => after_reactions(
                        guild_id,
                        channel_id,
                        message_id,
                        target_id,
                        battle_type,
                        expiry,
                        0,
                        0,
                    ),
                    _ => {
                        let outcome = Outcome::Failed(EngineError::QuestResolution);
                        (CreateModel::Finished(outcome), ActionView::Finish(outcome))
                    },
                }
            },
            CreateModel::Reacting {
                guild_id,
                channel_id,
                message_id,
                target_id,
                battle_type,
                expiry,
                next,
                failed,
            } => after_reactions(
                guild_id,
                channel_id,
                message_id,
                target_id,
                battle_type,
                expiry,
                next,
                if event is Done {
                    failed
                } else {
                    one_more(failed)
                },
            ),
            CreateModel::Storing { message_id, failed } => {
                let outcome = Outcome::Created {
                    message_id,
                    reactions_failed: failed,
                    persisted: event is Done,
                };
                (CreateModel::Finished(outcome), ActionView::Finish(outcome))
            },
            CreateModel::Finished(outcome) => (
                CreateModel::Finished(outcome),
                ActionView::Finish(outcome),
            ),
        }
    }

    /// The state after a series of events.
    pub open spec fn run(self, events: Seq<EventView>) -> CreateModel
        decreases events.len(),
    {
        if events.len() == 0 {
            self
        } else {
            self.step(events[0]).0.run(events.drop_first())
        }
    }
}

fn next_reaction(
    guild_id: u64,
    channel_id: u64,
    message_id: u64,
    target_id: Option<i32>,
    battle_type: BattleType,
    expiry: EventDate,
    next: usize,
    failed: usize,
) -> (r: (CreateFlow, Action))
    ensures
        (r.0@, r.1@) == after_reactions(
            guild_id,
            channel_id,
            message_id,
            target_id,
            battle_type,
            expiry,
            next,
            failed,
        ),
{
    let elements = battle_type.elements();
    if next < elements.len() {
        (
            CreateFlow::Reacting {
                guild_id,
                channel_id,
                message_id,
                target_id,
                battle_type,
                expiry,
                next: next + 1,
                failed,
            },
            Action::AddReaction { channel_id, message_id, element: elements[next] },
        )
    } else {
        (
            CreateFlow::Storing { message_id, failed },
            Action::CreateRecruitment {
                guild_id,
                channel_id,
                message_id,
                target_id,
                battle_type,
                expiry,
            },
        )
    }
}

impl CreateFlow {
    /// Starts the creation of a recruitment in `channel_id` for the quest
    /// that `text` names.
    pub fn begin(
        guild_id: u64,
        channel_id: u64,
        text: &str,
        requested: BattleType,
        expiry: EventDate,
    ) -> (r: (CreateFlow, Action))
        ensures
            (r.0@, r.1@) == CreateModel::start(guild_id, channel_id, text@, requested, expiry),
    {
        (
            CreateFlow::Resolving {
                guild_id,
                channel_id,
                text: String::from_str(text),
                requested,
                expiry,
            },
            Action::FindQuestByAlias { alias: String::from_str(text) },
        )
    }

    /// Takes in what the last action came to and says what to do next.
    pub fn step(self, event: Event) -> (r: (CreateFlow, Action))
        ensures
            (r.0@, r.1@) == self@.step(event@),
    {
        match self {
            CreateFlow::Resolving { guild_id, channel_id, text, requested, expiry } => {
                let found = match event {
                    Event::QuestLookedUp(quest) => quest,
                    _ => None,
                };
                let resolved = resolve_quest(text.as_str(), &found, requested);
                let content = recruitment_message(
                    resolved.display_name.as_str(),
                    resolved.battle_type,
                    &expiry,
                );
                (
                    CreateFlow::Sending {
                        guild_id,
                        channel_id,
                        target_id: resolved.target_id,
                        battle_type: resolved.battle_type,
                        expiry,
                    },
                    Action::SendMessage { channel_id, content, embed: Some(initial_embed()) },
                )
            },
            CreateFlow::Sending { guild_id, channel_id, target_id, battle_type, expiry } => {
                match event {
                    Event::MessageSent(message_id) => next_reaction(
                        guild_id,
                        channel_id,
                        message_id,
                        target_id,
                        battle_type,
                        expiry,
                        0,
                        0,
                    ),
                    _ => {
                        let outcome = Outcome::Failed(EngineError::QuestResolution);
                        (CreateFlow::Finished(outcome), Action::Finish(outcome))
                    },
                }
            },
            CreateFlow::Reacting {
                guild_id,
                channel_id,
                message_id,
                target_id,
                battle_type,
                expiry,
                next,
                failed,
            } => {
                let failed = match event {
                    Event::Done => failed,
                    _ => if failed < usize::MAX {
                        failed + 1
                    } else {
                        failed
                    },
                };
                next_reaction(
                    guild_id,
                    channel_id,
                    message_id,
                    target_id,
                    battle_type,
                    expiry,
                    next,
                    failed,
                )
            },
            CreateFlow::Storing { message_id, failed } => {
                let persisted = match event {
                    Event::Done => true,
                    _ => false,
                };
                let outcome = Outcome::Created { message_id, reactions_failed: failed, persisted };
                (CreateFlow::Finished(outcome), Action::Finish(outcome))
            },
            CreateFlow::Finished(outcome) => (CreateFlow::Finished(outcome), Action::Finish(outcome)),
        }
    }

    /// How the creation ended, none while it is under way.
    pub fn outcome(&self) -> (r: Option<Outcome>)
        ensures
            r == match self@ {
                CreateModel::Finished(outcome) => Some(outcome),
                _ => None,
            },
    {
        match self {
            CreateFlow::Finished(outcome) => Some(*outcome),
            _ => None,
        }
    }
}

} // verus!
