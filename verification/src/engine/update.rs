//! Rewriting a recruitment message: a new content, a new embed, or both.

use vstd::prelude::*;
use crate::embed::{opt_embed_view, Embed, EmbedView};
use crate::engine::{Action, ActionView, EngineError, Event, EventView, Outcome};
use crate::text::opt_view;

verus! {

/// Where the rewriting of a recruitment message stands.
#[derive(Debug)]
pub enum UpdateFlow {
    /// The store is being asked for the recruitment of the message.
    Loading {
        guild_id: u64,
        channel_id: u64,
        message_id: u64,
        new_content: Option<String>,
        new_embed: Option<Embed>,
    },
    /// The message is being edited.
    Editing,
    Finished(Outcome),
}

/// The state of a rewriting, as plain values.
pub enum UpdateModel {
    Loading {
        guild_id: u64,
        channel_id: u64,
        message_id: u64,
        new_content: Option<Seq<char>>,
        new_embed: Option<EmbedView>,
    },
    Editing,
    Finished(Outcome),
}

impl View for UpdateFlow {
    type V = UpdateModel;

    open spec fn view(&self) -> UpdateModel {
        match *self {
            UpdateFlow::Loading {
                guild_id,
                channel_id,
                message_id,
                new_content,
                new_embed,
            } => UpdateModel::Loading {
                guild_id,
                channel_id,
                message_id,
                new_content: opt_view(new_content),
                new_embed: opt_embed_view(new_embed),
            },
            UpdateFlow::Editing => UpdateModel::Editing,
            UpdateFlow::Finished(outcome) => UpdateModel::Finished(outcome),
        }
    }
}

/// A flow that ends here with `outcome`.
pub open spec fn finished(outcome: Outcome) -> (UpdateModel, ActionView) {
    (UpdateModel::Finished(outcome), ActionView::Finish(outcome))
}

impl UpdateModel {
    /// The state a rewriting starts in.
    pub open spec fn start(
        guild_id: u64,
        channel_id: u64,
        message_id: u64,
        new_content: Option<Seq<char>>,
        new_embed: Option<EmbedView>,
    ) -> (UpdateModel, ActionView) {
        (
            UpdateModel::Loading { guild_id, channel_id, message_id, new_content, new_embed },
            ActionView::GetRecruitment { guild_id, channel_id, message_id },
        )
    }

    /// The next state and the next action, given what the last action came
    /// to.  Only the message of a recruitment is rewritten: a message
    /// without one ends the flow with `NotFound`.
    pub open spec fn step(self, event: EventView) -> (UpdateModel, ActionView) {
        match self {
            UpdateModel::Loading { guild_id, channel_id, message_id, new_content, new_embed } => {
                match event {
                    EventView::RecruitmentLookedUp(Some(recruitment)) => (
                        UpdateModel::Editing,
                        ActionView::EditMessage {
                            channel_id: recruitment.channel_id,
                            message_id: recruitment.message_id,
                            content: new_content,
                            embed: new_embed,
                        },
                    ),
                    EventView::RecruitmentLookedUp(None) => finished(
                        Outcome::Failed(EngineError::NotFound),
                    ),
                    _ => finished(Outcome::Failed(EngineError::Persistence)),
                }
            },
            UpdateModel::Editing => match event {
                EventView::Done => finished(Outcome::Edited),
                _ => finished(Outcome::Failed(EngineError::Platform)),
            },
            UpdateModel::Finished(outcome) => finished(outcome),
        }
    }
}

fn finish(outcome: Outcome) -> (r: (UpdateFlow, Action))
    ensures
        (r.0@, r.1@) == finished(outcome),
{
    (UpdateFlow::Finished(outcome), Action::Finish(outcome))
}

impl UpdateFlow {
    /// Starts the rewriting of the recruitment message `message_id`.
    pub fn begin(
        guild_id: u64,
        channel_id: u64,
        message_id: u64,
        new_content: Option<String>,
        new_embed: Option<Embed>,
    ) -> (r: (UpdateFlow, Action))
        ensures
            (r.0@, r.1@) == UpdateModel::start(
                guild_id,
                channel_id,
                message_id,
                opt_view(new_content),
                opt_embed_view(new_embed),
            ),
    {
        (
            UpdateFlow::Loading { guild_id, channel_id, message_id, new_content, new_embed },
            Action::GetRecruitment { guild_id, channel_id, message_id },
        )
    }

    /// Takes in what the last action came to and says what to do next.
    pub fn step(self, event: Event) -> (r: (UpdateFlow, Action))
        ensures
            (r.0@, r.1@) == self@.step(event@),
    {
        match self {
            UpdateFlow::Loading { guild_id, channel_id, message_id, new_content, new_embed } => {
                match event {
                    Event::RecruitmentLookedUp(Some(recruitment)) => (
                        UpdateFlow::Editing,
                        Action::EditMessage {
                            channel_id: recruitment.channel_id,
                            message_id: recruitment.message_id,
                            content: new_content,
                            embed: new_embed,
                        },
                    ),
                    Event::RecruitmentLookedUp(None) => finish(
                        Outcome::Failed(EngineError::NotFound),
                    ),
                    _ => finish(Outcome::Failed(EngineError::Persistence)),
                }
            },
            UpdateFlow::Editing => match event {
                Event::Done => finish(Outcome::Edited),
                _ => finish(Outcome::Failed(EngineError::Platform)),
            },
            UpdateFlow::Finished(outcome) => finish(outcome),
        }
    }

    /// How the rewriting ended, none while it is under way.
    pub fn outcome(&self) -> (r: Option<Outcome>)
        ensures
            r == match self@ {
                UpdateModel::Finished(outcome) => Some(outcome),
                _ => None,
            },
    {
        match self {
            UpdateFlow::Finished(outcome) => Some(*outcome),
            _ => None,
        }
    }
}

} // verus!
