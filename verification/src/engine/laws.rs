//! What holds of the lifecycle whatever the platform and the store answer.

use vstd::prelude::*;
use crate::battle_type::{BattleType, Element};
use crate::embed::{lemma_rendering_idempotent, spec_initial_embed, with_participants, EmbedView};
use crate::engine::cancel;
use crate::engine::cancel::CancelModel;
use crate::engine::change::{after_edit, after_scan, completion_due};
use crate::engine::create::{after_reactions, one_more, CreateModel};
use crate::engine::{ActionView, EventView, Outcome, SnapshotView};
use crate::event_date::EventDate;
use crate::messages::{
    cancel_notice_text, cancelled_text, completion_text, recruitment_text,
    DEFAULT_COMPLETION_TEXT,
};
use crate::participants::{
    lemma_participants_counted_once, lemma_without_bot, participants, without_bot, GroupView,
    PAGE_LIMIT,
};
use crate::recruitment::{
    claim, has_status, lemma_with_status, record, row_of, rows_wf, Recruitment,
    RecruitmentStatus,
};
use crate::scan::{one_page_groups, spec_targets, PageRequest, ScanModel};
use crate::text::{
    join, lemma_join_holds_parts, lemma_occurs_within, mention, mentions, occurs_in,
};

verus! {

/// A recruit command whose text the directory does not know, or cannot be
/// asked about, is answered with a message that shows the text itself as
/// the quest and the category that was asked for.
pub proof fn lemma_create_falls_back(
    guild_id: u64,
    channel_id: u64,
    text: Seq<char>,
    requested: BattleType,
    expiry: EventDate,
    answer: EventView,
)
    requires
        !(answer matches EventView::QuestLookedUp(Some(_))),
    ensures
        CreateModel::start(guild_id, channel_id, text, requested, expiry).0.step(answer).1
            == (ActionView::SendMessage {
            channel_id,
            content: recruitment_text(text, requested, expiry@),
            embed: Some(spec_initial_embed()),
        }),
        CreateModel::start(guild_id, channel_id, text, requested, expiry).0.step(answer).0
            == (CreateModel::Sending {
            guild_id,
            channel_id,
            target_id: None,
            battle_type: requested,
            expiry,
        }),
{
}

/// Once the recruitment message is sent, the creation ends with that
/// message whatever becomes of the reactions and of the row: after one
/// answer for each reaction of the category and one for the row it has
/// finished, and it reports the message that was sent.
pub proof fn lemma_sent_message_is_reported(
    guild_id: u64,
    channel_id: u64,
    message_id: u64,
    target_id: Option<i32>,
    battle_type: BattleType,
    expiry: EventDate,
    answers: Seq<EventView>,
)
    requires
        answers.len() == battle_type.spec_elements().len() + 1,
    ensures
        (CreateModel::Sending { guild_id, channel_id, target_id, battle_type, expiry }).step(
            EventView::MessageSent(message_id),
        ).0.run(answers) matches CreateModel::Finished(
            Outcome::Created { message_id: reported, reactions_failed, persisted },
        ) && reported == message_id && persisted == (answers.last() is Done),
{
    lemma_reactions_run_out(
        guild_id,
        channel_id,
        message_id,
        target_id,
        battle_type,
        expiry,
        0,
        0,
        answers,
    );
}

/// From any point of attaching reactions the creation runs to its end on
/// one answer for each reaction still to ask for, one for the reaction that
/// is under way and one for the row.
proof fn lemma_reactions_run_out(
    guild_id: u64,
    channel_id: u64,
    message_id: u64,
    target_id: Option<i32>,
    battle_type: BattleType,
    expiry: EventDate,
    next: usize,
    failed: usize,
    answers: Seq<EventView>,
)
    requires
        next <= battle_type.spec_elements().len(),
        answers.len() == battle_type.spec_elements().len() - next + 1,
    ensures
        after_reactions(
            guild_id,
            channel_id,
            message_id,
            target_id,
            battle_type,
            expiry,
            next,
            failed,
        ).0.run(answers) matches CreateModel::Finished(
            Outcome::Created { message_id: reported, reactions_failed, persisted },
        ) && reported == message_id && persisted == (answers.last() is Done),
    decreases battle_type.spec_elements().len() - next,
{
    let state = after_reactions(
        guild_id,
        channel_id,
        message_id,
        target_id,
        battle_type,
        expiry,
        next,
        failed,
    ).0;
    let rest = answers.drop_first();
    if next < battle_type.spec_elements().len() {
        let counted = if answers[0] is Done {
            failed
        } else {
            one_more(failed)
        };
        assert(rest.len() > 0);
        assert(rest.last() == answers.last());
        lemma_reactions_run_out(
            guild_id,
            channel_id,
            message_id,
            target_id,
            battle_type,
            expiry,
            (next + 1) as usize,
            counted,
            rest,
        );
    } else {
        assert(answers.len() == 1);
        assert(rest.len() == 0);
        let done = state.step(answers[0]).0;
        assert(done.run(rest) == done);
    }
}

/// What one pass over a message comes to when every call succeeds: the
/// embed it writes, whether it announces the party, and the rows it leaves.
/// `message_id` is the id under which the announcement would be posted.
pub open spec fn pass(
    rows: Seq<Recruitment>,
    id: i32,
    embed: EmbedView,
    groups: Seq<GroupView>,
    message_id: u64,
) -> (Seq<Recruitment>, EmbedView, bool) {
    let rendered = with_participants(embed, groups);
    match row_of(rows, id) {
        Some(recruitment) => if completion_due(participants(groups), recruitment.status) {
            let (claimed, won) = claim(rows, id);
            if won {
                (record(claimed, id, message_id).0, rendered, true)
            } else {
                (claimed, rendered, false)
            }
        } else {
            (rows, rendered, false)
        },
        None => (rows, rendered, false),
    }
}

/// A pass is what the flow does: it writes the rendered embed, and where
/// the party is complete and unannounced it claims the announcement, posts
/// it once the claim is granted, and records the message it was posted as.
pub proof fn lemma_pass_follows_flow(
    recruitment: Recruitment,
    embed: EmbedView,
    groups: Seq<GroupView>,
    wording: EventView,
    message_id: u64,
)
    ensures
        after_scan(recruitment, Some(embed), groups).1 == (ActionView::EditMessage {
            channel_id: recruitment.channel_id,
            message_id: recruitment.message_id,
            content: None,
            embed: Some(with_participants(embed, groups)),
        }),
        after_scan(recruitment, Some(embed), groups).0.step(EventView::Done) == after_edit(
            recruitment,
            participants(groups),
        ),
        !completion_due(participants(groups), recruitment.status) ==> after_edit(
            recruitment,
            participants(groups),
        ).1 == ActionView::Finish(Outcome::Updated { announced: false }),
        completion_due(participants(groups), recruitment.status) ==> {
            let claiming = after_edit(recruitment, participants(groups));
            let lost = claiming.0.step(EventView::Claimed(false));
            let won = claiming.0.step(EventView::Claimed(true));
            let posting = won.0.step(wording);
            let recording = posting.0.step(EventView::MessageSent(message_id));
            &&& claiming.1 == ActionView::ClaimCompletion { recruitment_id: recruitment.id }
            &&& lost.1 == ActionView::Finish(Outcome::Updated { announced: false })
            &&& won.1 == ActionView::GetCompletionText { guild_id: recruitment.guild_id }
            &&& posting.1 matches ActionView::SendMessage { channel_id, content, embed: None }
            &&& channel_id == recruitment.channel_id
            &&& content == completion_text(
                participants(groups),
                match wording {
                    EventView::CompletionText(Some(text)) => text,
                    _ => DEFAULT_COMPLETION_TEXT@,
                },
            )
            &&& recording.1 == ActionView::RecordCompletion {
                recruitment_id: recruitment.id,
                message_id,
            }
            &&& recording.0.step(EventView::Done).1 == ActionView::Finish(
                Outcome::Updated { announced: true },
            )
        },
{
}

/// Two passes over the same reactions, one right after the other, write
/// the same embed, and at most one of them announces the party.  The second
/// pass finds the embed that the first one wrote.
pub proof fn lemma_participant_change_idempotent(
    rows: Seq<Recruitment>,
    next_id: int,
    id: i32,
    embed: EmbedView,
    groups: Seq<GroupView>,
    first_message: u64,
    second_message: u64,
)
    requires
        rows_wf(rows, next_id),
    ensures
        ({
            let first = pass(rows, id, embed, groups, first_message);
            let second = pass(first.0, id, first.1, groups, second_message);
            &&& second.1 == first.1
            &&& !(first.2 && second.2)
            &&& first.2 ==> has_status(second.0, id, RecruitmentStatus::Complete(first_message))
            &&& !first.2 && !second.2 ==> second.0 == first.0
        }),
{
    lemma_rendering_idempotent(embed, embed, groups);
    let first = pass(rows, id, embed, groups, first_message);
    match row_of(rows, id) {
        Some(recruitment) => {
            if completion_due(participants(groups), recruitment.status) {
                lemma_with_status(rows, next_id, id, RecruitmentStatus::Announcing, id);
                let claimed = claim(rows, id).0;
                assert(has_status(claimed, id, RecruitmentStatus::Announcing));
                lemma_with_status(
                    claimed,
                    next_id,
                    id,
                    RecruitmentStatus::Complete(first_message),
                    id,
                );
                assert(has_status(first.0, id, RecruitmentStatus::Complete(first_message)));
            }
        },
        None => {},
    }
}

/// The events of a cancellation in which every call succeeds and the users
/// of every element fit on one page: the recruitment, the message, one page
/// for each element, the edit, the reply and the mark.
pub open spec fn cancellation_events(
    recruitment: Recruitment,
    snapshot: SnapshotView,
    pages: Seq<Seq<u64>>,
    reply_id: u64,
) -> Seq<EventView> {
    seq![EventView::RecruitmentLookedUp(Some(recruitment)), EventView::MessageFetched(snapshot)]
        + pages.map_values(|page: Seq<u64>| EventView::UsersFetched(page)) + seq![
        EventView::Done,
        EventView::MessageSent(reply_id),
        EventView::Done,
    ]
}

/// What a cancellation asks for while it scans: the users of the element at
/// place `k`, or the edit once every element is through.
pub open spec fn cancel_scan_action(
    recruitment: Recruitment,
    targets: Seq<Element>,
    content: Seq<char>,
    groups: Seq<GroupView>,
    k: int,
) -> ActionView {
    if k < targets.len() {
        ActionView::FetchReactionUsers {
            channel_id: recruitment.channel_id,
            message_id: recruitment.message_id,
            request: PageRequest { element: targets[k], after: None, limit: PAGE_LIMIT },
        }
    } else {
        cancel::after_scan(recruitment, content, groups).1
    }
}

proof fn lemma_cancel_scan(
    recruitment: Recruitment,
    content: Seq<char>,
    scan: ScanModel,
    pages: Seq<Seq<u64>>,
    from: int,
    tail: Seq<EventView>,
)
    requires
        pages.len() == scan.targets.len(),
        forall|i: int| 0 <= i < pages.len() ==> (#[trigger] pages[i]).len() < PAGE_LIMIT,
        0 <= from <= pages.len(),
        scan.position == from,
        scan.after is None,
        scan.current == Seq::<u64>::empty(),
        scan.groups == one_page_groups(scan.targets, pages, scan.bot_id).take(from),
    ensures
        cancel::scan_on(recruitment, content, scan).1 == cancel_scan_action(
            recruitment,
            scan.targets,
            content,
            one_page_groups(scan.targets, pages, scan.bot_id),
            from,
        ),
        cancel::scan_on(recruitment, content, scan).0.trace(
            pages.skip(from).map_values(|page: Seq<u64>| EventView::UsersFetched(page)) + tail,
        ) == Seq::new(
            (pages.len() - from) as nat,
            |j: int|
                cancel_scan_action(
                    recruitment,
                    scan.targets,
                    content,
                    one_page_groups(scan.targets, pages, scan.bot_id),
                    from + 1 + j,
                ),
        ) + cancel::after_scan(
            recruitment,
            content,
            one_page_groups(scan.targets, pages, scan.bot_id),
        ).0.trace(tail),
    decreases pages.len() - from,
{
    let all = one_page_groups(scan.targets, pages, scan.bot_id);
    let events = pages.skip(from).map_values(|page: Seq<u64>| EventView::UsersFetched(page))
        + tail;
    let state = cancel::scan_on(recruitment, content, scan).0;
    let after = cancel::after_scan(recruitment, content, all).0;
    let asked = Seq::new(
        (pages.len() - from) as nat,
        |j: int| cancel_scan_action(recruitment, scan.targets, content, all, from + 1 + j),
    );
    if from == pages.len() {
        assert(all.take(from) =~= all);
        assert(events =~= tail);
        assert(asked + after.trace(tail) =~= after.trace(tail));
    } else {
        let next = scan.accept(pages[from]);
        assert(scan.current + without_bot(pages[from], scan.bot_id) =~= without_bot(
            pages[from],
            scan.bot_id,
        ));
        assert(next.groups =~= all.take(from + 1));
        assert(events[0] == EventView::UsersFetched(pages[from]));
        let rest = pages.skip(from + 1).map_values(|page: Seq<u64>| EventView::UsersFetched(page))
            + tail;
        assert(events.drop_first() =~= rest);
        lemma_cancel_scan(recruitment, content, next, pages, from + 1, tail);
        let following = cancel::scan_on(recruitment, content, next);
        assert(state.step(events[0]) == following);
        assert(state.trace(events) == seq![following.1] + following.0.trace(rest));
        let later = Seq::new(
            (pages.len() - from - 1) as nat,
            |j: int| cancel_scan_action(recruitment, scan.targets, content, all, from + 2 + j),
        );
        assert(seq![following.1] + (later + after.trace(tail)) =~= asked + after.trace(tail));
    }
}

/// A whole cancellation.  Where the recruitment has reached no terminal
/// state, every call succeeds and the users of every element fit on one
/// page, the flow asks for the message, for the users of each element in
/// turn, and then for exactly this: the message of the recruitment is
/// rewritten to the cancelled rendering of its content; one reply to that
/// message is posted in its channel, and the reply mentions every
/// participant; the recruitment is marked cancelled; the flow ends as
/// cancelled.  The participants are the users on the pages other than the
/// bot.
pub proof fn lemma_cancellation(
    guild_id: u64,
    channel_id: u64,
    message_id: u64,
    bot_id: u64,
    recruitment: Recruitment,
    snapshot: SnapshotView,
    pages: Seq<Seq<u64>>,
    reply_id: u64,
)
    requires
        !recruitment.status.spec_is_terminal(),
        pages.len() == spec_targets(recruitment.battle_type, snapshot.reactions).len(),
        forall|i: int| 0 <= i < pages.len() ==> (#[trigger] pages[i]).len() < PAGE_LIMIT,
    ensures
        ({
            let targets = spec_targets(recruitment.battle_type, snapshot.reactions);
            let who = participants(one_page_groups(targets, pages, bot_id));
            let notice = cancel_notice_text(mentions(who));
            let actions = CancelModel::start(guild_id, channel_id, message_id, bot_id).0.trace(
                cancellation_events(recruitment, snapshot, pages, reply_id),
            );
            let n = pages.len() as int;
            &&& actions.len() == n + 5
            &&& actions[0] == (ActionView::FetchMessage {
                channel_id: recruitment.channel_id,
                message_id: recruitment.message_id,
            })
            &&& forall|i: int|
                0 <= i < n ==> #[trigger] actions[1 + i] == (ActionView::FetchReactionUsers {
                    channel_id: recruitment.channel_id,
                    message_id: recruitment.message_id,
                    request: PageRequest { element: targets[i], after: None, limit: PAGE_LIMIT },
                })
            &&& actions[n + 1] == (ActionView::EditMessage {
                channel_id: recruitment.channel_id,
                message_id: recruitment.message_id,
                content: Some(cancelled_text(snapshot.content)),
                embed: None,
            })
            &&& actions[n + 2] == (ActionView::SendReply {
                channel_id: recruitment.channel_id,
                reply_to: recruitment.message_id,
                content: notice,
            })
            &&& actions[n + 3] == (ActionView::MarkCancelled { recruitment_id: recruitment.id })
            &&& actions[n + 4] == ActionView::Finish(Outcome::Cancelled)
            &&& forall|k: int|
                0 <= k < n + 5 && k != n + 2 ==> !((#[trigger] actions[k]) is SendReply)
            &&& forall|k: int|
                0 <= k < n + 5 && k != n + 1 ==> !((#[trigger] actions[k]) is EditMessage)
            &&& forall|user: u64|
                who.contains(user) ==> occurs_in(#[trigger] mention(user as nat), notice)
            &&& forall|user: u64|
                #[trigger] who.contains(user) <==> user != bot_id && exists|i: int|
                    0 <= i < n && (#[trigger] pages[i]).contains(user)
        }),
{
    let targets = spec_targets(recruitment.battle_type, snapshot.reactions);
    let groups = one_page_groups(targets, pages, bot_id);
    let who = participants(groups);
    let notice = cancel_notice_text(mentions(who));
    let n = pages.len() as int;
    let events = cancellation_events(recruitment, snapshot, pages, reply_id);
    let paged = pages.map_values(|page: Seq<u64>| EventView::UsersFetched(page));
    let tail = seq![EventView::Done, EventView::MessageSent(reply_id), EventView::Done];
    let loading = CancelModel::start(guild_id, channel_id, message_id, bot_id).0;

    // the recruitment and the message
    let fetching = loading.step(events[0]);
    let first = seq![EventView::MessageFetched(snapshot)] + paged + tail;
    assert(events.drop_first() =~= first);
    assert(loading.trace(events) == seq![fetching.1] + fetching.0.trace(first));
    let scan = ScanModel::start(targets, bot_id);
    let scanning = cancel::scan_on(recruitment, snapshot.content, scan);
    assert(fetching.0.step(first[0]) == scanning);
    assert(pages.skip(0) =~= pages);
    let second = pages.skip(0).map_values(|page: Seq<u64>| EventView::UsersFetched(page)) + tail;
    assert(first.drop_first() =~= second);
    assert(fetching.0.trace(first) == seq![scanning.1] + scanning.0.trace(second));

    // the pages
    assert(groups.take(0) =~= scan.groups);
    lemma_cancel_scan(recruitment, snapshot.content, scan, pages, 0, tail);
    let asked = Seq::new(
        n as nat,
        |j: int| cancel_scan_action(recruitment, targets, snapshot.content, groups, 1 + j),
    );

    // the edit, the reply and the mark
    let rewriting = cancel::after_scan(recruitment, snapshot.content, groups).0;
    let notifying = rewriting.step(tail[0]);
    let closing = notifying.0.step(tail[1]);
    let ending = closing.0.step(tail[2]);
    let tail1 = tail.drop_first();
    let tail2 = tail1.drop_first();
    let tail3 = tail2.drop_first();
    assert(tail1[0] == tail[1] && tail2[0] == tail[2] && tail3.len() == 0);
    assert(rewriting.trace(tail) == seq![notifying.1] + notifying.0.trace(tail1));
    assert(notifying.0.trace(tail1) == seq![closing.1] + closing.0.trace(tail2));
    assert(closing.0.trace(tail2) == seq![ending.1] + ending.0.trace(tail3));
    assert(ending.0.trace(tail3) =~= Seq::<ActionView>::empty());

    let actions = loading.trace(events);
    assert(actions =~= seq![fetching.1, scanning.1] + asked + seq![
        notifying.1,
        closing.1,
        ending.1,
    ]);
    assert forall|i: int| 0 <= i < n implies #[trigger] actions[1 + i] == (
    ActionView::FetchReactionUsers {
        channel_id: recruitment.channel_id,
        message_id: recruitment.message_id,
        request: PageRequest { element: targets[i], after: None, limit: PAGE_LIMIT },
    }) by {
        if i > 0 {
            assert(actions[1 + i] == asked[i - 1]);
        }
    }
    if n > 0 {
        assert(actions[n + 1] == asked[n - 1]);
    }
    assert forall|k: int| 0 <= k < n + 5 && k != n + 2 implies !((#[trigger] actions[k])
        is SendReply) by {
        if 1 <= k <= n {
            assert(actions[1 + (k - 1)] is FetchReactionUsers);
        }
    }
    assert forall|k: int| 0 <= k < n + 5 && k != n + 1 implies !((#[trigger] actions[k])
        is EditMessage) by {
        if 1 <= k <= n {
            assert(actions[1 + (k - 1)] is FetchReactionUsers);
        }
    }

    // who is mentioned
    assert forall|user: u64| who.contains(user) implies occurs_in(
        #[trigger] mention(user as nat),
        notice,
    ) by {
        let k = choose|k: int| 0 <= k < who.len() && who[k] == user;
        let listed = mentions(who);
        assert(listed[k] == mention(user as nat));
        lemma_join_holds_parts(listed, " "@, k);
        let opening = "この募集はキャンセルされました。\n参加予定だった方: "@;
        lemma_occurs_within(
            mention(user as nat),
            opening,
            join(listed, " "@),
            Seq::<char>::empty(),
        );
        assert(opening + join(listed, " "@) + Seq::<char>::empty() =~= notice);
    }
    assert forall|user: u64|
        #[trigger] who.contains(user) <==> user != bot_id && exists|i: int|
            0 <= i < n && (#[trigger] pages[i]).contains(user) by {
        lemma_participants_counted_once(groups, user);
        if who.contains(user) {
            let g = choose|g: int|
                0 <= g < groups.len() && (#[trigger] groups[g]).users.contains(user);
            lemma_without_bot(pages[g], bot_id);
            assert(pages[g].contains(user));
        }
        if user != bot_id && exists|i: int|
            0 <= i < n && (#[trigger] pages[i]).contains(user) {
            let i = choose|i: int| 0 <= i < n && (#[trigger] pages[i]).contains(user);
            lemma_without_bot(pages[i], bot_id);
            assert(groups[i].users.contains(user));
        }
    }
}

/// How far one handler has come with the announcement of a party.
pub enum Progress {
    /// It has not asked yet.
    Waiting,
    /// Its claim was granted and it is posting.
    Posting,
    /// Its claim was refused and it posts nothing.
    Skipped,
    /// It has posted and recorded its message.
    Recorded,
}

impl Progress {
    /// Whether the handler posts or has posted.
    pub open spec fn posts(self) -> bool {
        self is Posting || self is Recorded
    }

    /// Whether the handler has nothing left to do.
    pub open spec fn through(self) -> bool {
        self is Skipped || self is Recorded
    }
}

/// Several handlers at work on one recruitment.
pub struct Race {
    pub rows: Seq<Recruitment>,
    pub progress: Seq<Progress>,
}

/// The race after handler `h` took its next step against the store: a
/// waiting handler claims the announcement, a posting handler records the
/// message it posted, which is `messages[h]`.
pub open spec fn race_step(race: Race, id: i32, messages: Seq<u64>, h: int) -> Race {
    if 0 <= h < race.progress.len() {
        match race.progress[h] {
            Progress::Waiting => {
                let (rows, won) = claim(race.rows, id);
                Race {
                    rows,
                    progress: race.progress.update(
                        h,
                        if won {
                            Progress::Posting
                        } else {
                            Progress::Skipped
                        },
                    ),
                }
            },
            Progress::Posting => Race {
                rows: record(race.rows, id, messages[h]).0,
                progress: race.progress.update(h, Progress::Recorded),
            },
            _ => race,
        }
    } else {
        race
    }
}

/// The race after the handlers took their steps in the order of `schedule`.
#[verifier::opaque]
pub open spec fn race_run(race: Race, id: i32, messages: Seq<u64>, schedule: Seq<int>) -> Race
    decreases schedule.len(),
{
    if schedule.len() == 0 {
        race
    } else {
        race_step(race_run(race, id, messages, schedule.drop_last()), id, messages, schedule.last())
    }
}

/// `handlers` handlers that have all yet to ask.
pub open spec fn race_start(rows: Seq<Recruitment>, handlers: nat) -> Race {
    Race { rows, progress: Seq::new(handlers, |h: int| Progress::Waiting) }
}

/// What holds of every race that starts with an open recruitment; `lead`
/// is the one handler whose claim was granted, if any was.
spec fn progress_inv(
    progress: Seq<Progress>,
    status: RecruitmentStatus,
    messages: Seq<u64>,
    lead: int,
) -> bool {
    &&& progress.len() == messages.len()
    &&& match status {
        RecruitmentStatus::Open => forall|h: int|
            0 <= h < progress.len() ==> (#[trigger] progress[h]) is Waiting,
        RecruitmentStatus::Announcing => {
            &&& 0 <= lead < progress.len()
            &&& progress[lead] is Posting
            &&& forall|h: int|
                0 <= h < progress.len() && h != lead ==> !(#[trigger] progress[h]).posts()
        },
        RecruitmentStatus::Complete(message) => {
            &&& 0 <= lead < progress.len()
            &&& progress[lead] is Recorded
            &&& messages[lead] == message
            &&& forall|h: int|
                0 <= h < progress.len() && h != lead ==> !(#[trigger] progress[h]).posts()
        },
        _ => false,
    }
}

spec fn race_inv(race: Race, next_id: int, id: i32, messages: Seq<u64>, lead: int) -> bool {
    &&& rows_wf(race.rows, next_id)
    &&& row_of(race.rows, id) matches Some(row) && progress_inv(
        race.progress,
        row.status,
        messages,
        lead,
    )
}

proof fn lemma_race_step(
    race: Race,
    next_id: int,
    id: i32,
    messages: Seq<u64>,
    lead: int,
    h: int,
) -> (next_lead: int)
    requires
        race_inv(race, next_id, id, messages, lead),
    ensures
        race_inv(race_step(race, id, messages, h), next_id, id, messages, next_lead),
{
    let after = race_step(race, id, messages, h);
    let row = row_of(race.rows, id)->Some_0;
    if 0 <= h < race.progress.len() {
        match race.progress[h] {
            Progress::Waiting => {
                if row.status == RecruitmentStatus::Open {
                    lemma_with_status(race.rows, next_id, id, RecruitmentStatus::Announcing, id);
                    assert forall|k: int|
                        0 <= k < after.progress.len() && k != h implies !(
                    #[trigger] after.progress[k]).posts() by {
                        assert(race.progress[k] is Waiting);
                    }
                    h
                } else {
                    assert(after.rows == race.rows);
                    assert(h != lead);
                    assert forall|k: int|
                        0 <= k < after.progress.len() && k != lead implies !(
                    #[trigger] after.progress[k]).posts() by {
                        if k != h {
                            assert(!race.progress[k].posts());
                        }
                    }
                    lead
                }
            },
            Progress::Posting => {
                assert(race.progress[h].posts());
                assert(row.status == RecruitmentStatus::Announcing && h == lead) by {
                    match row.status {
                        RecruitmentStatus::Open => {
                            assert(race.progress[h] is Waiting);
                        },
                        _ => {},
                    }
                }
                lemma_with_status(
                    race.rows,
                    next_id,
                    id,
                    RecruitmentStatus::Complete(messages[h]),
                    id,
                );
                assert forall|k: int|
                    0 <= k < after.progress.len() && k != h implies !(
                #[trigger] after.progress[k]).posts() by {
                    assert(!race.progress[k].posts());
                }
                h
            },
            _ => lead,
        }
    } else {
        lead
    }
}

proof fn lemma_race_run(
    rows: Seq<Recruitment>,
    next_id: int,
    id: i32,
    messages: Seq<u64>,
    schedule: Seq<int>,
) -> (lead: int)
    requires
        rows_wf(rows, next_id),
        has_status(rows, id, RecruitmentStatus::Open),
    ensures
        race_inv(
            race_run(race_start(rows, messages.len()), id, messages, schedule),
            next_id,
            id,
            messages,
            lead,
        ),
    decreases schedule.len(),
{
    reveal(race_run);
    if schedule.len() > 0 {
        let before = lemma_race_run(rows, next_id, id, messages, schedule.drop_last());
        lemma_race_step(
            race_run(race_start(rows, messages.len()), id, messages, schedule.drop_last()),
            next_id,
            id,
            messages,
            before,
            schedule.last(),
        )
    } else {
        0
    }
}

/// However the steps of several handlers of one complete party interleave,
/// at most one handler posts an announcement.  Once every handler is
/// through, exactly one has posted: its message is the one recorded for
/// the recruitment, and every other handler was refused and posted nothing.
pub proof fn lemma_one_announcement(
    rows: Seq<Recruitment>,
    next_id: int,
    id: i32,
    messages: Seq<u64>,
    schedule: Seq<int>,
)
    requires
        rows_wf(rows, next_id),
        has_status(rows, id, RecruitmentStatus::Open),
    ensures
        ({
            let end = race_run(race_start(rows, messages.len()), id, messages, schedule);
            &&& end.progress.len() == messages.len()
            &&& forall|a: int, b: int|
                0 <= a < end.progress.len() && 0 <= b < end.progress.len() && (
                #[trigger] end.progress[a]).posts() && (#[trigger] end.progress[b]).posts() ==> a
                    == b
            &&& messages.len() > 0 && (forall|h: int|
                0 <= h < end.progress.len() ==> (#[trigger] end.progress[h]).through())
                ==> exists|winner: int|
                {
                    &&& 0 <= winner < end.progress.len()
                    &&& (#[trigger] end.progress[winner]) is Recorded
                    &&& has_status(end.rows, id, RecruitmentStatus::Complete(messages[winner]))
                    &&& forall|h: int|
                        0 <= h < end.progress.len() && h != winner ==> (
                        #[trigger] end.progress[h]) is Skipped
                }
        }),
{
    let lead = lemma_race_run(rows, next_id, id, messages, schedule);
    let end = race_run(race_start(rows, messages.len()), id, messages, schedule);
    let row = row_of(end.rows, id)->Some_0;
    lemma_race_end(end.progress, row.status, messages, lead);
}

proof fn lemma_race_end(
    progress: Seq<Progress>,
    status: RecruitmentStatus,
    messages: Seq<u64>,
    lead: int,
)
    requires
        progress_inv(progress, status, messages, lead),
    ensures
        progress.len() == messages.len(),
        forall|a: int, b: int|
            0 <= a < progress.len() && 0 <= b < progress.len() && (#[trigger] progress[a]).posts()
                && (#[trigger] progress[b]).posts() ==> a == b,
        messages.len() > 0 && (forall|h: int|
            0 <= h < progress.len() ==> (#[trigger] progress[h]).through()) ==> exists|
            winner: int,
        |
            {
                &&& 0 <= winner < progress.len()
                &&& (#[trigger] progress[winner]) is Recorded
                &&& status == RecruitmentStatus::Complete(messages[winner])
                &&& forall|h: int|
                    0 <= h < progress.len() && h != winner ==> (#[trigger] progress[h]) is Skipped
            },
{
    assert forall|a: int, b: int|
        0 <= a < progress.len() && 0 <= b < progress.len() && (#[trigger] progress[a]).posts() && (
        #[trigger] progress[b]).posts() implies a == b by {
        match status {
            RecruitmentStatus::Open => {
                assert(progress[a] is Waiting);
            },
            _ => {
                assert(a == lead);
                assert(b == lead);
            },
        }
    }
    if messages.len() > 0 && (forall|h: int|
        0 <= h < progress.len() ==> (#[trigger] progress[h]).through()) {
        assert(progress[0].through());
        match status {
            RecruitmentStatus::Open => {
                assert(progress[0] is Waiting);
            },
            RecruitmentStatus::Announcing => {
                assert(progress[lead].through());
            },
            RecruitmentStatus::Complete(message) => {
                assert forall|h: int| 0 <= h < progress.len() && h != lead implies (
                #[trigger] progress[h]) is Skipped by {
                    assert(progress[h].through());
                    assert(!progress[h].posts());
                }
                assert(progress[lead] is Recorded);
            },
            _ => {},
        }
    }
}

} // verus!
