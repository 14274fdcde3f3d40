//! A store of recruitments held in memory.  Each operation is one step:
//! whoever takes on a completion announcement learns in the same step
//! whether somebody else had taken it on before.

use vstd::prelude::*;
use crate::battle_type::BattleType;
use crate::event_date::EventDate;
use crate::recruitment::{
    apply, claim, index_of, index_of_message, lemma_index_of_message, lemma_with_status,
    record, release, row_of, row_of_message, rows_wf, with_status, Recruitment,
    RecruitmentStatus, StatusChange, StoreError,
};

verus! {

/// The recruitments of a bot, each with an id of its own.
#[derive(Debug)]
pub struct RecruitmentStore {
    rows: Vec<Recruitment>,
    next_id: i32,
}

impl View for RecruitmentStore {
    type V = Seq<Recruitment>;

    closed spec fn view(&self) -> Seq<Recruitment> {
        self.rows@
    }
}

impl RecruitmentStore {
    #[verifier::type_invariant]
    closed spec fn inv(self) -> bool {
        self.next_id >= 1 && rows_wf(self.rows@, self.next_id as int)
    }

    /// The id the next recruitment gets.
    pub closed spec fn spec_next_id(self) -> int {
        self.next_id as int
    }

    /// An empty store.
    pub fn new() -> (store: RecruitmentStore)
        ensures
            store@ == Seq::<Recruitment>::empty(),
            store.spec_next_id() == 1,
    {
        RecruitmentStore { rows: Vec::new(), next_id: 1 }
    }

    /// An empty store whose first recruitment gets the id `first_id`, or the
    /// id 1 where `first_id` is below it.
    pub fn starting_at(first_id: i32) -> (store: RecruitmentStore)
        ensures
            store@ == Seq::<Recruitment>::empty(),
            store.spec_next_id() == if first_id < 1 {
                1
            } else {
                first_id as int
            },
    {
        let next_id = if first_id < 1 {
            1
        } else {
            first_id
        };
        RecruitmentStore { rows: Vec::new(), next_id }
    }

    /// How many recruitments the store holds.
    pub fn len(&self) -> (n: usize)
        ensures
            n == self@.len(),
    {
        self.rows.len()
    }

    fn position(&self, id: i32) -> (i: usize)
        ensures
            i == index_of(self@, id),
            i <= self@.len(),
    {
        let mut i: usize = 0;
        assert(self.rows@.skip(0) =~= self.rows@);
        while i < self.rows.len()
            invariant
                i <= self.rows.len(),
                index_of(self.rows@, id) == i + index_of(self.rows@.skip(i as int), id),
            decreases self.rows.len() - i,
        {
            proof {
                let rest = self.rows@.skip(i as int);
                assert(rest[0] == self.rows@[i as int]);
                assert(rest.drop_first() =~= self.rows@.skip(i + 1));
            }
            if self.rows[i].id == id {
                return i;
            }
            i = i + 1;
        }
        i
    }

    fn position_of_message(&self, guild_id: u64, channel_id: u64, message_id: u64) -> (i: usize)
        ensures
            i == index_of_message(self@, guild_id, channel_id, message_id),
            i <= self@.len(),
    {
        let mut i: usize = 0;
        assert(self.rows@.skip(0) =~= self.rows@);
        while i < self.rows.len()
            invariant
                i <= self.rows.len(),
                index_of_message(self.rows@, guild_id, channel_id, message_id) == i
                    + index_of_message(
                    self.rows@.skip(i as int),
                    guild_id,
                    channel_id,
                    message_id,
                ),
            decreases self.rows.len() - i,
        {
            proof {
                let rest = self.rows@.skip(i as int);
                assert(rest[0] == self.rows@[i as int]);
                assert(rest.drop_first() =~= self.rows@.skip(i + 1));
            }
            if self.rows[i].has_key(guild_id, channel_id, message_id) {
                return i;
            }
            i = i + 1;
        }
        i
    }

    /// The recruitment with the id `id`.
    pub fn get(&self, id: i32) -> (r: Option<Recruitment>)
        ensures
            r == row_of(self@, id),
    {
        let i = self.position(id);
        if i < self.rows.len() {
            Some(self.rows[i])
        } else {
            None
        }
    }

    /// The recruitment that belongs to the message.
    pub fn get_by_message(&self, guild_id: u64, channel_id: u64, message_id: u64) -> (r: Option<
        Recruitment,
    >)
        ensures
            r == row_of_message(self@, guild_id, channel_id, message_id),
    {
        let i = self.position_of_message(guild_id, channel_id, message_id);
        if i < self.rows.len() {
            Some(self.rows[i])
        } else {
            None
        }
    }

    /// Whether a completion announcement is recorded for the recruitment;
    /// none if there is no such recruitment.
    pub fn has_completion_announcement(&self, id: i32) -> (r: Option<bool>)
        ensures
            r == match row_of(self@, id) {
                Some(row) => Some(row.status.spec_announcement() is Some),
                None => None,
            },
    {
        match self.get(id) {
            Some(row) => Some(row.completion_message_id().is_some()),
            None => None,
        }
    }

    /// Stores a new, open recruitment for the message unless it has one.
    pub fn create(
        &mut self,
        guild_id: u64,
        channel_id: u64,
        message_id: u64,
        target_id: Option<i32>,
        battle_type: BattleType,
        expiry: EventDate,
    ) -> (r: Result<Recruitment, StoreError>)
        ensures
            match r {
                Ok(row) => {
                    &&& row_of_message(old(self)@, guild_id, channel_id, message_id) is None
                    &&& row == (Recruitment {
                        id: old(self).spec_next_id() as i32,
                        guild_id,
                        channel_id,
                        message_id,
                        target_id,
                        battle_type,
                        expiry,
                        status: RecruitmentStatus::Open,
                    })
                    &&& final(self)@ == old(self)@.push(row)
                    &&& final(self).spec_next_id() == old(self).spec_next_id() + 1
                    &&& row_of_message(final(self)@, guild_id, channel_id, message_id) == Some(
                        row,
                    )
                    &&& row_of(final(self)@, row.id) == Some(row)
                },
                Err(StoreError::DuplicateMessage) => {
                    &&& row_of_message(old(self)@, guild_id, channel_id, message_id) is Some
                    &&& final(self)@ == old(self)@
                    &&& final(self).spec_next_id() == old(self).spec_next_id()
                },
                Err(StoreError::Exhausted) => {
                    &&& row_of_message(old(self)@, guild_id, channel_id, message_id) is None
                    &&& old(self).spec_next_id() == i32::MAX
                    &&& final(self)@ == old(self)@
                    &&& final(self).spec_next_id() == old(self).spec_next_id()
                },
            },
    {
        proof {
            use_type_invariant(&*self);
            lemma_index_of_message(self.rows@, guild_id, channel_id, message_id);
        }
        if self.position_of_message(guild_id, channel_id, message_id) < self.rows.len() {
            return Err(StoreError::DuplicateMessage);
        }
        if self.next_id == i32::MAX {
            return Err(StoreError::Exhausted);
        }
        let row = Recruitment {
            id: self.next_id,
            guild_id,
            channel_id,
            message_id,
            target_id,
            battle_type,
            expiry,
            status: RecruitmentStatus::Open,
        };
        let ghost before = self.rows@;
        let ghost after = before.push(row);
        proof {
            assert(rows_wf(after, self.next_id + 1)) by {
                assert forall|i: int, j: int| 0 <= i < j < after.len() implies !(
                #[trigger] after[i]).spec_has_key(
                    (#[trigger] after[j]).guild_id,
                    after[j].channel_id,
                    after[j].message_id,
                ) by {
                    if j == before.len() {
                        assert(after[i] == before[i]);
                    }
                }
            }
            assert forall|i: int| 0 <= i < before.len() implies (#[trigger] before[i]).id
                != row.id by {}
            lemma_push_found(before, row);
        }
        let next = self.next_id + 1;
        *self = RecruitmentStore { rows: push_row(&self.rows, row), next_id: next };
        Ok(row)
    }

    fn set_status(&mut self, id: i32, status: RecruitmentStatus)
        requires
            row_of(old(self)@, id) is Some,
        ensures
            final(self)@ == with_status(old(self)@, id, status),
            final(self).spec_next_id() == old(self).spec_next_id(),
    {
        proof {
            use_type_invariant(&*self);
            lemma_with_status(self.rows@, self.next_id as int, id, status, id);
        }
        let i = self.position(id);
        let row = self.rows[i];
        let next = self.next_id;
        let rows = replace_row(&self.rows, i, Recruitment { status, ..row });
        *self = RecruitmentStore { rows, next_id: next };
    }

    /// Makes a change of status to the recruitment where its status allows
    /// the change.  False, and nothing changes, where it does not or where
    /// there is no such recruitment.
    pub fn apply(&mut self, id: i32, change: StatusChange) -> (done: bool)
        ensures
            (final(self)@, done) == apply(old(self)@, id, change),
            final(self).spec_next_id() == old(self).spec_next_id(),
    {
        match self.get(id) {
            Some(row) => {
                if change.allows(row.status) {
                    self.set_status(id, change.result());
                    true
                } else {
                    false
                }
            },
            None => false,
        }
    }

    /// Takes on the completion announcement of the recruitment.  True for
    /// the one caller that finds it open and untaken; false for everybody
    /// after, and the store is then left as it was.
    pub fn claim_completion(&mut self, id: i32) -> (won: bool)
        ensures
            (final(self)@, won) == claim(old(self)@, id),
            final(self).spec_next_id() == old(self).spec_next_id(),
    {
        self.apply(id, StatusChange::Claim)
    }

    /// Records the announcement that was posted for a recruitment taken on
    /// before.  False, and nothing changes, where it was not taken on.
    pub fn record_completion(&mut self, id: i32, message_id: u64) -> (done: bool)
        ensures
            (final(self)@, done) == record(old(self)@, id, message_id),
            final(self).spec_next_id() == old(self).spec_next_id(),
    {
        self.apply(id, StatusChange::Record(message_id))
    }

    /// Gives up an announcement that was taken on and could not be posted.
    pub fn release_completion(&mut self, id: i32) -> (done: bool)
        ensures
            (final(self)@, done) == release(old(self)@, id),
            final(self).spec_next_id() == old(self).spec_next_id(),
    {
        self.apply(id, StatusChange::Release)
    }

    /// Marks the recruitment cancelled unless it has reached a terminal
    /// state.
    pub fn mark_cancelled(&mut self, id: i32) -> (done: bool)
        ensures
            (final(self)@, done) == apply(old(self)@, id, StatusChange::Cancel),
            final(self).spec_next_id() == old(self).spec_next_id(),
    {
        self.apply(id, StatusChange::Cancel)
    }

    /// Marks the recruitment started unless it has reached a terminal state.
    pub fn mark_started(&mut self, id: i32) -> (done: bool)
        ensures
            (final(self)@, done) == apply(old(self)@, id, StatusChange::Start),
            final(self).spec_next_id() == old(self).spec_next_id(),
    {
        self.apply(id, StatusChange::Start)
    }
}

/// A pushed row is found by its message and by its id where it is new.
proof fn lemma_push_found(rows: Seq<Recruitment>, row: Recruitment)
    requires
        forall|i: int|
            0 <= i < rows.len() ==> !(#[trigger] rows[i]).spec_has_key(
                row.guild_id,
                row.channel_id,
                row.message_id,
            ),
        forall|i: int| 0 <= i < rows.len() ==> (#[trigger] rows[i]).id != row.id,
    ensures
        index_of_message(rows.push(row), row.guild_id, row.channel_id, row.message_id)
            == rows.len(),
        index_of(rows.push(row), row.id) == rows.len(),
        row_of_message(rows.push(row), row.guild_id, row.channel_id, row.message_id) == Some(row),
        row_of(rows.push(row), row.id) == Some(row),
    decreases rows.len(),
{
    let after = rows.push(row);
    if rows.len() > 0 {
        let rest = rows.drop_first();
        assert(after.drop_first() =~= rest.push(row));
        assert(after[0] == rows[0]);
        assert forall|i: int| 0 <= i < rest.len() implies (#[trigger] rest[i]).id != row.id by {
            assert(rest[i] == rows[i + 1]);
        }
        assert forall|i: int| 0 <= i < rest.len() implies !(#[trigger] rest[i]).spec_has_key(
            row.guild_id,
            row.channel_id,
            row.message_id,
        ) by {
            assert(rest[i] == rows[i + 1]);
        }
        lemma_push_found(rest, row);
    } else {
        assert(after.drop_first() =~= Seq::<Recruitment>::empty());
        assert(after[0] == row);
    }
}

fn push_row(rows: &Vec<Recruitment>, row: Recruitment) -> (r: Vec<Recruitment>)
    ensures
        r@ == rows@.push(row),
{
    let mut r: Vec<Recruitment> = Vec::new();
    let mut i: usize = 0;
    while i < rows.len()
        invariant
            i <= rows.len(),
            r@ == rows@.take(i as int),
        decreases rows.len() - i,
    {
        r.push(rows[i]);
        i = i + 1;
    }
    r.push(row);
    r
}

fn replace_row(rows: &Vec<Recruitment>, at: usize, row: Recruitment) -> (r: Vec<Recruitment>)
    requires
        at < rows@.len(),
    ensures
        r@ == rows@.update(at as int, row),
{
    let mut r: Vec<Recruitment> = Vec::new();
    let mut i: usize = 0;
    while i < rows.len()
        invariant
            i <= rows.len(),
            at < rows@.len(),
            r@ == rows@.update(at as int, row).take(i as int),
        decreases rows.len() - i,
    {
        if i == at {
            r.push(row);
        } else {
            r.push(rows[i]);
        }
        i = i + 1;
    }
    r
}

} // verus!
