//! Recruitments, the states they pass through, and a store that keeps them
//! in memory.

use vstd::prelude::*;
use crate::battle_type::BattleType;
use crate::event_date::EventDate;

verus! {

/// Where a recruitment stands.  Only an open recruitment can change state;
/// `Announcing` is an open recruitment whose completion announcement one
/// handler has taken on and not yet posted.
#[derive(Debug, Clone, Copy, PartialEq, Eq, Structural)]
pub enum RecruitmentStatus {
    Open,
    Announcing,
    Complete(u64),
    Cancelled,
    Started,
}

impl RecruitmentStatus {
    /// Whether no further change of state is possible.
    pub open spec fn spec_is_terminal(self) -> bool {
        self != RecruitmentStatus::Open && self != RecruitmentStatus::Announcing
    }

    /// The completion announcement that was recorded, if any.
    pub open spec fn spec_announcement(self) -> Option<u64> {
        match self {
            RecruitmentStatus::Complete(message_id) => Some(message_id),
            _ => None,
        }
    }

    /// The number a status is stored as.
    pub open spec fn spec_value(self) -> int {
        match self {
            RecruitmentStatus::Open => 0,
            RecruitmentStatus::Announcing => 1,
            RecruitmentStatus::Complete(_) => 2,
            RecruitmentStatus::Cancelled => 3,
            RecruitmentStatus::Started => 4,
        }
    }

    /// The status that a stored number and a stored announcement stand
    /// for.  A row that is stored as complete without an announcement, or
    /// under a number that stands for nothing, counts as open unless it
    /// holds an announcement, which makes it complete.
    pub open spec fn spec_from_stored(value: int, announcement: Option<u64>) -> RecruitmentStatus {
        if value == 1 {
            RecruitmentStatus::Announcing
        } else if value == 3 {
            RecruitmentStatus::Cancelled
        } else if value == 4 {
            RecruitmentStatus::Started
        } else {
            match announcement {
                Some(message_id) => RecruitmentStatus::Complete(message_id),
                None => RecruitmentStatus::Open,
            }
        }
    }

    /// The number the status is stored as.
    pub fn value(&self) -> (v: i32)
        ensures
            v == self.spec_value(),
    {
        match self {
            RecruitmentStatus::Open => 0,
            RecruitmentStatus::Announcing => 1,
            RecruitmentStatus::Complete(_) => 2,
            RecruitmentStatus::Cancelled => 3,
            RecruitmentStatus::Started => 4,
        }
    }

    /// The status that a stored number and a stored announcement stand for.
    pub fn from_stored(value: i32, announcement: Option<u64>) -> (status: RecruitmentStatus)
        ensures
            status == Self::spec_from_stored(value as int, announcement),
    {
        if value == 1 {
            RecruitmentStatus::Announcing
        } else if value == 3 {
            RecruitmentStatus::Cancelled
        } else if value == 4 {
            RecruitmentStatus::Started
        } else {
            match announcement {
                Some(message_id) => RecruitmentStatus::Complete(message_id),
                None => RecruitmentStatus::Open,
            }
        }
    }

    pub fn is_terminal(&self) -> (r: bool)
        ensures
            r == self.spec_is_terminal(),
    {
        match self {
            RecruitmentStatus::Open => false,
            RecruitmentStatus::Announcing => false,
            _ => true,
        }
    }

    pub fn announcement(&self) -> (r: Option<u64>)
        ensures
            r == self.spec_announcement(),
    {
        match self {
            RecruitmentStatus::Complete(message_id) => Some(*message_id),
            _ => None,
        }
    }
}

/// One open call for party members, tied to the message that announces it.
#[derive(Debug, Clone, Copy, PartialEq, Eq)]
pub struct Recruitment {
    pub id: i32,
    pub guild_id: u64,
    pub channel_id: u64,
    pub message_id: u64,
    /// The quest the call is for, unknown where the command named none.
    pub target_id: Option<i32>,
    pub battle_type: BattleType,
    pub expiry: EventDate,
    pub status: RecruitmentStatus,
}

impl Recruitment {
    /// Whether the recruitment belongs to the given message.
    pub open spec fn spec_has_key(self, guild_id: u64, channel_id: u64, message_id: u64) -> bool {
        self.guild_id == guild_id && self.channel_id == channel_id && self.message_id
            == message_id
    }

    pub fn has_key(&self, guild_id: u64, channel_id: u64, message_id: u64) -> (r: bool)
        ensures
            r == self.spec_has_key(guild_id, channel_id, message_id),
    {
        self.guild_id == guild_id && self.channel_id == channel_id && self.message_id
            == message_id
    }

    /// The completion announcement recorded for the recruitment, if any.
    pub fn completion_message_id(&self) -> (r: Option<u64>)
        ensures
            r == self.status.spec_announcement(),
    {
        self.status.announcement()
    }
}

/// Why a recruitment could not be stored.
#[derive(Debug, Clone, Copy, PartialEq, Eq, Structural)]
pub enum StoreError {
    /// The message already has a recruitment.
    DuplicateMessage,
    /// No id is left to give.
    Exhausted,
}

/// The place of the row with the id `id`, or the number of rows.
pub open spec fn index_of(rows: Seq<Recruitment>, id: i32) -> int
    decreases rows.len(),
{
    if rows.len() == 0 {
        0
    } else if rows[0].id == id {
        0
    } else {
        1 + index_of(rows.drop_first(), id)
    }
}

/// The row with the id `id`.
pub open spec fn row_of(rows: Seq<Recruitment>, id: i32) -> Option<Recruitment> {
    if index_of(rows, id) < rows.len() {
        Some(rows[index_of(rows, id)])
    } else {
        None
    }
}

/// The place of the row that belongs to the message, or the number of rows.
pub open spec fn index_of_message(
    rows: Seq<Recruitment>,
    guild_id: u64,
    channel_id: u64,
    message_id: u64,
) -> int
    decreases rows.len(),
{
    if rows.len() == 0 {
        0
    } else if rows[0].spec_has_key(guild_id, channel_id, message_id) {
        0
    } else {
        1 + index_of_message(rows.drop_first(), guild_id, channel_id, message_id)
    }
}

/// The row that belongs to the message.
pub open spec fn row_of_message(
    rows: Seq<Recruitment>,
    guild_id: u64,
    channel_id: u64,
    message_id: u64,
) -> Option<Recruitment> {
    let i = index_of_message(rows, guild_id, channel_id, message_id);
    if i < rows.len() {
        Some(rows[i])
    } else {
        None
    }
}

/// The rows with the status of row `id` replaced, if there is such a row.
pub open spec fn with_status(rows: Seq<Recruitment>, id: i32, status: RecruitmentStatus) -> Seq<
    Recruitment,
> {
    let i = index_of(rows, id);
    if i < rows.len() {
        rows.update(i, Recruitment { status, ..rows[i] })
    } else {
        rows
    }
}

/// Whether row `id` exists and has the status `status`.
pub open spec fn has_status(rows: Seq<Recruitment>, id: i32, status: RecruitmentStatus) -> bool {
    row_of(rows, id) matches Some(row) && row.status == status
}

/// A status is read back as it was stored.
pub proof fn lemma_status_read_back(status: RecruitmentStatus)
    ensures
        RecruitmentStatus::spec_from_stored(status.spec_value(), status.spec_announcement())
            == status,
{
}

/// A change of status that a store is asked for.
#[derive(Debug, Clone, Copy, PartialEq, Eq, Structural)]
pub enum StatusChange {
    /// Take on the completion announcement.
    Claim,
    /// Record the announcement that was posted under this id.
    Record(u64),
    /// Give up an announcement that was taken on and could not be posted.
    Release,
    /// Close the recruitment as cancelled.
    Cancel,
    /// Close the recruitment as started.
    Start,
}

impl StatusChange {
    /// Whether the change may be made to a recruitment that stands at
    /// `status`.  Only an open recruitment that nobody has taken on is
    /// claimed; only a claimed one is recorded or released; only one that
    /// has reached no terminal state is closed.
    pub open spec fn spec_allows(self, status: RecruitmentStatus) -> bool {
        match self {
            StatusChange::Claim => status == RecruitmentStatus::Open,
            StatusChange::Record(_) | StatusChange::Release => status
                == RecruitmentStatus::Announcing,
            StatusChange::Cancel | StatusChange::Start => !status.spec_is_terminal(),
        }
    }

    /// The status the change leads to.
    pub open spec fn spec_result(self) -> RecruitmentStatus {
        match self {
            StatusChange::Claim => RecruitmentStatus::Announcing,
            StatusChange::Record(message_id) => RecruitmentStatus::Complete(message_id),
            StatusChange::Release => RecruitmentStatus::Open,
            StatusChange::Cancel => RecruitmentStatus::Cancelled,
            StatusChange::Start => RecruitmentStatus::Started,
        }
    }

    /// Whether the change may be made to a recruitment that stands at
    /// `status`.
    pub fn allows(&self, status: RecruitmentStatus) -> (r: bool)
        ensures
            r == self.spec_allows(status),
    {
        match self {
            StatusChange::Claim => status == RecruitmentStatus::Open,
            StatusChange::Record(_) | StatusChange::Release => status
                == RecruitmentStatus::Announcing,
            StatusChange::Cancel | StatusChange::Start => !status.is_terminal(),
        }
    }

    /// The statuses at which the change may be made, each once.
    pub fn allowed_from(&self) -> (from: Vec<RecruitmentStatus>)
        ensures
            forall|status: RecruitmentStatus|
                from@.contains(status) <==> self.spec_allows(status),
            from@.no_duplicates(),
    {
        let mut from: Vec<RecruitmentStatus> = Vec::new();
        match self {
            StatusChange::Claim => {
                from.push(RecruitmentStatus::Open);
            },
            StatusChange::Record(_) | StatusChange::Release => {
                from.push(RecruitmentStatus::Announcing);
            },
            StatusChange::Cancel | StatusChange::Start => {
                from.push(RecruitmentStatus::Open);
                from.push(RecruitmentStatus::Announcing);
            },
        }
        proof {
            assert forall|status: RecruitmentStatus|
                from@.contains(status) <==> self.spec_allows(status) by {
                if self.spec_allows(status) {
                    if status == RecruitmentStatus::Open {
                        assert(from@[0] == status);
                    } else {
                        assert(from@[from@.len() - 1] == status);
                    }
                }
            }
        }
        from
    }

    /// The status the change leads to.
    pub fn result(&self) -> (status: RecruitmentStatus)
        ensures
            status == self.spec_result(),
    {
        match self {
            StatusChange::Claim => RecruitmentStatus::Announcing,
            StatusChange::Record(message_id) => RecruitmentStatus::Complete(*message_id),
            StatusChange::Release => RecruitmentStatus::Open,
            StatusChange::Cancel => RecruitmentStatus::Cancelled,
            StatusChange::Start => RecruitmentStatus::Started,
        }
    }
}

/// Makes a change of status to row `id`: where the row exists and stands at
/// a status that allows the change, it gets the new status; where not,
/// nothing changes.  The answer says which.
pub open spec fn apply(rows: Seq<Recruitment>, id: i32, change: StatusChange) -> (
    Seq<Recruitment>,
    bool,
) {
    if row_of(rows, id) matches Some(row) && change.spec_allows(row.status) {
        (with_status(rows, id, change.spec_result()), true)
    } else {
        (rows, false)
    }
}

/// Takes on the completion announcement of row `id`: succeeds on an open
/// recruitment that nobody has taken on yet, and only there.
pub open spec fn claim(rows: Seq<Recruitment>, id: i32) -> (Seq<Recruitment>, bool) {
    apply(rows, id, StatusChange::Claim)
}

/// Records the announcement that was posted for row `id`, which must have
/// been taken on before.
pub open spec fn record(rows: Seq<Recruitment>, id: i32, message_id: u64) -> (
    Seq<Recruitment>,
    bool,
) {
    apply(rows, id, StatusChange::Record(message_id))
}

/// Gives up an announcement that was taken on and could not be posted.
pub open spec fn release(rows: Seq<Recruitment>, id: i32) -> (Seq<Recruitment>, bool) {
    apply(rows, id, StatusChange::Release)
}

/// Whether no two rows share an id or a message, and every id is below
/// `next_id`.
pub open spec fn rows_wf(rows: Seq<Recruitment>, next_id: int) -> bool {
    &&& forall|i: int| 0 <= i < rows.len() ==> 0 < (#[trigger] rows[i]).id < next_id
    &&& forall|i: int, j: int|
        0 <= i < j < rows.len() ==> (#[trigger] rows[i]).id != (#[trigger] rows[j]).id
    &&& forall|i: int, j: int|
        0 <= i < j < rows.len() ==> !(#[trigger] rows[i]).spec_has_key(
            (#[trigger] rows[j]).guild_id,
            rows[j].channel_id,
            rows[j].message_id,
        )
}

/// `index_of` finds the first row with the id, and nothing before it has it.
pub proof fn lemma_index_of(rows: Seq<Recruitment>, id: i32)
    ensures
        0 <= index_of(rows, id) <= rows.len(),
        index_of(rows, id) < rows.len() ==> rows[index_of(rows, id)].id == id,
        forall|k: int| 0 <= k < index_of(rows, id) ==> (#[trigger] rows[k]).id != id,
    decreases rows.len(),
{
    if rows.len() > 0 && rows[0].id != id {
        let rest = rows.drop_first();
        lemma_index_of(rest, id);
        assert forall|k: int| 0 <= k < index_of(rows, id) implies (#[trigger] rows[k]).id
            != id by {
            if k > 0 {
                assert(rows[k] == rest[k - 1]);
            }
        }
    }
}

/// `index_of_message` finds the first row of the message, and nothing
/// before it belongs to the message.
pub proof fn lemma_index_of_message(
    rows: Seq<Recruitment>,
    guild_id: u64,
    channel_id: u64,
    message_id: u64,
)
    ensures
        0 <= index_of_message(rows, guild_id, channel_id, message_id) <= rows.len(),
        index_of_message(rows, guild_id, channel_id, message_id) < rows.len()
            ==> rows[index_of_message(rows, guild_id, channel_id, message_id)].spec_has_key(
            guild_id,
            channel_id,
            message_id,
        ),
        forall|k: int|
            0 <= k < index_of_message(rows, guild_id, channel_id, message_id) ==> !(
            #[trigger] rows[k]).spec_has_key(guild_id, channel_id, message_id),
    decreases rows.len(),
{
    if rows.len() > 0 && !rows[0].spec_has_key(guild_id, channel_id, message_id) {
        let rest = rows.drop_first();
        lemma_index_of_message(rest, guild_id, channel_id, message_id);
        assert forall|k: int|
            0 <= k < index_of_message(rows, guild_id, channel_id, message_id) implies !(
        #[trigger] rows[k]).spec_has_key(guild_id, channel_id, message_id) by {
            if k > 0 {
                assert(rows[k] == rest[k - 1]);
            }
        }
    }
}

/// Replacing a status keeps ids and messages, so the rows stay well formed
/// and every other row is found as before.
pub proof fn lemma_with_status(
    rows: Seq<Recruitment>,
    next_id: int,
    id: i32,
    status: RecruitmentStatus,
    other: i32,
)
    requires
        rows_wf(rows, next_id),
    ensures
        rows_wf(with_status(rows, id, status), next_id),
        with_status(rows, id, status).len() == rows.len(),
        index_of(with_status(rows, id, status), other) == index_of(rows, other),
        other != id ==> row_of(with_status(rows, id, status), other) == row_of(rows, other),
        row_of(rows, id) matches Some(row) ==> row_of(with_status(rows, id, status), id) == Some(
            Recruitment { status, ..row },
        ),
        row_of(rows, id) is None ==> with_status(rows, id, status) == rows,
{
    lemma_index_of(rows, id);
    lemma_index_of(rows, other);
    let after = with_status(rows, id, status);
    lemma_same_ids(rows, after, other);
    lemma_same_ids(rows, after, id);
}

/// A recruitment that has reached a terminal state keeps it, and with it
/// the announcement that was recorded, whatever change is asked of the
/// store for this or any other recruitment.
pub proof fn lemma_terminal_is_final(
    rows: Seq<Recruitment>,
    next_id: int,
    id: i32,
    asked: i32,
    change: StatusChange,
)
    requires
        rows_wf(rows, next_id),
        row_of(rows, id) matches Some(row) && row.status.spec_is_terminal(),
    ensures
        row_of(apply(rows, asked, change).0, id) == row_of(rows, id),
        rows_wf(apply(rows, asked, change).0, next_id),
{
    lemma_with_status(rows, next_id, asked, change.spec_result(), id);
}

/// Rows that agree on their ids are searched alike.
pub proof fn lemma_same_ids(a: Seq<Recruitment>, b: Seq<Recruitment>, id: i32)
    requires
        a.len() == b.len(),
        forall|k: int| 0 <= k < a.len() ==> (#[trigger] a[k]).id == (#[trigger] b[k]).id,
    ensures
        index_of(a, id) == index_of(b, id),
    decreases a.len(),
{
    if a.len() > 0 && a[0].id != id {
        let ra = a.drop_first();
        let rb = b.drop_first();
        assert forall|k: int| 0 <= k < ra.len() implies (#[trigger] ra[k]).id == (
        #[trigger] rb[k]).id by {
            assert(ra[k] == a[k + 1]);
            assert(rb[k] == b[k + 1]);
        }
        lemma_same_ids(ra, rb, id);
    }
}

} // verus!
