//! Who signed up: reacting users grouped by element, without the bot's own
//! reactions, and the distinct users among them.

use vstd::prelude::*;
use crate::battle_type::Element;

verus! {

/// The most users one page of reacting users can hold.
pub const PAGE_LIMIT: usize = 100;

/// The users who reacted with one element's emoji, in order of arrival.
#[derive(Debug, Clone, PartialEq, Eq)]
pub struct ReactionGroup {
    pub element: Element,
    pub users: Vec<u64>,
}

/// What a group holds, as plain values.
pub struct GroupView {
    pub element: Element,
    pub users: Seq<u64>,
}

impl View for ReactionGroup {
    type V = GroupView;

    open spec fn view(&self) -> GroupView {
        GroupView { element: self.element, users: self.users@ }
    }
}

/// The views of a sequence of groups.
pub open spec fn group_views(groups: Seq<ReactionGroup>) -> Seq<GroupView> {
    groups.map_values(|g: ReactionGroup| g@)
}

/// `users` in their order, without `bot`.
pub open spec fn without_bot(users: Seq<u64>, bot: u64) -> Seq<u64> {
    users.filter(|u: u64| u != bot)
}

/// The users of all groups, group after group.
pub open spec fn all_users(groups: Seq<GroupView>) -> Seq<u64>
    decreases groups.len(),
{
    if groups.len() == 0 {
        Seq::empty()
    } else {
        all_users(groups.drop_last()) + groups.last().users
    }
}

/// `users` with every user kept at the first place they occur.
pub open spec fn distinct(users: Seq<u64>) -> Seq<u64>
    decreases users.len(),
{
    if users.len() == 0 {
        Seq::empty()
    } else {
        let head = distinct(users.drop_last());
        if head.contains(users.last()) {
            head
        } else {
            head.push(users.last())
        }
    }
}

/// The participants of a recruitment: each reacting user once, in order of
/// first appearance.
pub open spec fn participants(groups: Seq<GroupView>) -> Seq<u64> {
    distinct(all_users(groups))
}

/// `distinct` lists exactly the users of its argument, none of them twice.
pub proof fn lemma_distinct(users: Seq<u64>)
    ensures
        distinct(users).no_duplicates(),
        distinct(users).to_set() == users.to_set(),
        distinct(users).len() <= users.len(),
        forall|u: u64|
            #![trigger distinct(users).contains(u)]
            #![trigger users.contains(u)]
            distinct(users).contains(u) <==> users.contains(u),
    decreases users.len(),
{
    if users.len() > 0 {
        let front = users.drop_last();
        let last = users.last();
        lemma_distinct(front);
        let head = distinct(front);
        assert forall|u: u64|
            #![trigger distinct(users).contains(u)]
            #![trigger users.contains(u)]
            distinct(users).contains(u) <==> users.contains(u) by {
            if users.contains(u) {
                let i = choose|i: int| 0 <= i < users.len() && users[i] == u;
                if i < users.len() - 1 {
                    assert(front[i] == u);
                    assert(front.contains(u));
                    assert(head.contains(u));
                    let j = choose|j: int| 0 <= j < head.len() && head[j] == u;
                    assert(distinct(users)[j] == u);
                } else {
                    if !head.contains(last) {
                        assert(distinct(users)[head.len() as int] == u);
                    }
                }
            }
            if distinct(users).contains(u) {
                let j = choose|j: int| 0 <= j < distinct(users).len() && distinct(users)[j] == u;
                if j < head.len() {
                    assert(head[j] == u);
                    assert(head.contains(u));
                    assert(front.contains(u));
                    let i = choose|i: int| 0 <= i < front.len() && front[i] == u;
                    assert(users[i] == u);
                } else {
                    assert(users[users.len() - 1] == u);
                }
            }
        }
        assert(distinct(users).to_set() =~= users.to_set());
    } else {
        assert(distinct(users).to_set() =~= users.to_set());
    }
}

/// A user is among all users exactly when some group lists them.
pub proof fn lemma_all_users(groups: Seq<GroupView>)
    ensures
        forall|u: u64|
            all_users(groups).contains(u) <==> exists|g: int|
                0 <= g < groups.len() && (#[trigger] groups[g]).users.contains(u),
    decreases groups.len(),
{
    if groups.len() > 0 {
        let front = groups.drop_last();
        lemma_all_users(front);
        let tail = groups.last().users;
        assert forall|u: u64|
            all_users(groups).contains(u) <==> exists|g: int|
                0 <= g < groups.len() && (#[trigger] groups[g]).users.contains(u) by {
            let whole = all_users(groups);
            let head = all_users(front);
            if whole.contains(u) {
                let i = choose|i: int| 0 <= i < whole.len() && whole[i] == u;
                if i < head.len() {
                    assert(head[i] == u);
                    assert(head.contains(u));
                    let g = choose|g: int|
                        0 <= g < front.len() && (#[trigger] front[g]).users.contains(u);
                    assert(groups[g] == front[g]);
                } else {
                    assert(tail[i - head.len()] == u);
                    assert(groups[groups.len() - 1].users.contains(u));
                }
            }
            if exists|g: int| 0 <= g < groups.len() && (#[trigger] groups[g]).users.contains(u) {
                let g = choose|g: int|
                    0 <= g < groups.len() && (#[trigger] groups[g]).users.contains(u);
                if g < groups.len() - 1 {
                    assert(front[g] == groups[g]);
                    assert(head.contains(u));
                    let i = choose|i: int| 0 <= i < head.len() && head[i] == u;
                    assert(whole[i] == u);
                } else {
                    let k = choose|k: int| 0 <= k < tail.len() && tail[k] == u;
                    assert(whole[head.len() + k] == u);
                }
            }
        }
    }
}

/// Whoever reacted is a participant exactly once, however many groups list
/// them; nobody else is a participant.
pub proof fn lemma_participants_counted_once(groups: Seq<GroupView>, user: u64)
    ensures
        participants(groups).no_duplicates(),
        participants(groups).contains(user) <==> exists|g: int|
            0 <= g < groups.len() && (#[trigger] groups[g]).users.contains(user),
        participants(groups).contains(user) ==> participants(groups).to_multiset().count(user)
            == 1,
        !participants(groups).contains(user) ==> participants(groups).to_multiset().count(user)
            == 0,
{
    let all = all_users(groups);
    lemma_distinct(all);
    lemma_all_users(groups);
    let p = participants(groups);
    assert(p.contains(user) <==> all.contains(user));
    assert(all.contains(user) <==> exists|g: int|
        0 <= g < groups.len() && (#[trigger] groups[g]).users.contains(user));
    p.lemma_multiset_has_no_duplicates();
    p.to_multiset_ensures();
}

/// Whether `users` lists `user`.
pub fn contains_user(users: &Vec<u64>, user: u64) -> (r: bool)
    ensures
        r == users@.contains(user),
{
    let mut i: usize = 0;
    while i < users.len()
        invariant
            i <= users.len(),
            forall|k: int| 0 <= k < i ==> users@[k] != user,
        decreases users.len() - i,
    {
        if users[i] == user {
            return true;
        }
        i = i + 1;
    }
    false
}

/// Appends to `out` the users of `page` other than the bot.
pub fn push_without_bot(out: &mut Vec<u64>, page: &Vec<u64>, bot_id: u64)
    ensures
        final(out)@ == old(out)@ + without_bot(page@, bot_id),
{
    let mut i: usize = 0;
    assert(page@.take(0) =~= Seq::<u64>::empty());
    assert(out@ =~= old(out)@ + without_bot(page@.take(0), bot_id));
    while i < page.len()
        invariant
            i <= page.len(),
            out@ == old(out)@ + without_bot(page@.take(i as int), bot_id),
        decreases page.len() - i,
    {
        let ghost before = page@.take(i as int);
        let ghost next = page@.take(i + 1);
        proof {
            assert(next.drop_last() =~= before);
            reveal(Seq::filter);
        }
        if page[i] != bot_id {
            out.push(page[i]);
        }
        assert(out@ =~= old(out)@ + without_bot(next, bot_id));
        i = i + 1;
    }
    assert(page@.take(page.len() as int) =~= page@);
}

/// The users of `users` other than the bot, in their order.
pub fn exclude_bot(users: &Vec<u64>, bot_id: u64) -> (r: Vec<u64>)
    ensures
        r@ == without_bot(users@, bot_id),
        !r@.contains(bot_id),
{
    let mut r: Vec<u64> = Vec::new();
    push_without_bot(&mut r, users, bot_id);
    assert(r@ =~= without_bot(users@, bot_id));
    proof {
        lemma_without_bot(users@, bot_id);
    }
    r
}

/// Filtering leaves the bot out and everyone else in.
pub proof fn lemma_without_bot(users: Seq<u64>, bot: u64)
    ensures
        !without_bot(users, bot).contains(bot),
        forall|u: u64|
            #![trigger without_bot(users, bot).contains(u)]
            #![trigger users.contains(u)]
            without_bot(users, bot).contains(u) <==> users.contains(u) && u != bot,
        without_bot(users, bot).len() <= users.len(),
    decreases users.len(),
{
    reveal(Seq::filter);
    if users.len() > 0 {
        let front = users.drop_last();
        let last = users.last();
        lemma_without_bot(front, bot);
        let kept = without_bot(users, bot);
        let head = without_bot(front, bot);
        assert(kept == if last != bot {
            head.push(last)
        } else {
            head
        });
        assert forall|u: u64|
            #![trigger kept.contains(u)]
            #![trigger users.contains(u)]
            kept.contains(u) <==> users.contains(u) && u != bot by {
            if kept.contains(u) {
                let j = choose|j: int| 0 <= j < kept.len() && kept[j] == u;
                if j < head.len() {
                    assert(head[j] == u);
                    assert(head.contains(u));
                    let i = choose|i: int| 0 <= i < front.len() && front[i] == u;
                    assert(users[i] == u);
                } else {
                    assert(users[users.len() - 1] == u);
                }
            }
            if users.contains(u) && u != bot {
                let i = choose|i: int| 0 <= i < users.len() && users[i] == u;
                if i < users.len() - 1 {
                    assert(front[i] == u);
                    assert(front.contains(u));
                    assert(head.contains(u));
                    let j = choose|j: int| 0 <= j < head.len() && head[j] == u;
                    assert(kept[j] == u);
                } else {
                    assert(kept[head.len() as int] == u);
                }
            }
        }
    }
}

/// Each user of any group once, in order of first appearance.
pub fn unique_users(groups: &Vec<ReactionGroup>) -> (r: Vec<u64>)
    ensures
        r@ == participants(group_views(groups@)),
        r@.no_duplicates(),
        forall|u: u64|
            r@.contains(u) <==> exists|g: int|
                0 <= g < groups@.len() && (#[trigger] groups@[g]).users@.contains(u),
{
    let ghost model = group_views(groups@);
    let mut r: Vec<u64> = Vec::new();
    let mut g: usize = 0;
    assert(model.take(0) =~= Seq::<GroupView>::empty());
    while g < groups.len()
        invariant
            g <= groups.len(),
            model == group_views(groups@),
            r@ == participants(model.take(g as int)),
        decreases groups.len() - g,
    {
        let users = &groups[g].users;
        let ghost base = all_users(model.take(g as int));
        let mut i: usize = 0;
        assert(users@.take(0) =~= Seq::<u64>::empty());
        assert(base + users@.take(0) =~= base);
        while i < users.len()
            invariant
                i <= users.len(),
                r@ == distinct(base + users@.take(i as int)),
            decreases users.len() - i,
        {
            let ghost next = base + users@.take(i + 1);
            proof {
                assert(next.drop_last() =~= base + users@.take(i as int));
                assert(next.last() == users@[i as int]);
            }
            if !contains_user(&r, users[i]) {
                r.push(users[i]);
            }
            i = i + 1;
        }
        proof {
            assert(users@.take(users.len() as int) =~= users@);
            let upto = model.take(g + 1);
            assert(upto.drop_last() =~= model.take(g as int));
            assert(upto.last() == groups@[g as int]@);
        }
        g = g + 1;
    }
    proof {
        assert(model.take(groups.len() as int) =~= model);
        lemma_participants_counted_once(model, 0);
        assert forall|u: u64|
            r@.contains(u) <==> exists|g: int|
                0 <= g < groups@.len() && (#[trigger] groups@[g]).users@.contains(u) by {
            lemma_participants_counted_once(model, u);
            if exists|g: int| 0 <= g < model.len() && (#[trigger] model[g]).users.contains(u) {
                let g = choose|g: int| 0 <= g < model.len() && (#[trigger] model[g]).users.contains(u);
                assert(groups@[g].users@.contains(u));
            }
            if exists|g: int| 0 <= g < groups@.len() && (#[trigger] groups@[g]).users@.contains(u) {
                let g = choose|g: int|
                    0 <= g < groups@.len() && (#[trigger] groups@[g]).users@.contains(u);
                assert(model[g].users.contains(u));
            }
        }
    }
    r
}

} // verus!
