//! Walks the reacting users of a recruitment message page by page, one
//! element after the other, and collects them into groups.

use vstd::prelude::*;
use crate::battle_type::{BattleType, Element};
use crate::participants::{
    group_views, lemma_without_bot, push_without_bot, without_bot, GroupView, ReactionGroup,
    PAGE_LIMIT,
};
use crate::text::{same_text, views};

verus! {

/// One page of reacting users to ask the platform for.
#[derive(Debug, Clone, Copy, PartialEq, Eq)]
pub struct PageRequest {
    pub element: Element,
    /// The last user of the page before, if there was one.
    pub after: Option<u64>,
    pub limit: usize,
}

/// The state of a scan, as plain values.
pub struct ScanModel {
    /// The elements to fetch, in order.
    pub targets: Seq<Element>,
    /// How many of them are finished.
    pub position: int,
    /// The last user of the page before, within the current element.
    pub after: Option<u64>,
    /// The users seen so far for the current element.
    pub current: Seq<u64>,
    /// The groups of the elements that were fetched to the end.
    pub groups: Seq<GroupView>,
    pub bot_id: u64,
}

impl ScanModel {
    pub open spec fn start(targets: Seq<Element>, bot_id: u64) -> ScanModel {
        ScanModel {
            targets,
            position: 0,
            after: None,
            current: Seq::empty(),
            groups: Seq::empty(),
            bot_id,
        }
    }

    pub open spec fn done(self) -> bool {
        self.position < 0 || self.position >= self.targets.len()
    }

    /// The page to fetch next, none once every element is finished.
    pub open spec fn request(self) -> Option<PageRequest> {
        if self.done() {
            None
        } else {
            Some(
                PageRequest {
                    element: self.targets[self.position],
                    after: self.after,
                    limit: PAGE_LIMIT,
                },
            )
        }
    }

    /// The state after the requested page came back as `page`.  A full page
    /// is followed by another of the same element; a short one closes the
    /// element's group.
    pub open spec fn accept(self, page: Seq<u64>) -> ScanModel {
        if self.done() {
            self
        } else {
            let users = self.current + without_bot(page, self.bot_id);
            if page.len() >= PAGE_LIMIT {
                ScanModel { after: Some(page.last()), current: users, ..self }
            } else {
                ScanModel {
                    position: self.position + 1,
                    after: None,
                    current: Seq::empty(),
                    groups: self.groups.push(
                        GroupView { element: self.targets[self.position], users },
                    ),
                    ..self
                }
            }
        }
    }

    /// The state after the requested page could not be fetched: the element
    /// is left without a group and the scan goes on with the next.
    pub open spec fn skip(self) -> ScanModel {
        if self.done() {
            self
        } else {
            ScanModel {
                position: self.position + 1,
                after: None,
                current: Seq::empty(),
                ..self
            }
        }
    }

    /// The state after a series of answers, each a page or a failure.
    pub open spec fn run(self, answers: Seq<Option<Seq<u64>>>) -> ScanModel
        decreases answers.len(),
    {
        if answers.len() == 0 {
            self
        } else {
            let next = match answers[0] {
                Some(page) => self.accept(page),
                None => self.skip(),
            };
            next.run(answers.drop_first())
        }
    }

    /// What holds of every state a scan can reach: the bot is in no group,
    /// and the groups follow the order of the finished elements.
    pub open spec fn clean(self) -> bool {
        &&& 0 <= self.position <= self.targets.len()
        &&& self.groups.len() <= self.position
        &&& !self.current.contains(self.bot_id)
        &&& forall|g: int|
            0 <= g < self.groups.len() ==> !(#[trigger] self.groups[g]).users.contains(
                self.bot_id,
            )
        &&& forall|g: int|
            0 <= g < self.groups.len() ==> self.targets.subrange(0, self.position).contains(
                (#[trigger] self.groups[g]).element,
            )
    }
}

/// The elements of `category` whose emoji `present` lists, in display order.
pub open spec fn spec_targets(category: BattleType, present: Seq<Seq<char>>) -> Seq<Element> {
    category.spec_elements().filter(|e: Element| present.contains(e.spec_emoji()))
}

/// A scan starts clean and stays clean.
pub proof fn lemma_scan_stays_clean(scan: ScanModel, page: Seq<u64>)
    requires
        scan.clean(),
    ensures
        scan.accept(page).clean(),
        scan.skip().clean(),
        forall|targets: Seq<Element>, bot_id: u64| #[trigger]
            ScanModel::start(targets, bot_id).clean(),
{
    lemma_without_bot(page, scan.bot_id);
    if !scan.done() {
        let users = scan.current + without_bot(page, scan.bot_id);
        assert(!users.contains(scan.bot_id)) by {
            if users.contains(scan.bot_id) {
                let i = choose|i: int| 0 <= i < users.len() && users[i] == scan.bot_id;
                if i < scan.current.len() {
                    assert(scan.current[i] == scan.bot_id);
                } else {
                    assert(without_bot(page, scan.bot_id)[i - scan.current.len()]
                        == scan.bot_id);
                }
            }
        }
        let before = scan.targets.subrange(0, scan.position);
        let after = scan.targets.subrange(0, scan.position + 1);
        assert forall|e: Element| before.contains(e) implies after.contains(e) by {
            let i = choose|i: int| 0 <= i < before.len() && before[i] == e;
            assert(after[i] == e);
        }
        assert(after[scan.position] == scan.targets[scan.position]);
        let next = scan.accept(page);
        if page.len() < PAGE_LIMIT {
            assert forall|g: int| 0 <= g < next.groups.len() implies after.contains(
                (#[trigger] next.groups[g]).element,
            ) by {
                if g < scan.groups.len() {
                    assert(next.groups[g] == scan.groups[g]);
                }
            }
        }
    }
}

/// A scan that is not done moves on with every short page and every failure.
pub proof fn lemma_scan_progress(scan: ScanModel, page: Seq<u64>)
    requires
        !scan.done(),
    ensures
        scan.skip().position == scan.position + 1,
        page.len() < PAGE_LIMIT ==> scan.accept(page).position == scan.position + 1,
        page.len() < PAGE_LIMIT ==> scan.accept(page).groups.last() == (GroupView {
            element: scan.targets[scan.position],
            users: scan.current + without_bot(page, scan.bot_id),
        }),
        page.len() >= PAGE_LIMIT ==> scan.accept(page).request() == Some(
            PageRequest {
                element: scan.targets[scan.position],
                after: Some(page.last()),
                limit: PAGE_LIMIT,
            },
        ),
{
}

/// The groups of elements whose users fit on one page each: for every
/// element the users of its page without the bot, in the order of the
/// elements.
pub open spec fn one_page_groups(targets: Seq<Element>, pages: Seq<Seq<u64>>, bot_id: u64) -> Seq<
    GroupView,
> {
    Seq::new(
        targets.len(),
        |i: int| GroupView { element: targets[i], users: without_bot(pages[i], bot_id) },
    )
}

/// Where every element's users fit on one page and every page arrives, the
/// scan ends after one answer for each element, and its groups are the
/// pages without the bot.
pub proof fn lemma_one_page_each(targets: Seq<Element>, pages: Seq<Seq<u64>>, bot_id: u64)
    requires
        pages.len() == targets.len(),
        forall|i: int| 0 <= i < pages.len() ==> (#[trigger] pages[i]).len() < PAGE_LIMIT,
    ensures
        ScanModel::start(targets, bot_id).run(pages.map_values(|p: Seq<u64>| Some(p))).done(),
        ScanModel::start(targets, bot_id).run(pages.map_values(|p: Seq<u64>| Some(p))).groups
            == one_page_groups(targets, pages, bot_id),
{
    let start = ScanModel::start(targets, bot_id);
    assert(one_page_groups(targets, pages, bot_id).take(0) =~= start.groups);
    lemma_run_short_pages(start, pages, 0);
    assert(one_page_groups(targets, pages, bot_id).take(targets.len() as int)
        =~= one_page_groups(targets, pages, bot_id));
    assert(pages.skip(0) =~= pages);
}

proof fn lemma_run_short_pages(scan: ScanModel, pages: Seq<Seq<u64>>, from: int)
    requires
        pages.len() == scan.targets.len(),
        forall|i: int| 0 <= i < pages.len() ==> (#[trigger] pages[i]).len() < PAGE_LIMIT,
        0 <= from <= pages.len(),
        scan.position == from,
        scan.current == Seq::<u64>::empty(),
        scan.groups == one_page_groups(scan.targets, pages, scan.bot_id).take(from),
    ensures
        scan.run(pages.skip(from).map_values(|p: Seq<u64>| Some(p))).done(),
        scan.run(pages.skip(from).map_values(|p: Seq<u64>| Some(p))).groups == one_page_groups(
            scan.targets,
            pages,
            scan.bot_id,
        ).take(pages.len() as int),
    decreases pages.len() - from,
{
    let answers = pages.skip(from).map_values(|p: Seq<u64>| Some(p));
    if from < pages.len() {
        let next = scan.accept(pages[from]);
        let all = one_page_groups(scan.targets, pages, scan.bot_id);
        assert(answers[0] == Some(pages[from]));
        assert(scan.current + without_bot(pages[from], scan.bot_id) =~= without_bot(
            pages[from],
            scan.bot_id,
        ));
        assert(next.groups =~= all.take(from + 1));
        assert(answers.drop_first() =~= pages.skip(from + 1).map_values(|p: Seq<u64>| Some(p)));
        lemma_run_short_pages(next, pages, from + 1);
    } else {
        assert(answers.len() == 0);
    }
}

/// Whether `present` lists `text`.
pub fn contains_text(present: &Vec<String>, text: &str) -> (r: bool)
    ensures
        r == views(present@).contains(text@),
{
    let mut i: usize = 0;
    while i < present.len()
        invariant
            i <= present.len(),
            forall|k: int| 0 <= k < i ==> views(present@)[k] != text@,
        decreases present.len() - i,
    {
        if same_text(present[i].as_str(), text) {
            assert(views(present@)[i as int] == text@);
            return true;
        }
        i = i + 1;
    }
    false
}

/// The elements of `category` whose emoji the message carries.
pub fn targets(category: BattleType, present: &Vec<String>) -> (r: Vec<Element>)
    ensures
        r@ == spec_targets(category, views(present@)),
{
    let listed = category.elements();
    let ghost keep = |e: Element| views(present@).contains(e.spec_emoji());
    let mut r: Vec<Element> = Vec::new();
    let mut i: usize = 0;
    assert(listed@.take(0) =~= Seq::<Element>::empty());
    assert(listed@.take(0).filter(keep) =~= Seq::<Element>::empty()) by {
        reveal(Seq::filter);
    }
    while i < listed.len()
        invariant
            i <= listed.len(),
            listed@ == category.spec_elements(),
            keep == |e: Element| views(present@).contains(e.spec_emoji()),
            r@ == listed@.take(i as int).filter(keep),
        decreases listed.len() - i,
    {
        proof {
            let next = listed@.take(i + 1);
            assert(next.drop_last() =~= listed@.take(i as int));
            reveal(Seq::filter);
        }
        if contains_text(present, listed[i].emoji()) {
            r.push(listed[i]);
        }
        i = i + 1;
    }
    assert(listed@.take(listed.len() as int) =~= listed@);
    r
}

/// A scan over the reacting users of one message.
#[derive(Debug)]
pub struct ReactionScan {
    targets: Vec<Element>,
    position: usize,
    after: Option<u64>,
    current: Vec<u64>,
    groups: Vec<ReactionGroup>,
    bot_id: u64,
}

impl View for ReactionScan {
    type V = ScanModel;

    closed spec fn view(&self) -> ScanModel {
        ScanModel {
            targets: self.targets@,
            position: self.position as int,
            after: self.after,
            current: self.current@,
            groups: group_views(self.groups@),
            bot_id: self.bot_id,
        }
    }
}

impl ReactionScan {
    /// A scan for a recruitment of `category` on a message that carries the
    /// reaction emoji `present`; `bot_id` is the bot's own account.
    pub fn begin(category: BattleType, present: &Vec<String>, bot_id: u64) -> (scan: ReactionScan)
        ensures
            scan@ == ScanModel::start(spec_targets(category, views(present@)), bot_id),
    {
        let scan = ReactionScan {
            targets: targets(category, present),
            position: 0,
            after: None,
            current: Vec::new(),
            groups: Vec::new(),
            bot_id,
        };
        assert(scan@.groups =~= Seq::<GroupView>::empty());
        scan
    }

    pub fn is_done(&self) -> (r: bool)
        ensures
            r == self@.done(),
    {
        self.position >= self.targets.len()
    }

    /// The page to fetch next, none once every element is finished.
    pub fn request(&self) -> (r: Option<PageRequest>)
        ensures
            r == self@.request(),
    {
        if self.position >= self.targets.len() {
            None
        } else {
            Some(
                PageRequest {
                    element: self.targets[self.position],
                    after: self.after,
                    limit: PAGE_LIMIT,
                },
            )
        }
    }

    /// Takes in the page that was asked for.
    pub fn accept_page(self, page: &Vec<u64>) -> (next: ReactionScan)
        ensures
            next@ == self@.accept(page@),
    {
        if self.position >= self.targets.len() {
            return self;
        }
        let ghost before = self@;
        let mut scan = self;
        push_without_bot(&mut scan.current, page, scan.bot_id);
        if page.len() >= PAGE_LIMIT {
            scan.after = Some(page[page.len() - 1]);
            scan
        } else {
            let element = scan.targets[scan.position];
            let mut users: Vec<u64> = Vec::new();
            std::mem::swap(&mut users, &mut scan.current);
            scan.groups.push(ReactionGroup { element, users });
            scan.position = scan.position + 1;
            scan.after = None;
            proof {
                assert(scan@.groups =~= before.accept(page@).groups);
            }
            scan
        }
    }

    /// Gives up the element whose page could not be fetched.
    pub fn skip_failed(self) -> (next: ReactionScan)
        ensures
            next@ == self@.skip(),
    {
        if self.position >= self.targets.len() {
            return self;
        }
        let mut scan = self;
        scan.position = scan.position + 1;
        scan.after = None;
        scan.current = Vec::new();
        scan
    }

    /// The groups collected so far.
    pub fn into_groups(self) -> (groups: Vec<ReactionGroup>)
        ensures
            group_views(groups@) == self@.groups,
    {
        self.groups
    }
}

} // verus!
