//! Quests, the aliases they are known by, and how the text of a recruit
//! command is resolved to a quest.

use vstd::prelude::*;
use vstd::string::*;
use crate::battle_type::BattleType;
use crate::text::{chars_of, same_text, views};

verus! {

/// A quest as the directory records it.
#[derive(Debug, Clone, PartialEq, Eq)]
pub struct Quest {
    pub id: i32,
    pub target_id: i32,
    pub quest_name: String,
    pub default_battle_type: i32,
}

/// Another name under which a quest can be asked for.
#[derive(Debug, Clone, PartialEq, Eq)]
pub struct QuestAlias {
    pub id: i32,
    pub target_id: i32,
    pub alias: String,
}

/// What a quest holds, as plain values.
pub struct QuestView {
    pub id: int,
    pub target_id: int,
    pub quest_name: Seq<char>,
    pub default_battle_type: int,
}

/// What an alias holds, as plain values.
pub struct AliasView {
    pub id: int,
    pub target_id: int,
    pub alias: Seq<char>,
}

impl View for Quest {
    type V = QuestView;

    open spec fn view(&self) -> QuestView {
        QuestView {
            id: self.id as int,
            target_id: self.target_id as int,
            quest_name: self.quest_name@,
            default_battle_type: self.default_battle_type as int,
        }
    }
}

impl View for QuestAlias {
    type V = AliasView;

    open spec fn view(&self) -> AliasView {
        AliasView { id: self.id as int, target_id: self.target_id as int, alias: self.alias@ }
    }
}

/// The view of a quest that may be missing.
pub open spec fn opt_quest_view(quest: Option<Quest>) -> Option<QuestView> {
    match quest {
        Some(q) => Some(q@),
        None => None,
    }
}

impl Quest {
    /// A copy of the quest.
    pub fn duplicate(&self) -> (q: Quest)
        ensures
            q@ == self@,
    {
        Quest {
            id: self.id,
            target_id: self.target_id,
            quest_name: self.quest_name.clone(),
            default_battle_type: self.default_battle_type,
        }
    }
}

/// What a recruitment is announced with: the name to show, the quest it
/// refers to if one was found, and the category that applies.
#[derive(Debug, Clone, PartialEq, Eq)]
pub struct ResolvedQuest {
    pub display_name: String,
    pub target_id: Option<i32>,
    pub battle_type: BattleType,
}

/// What a resolved quest holds, as plain values.
pub struct ResolvedView {
    pub display_name: Seq<char>,
    pub target_id: Option<i32>,
    pub battle_type: BattleType,
}

impl View for ResolvedQuest {
    type V = ResolvedView;

    open spec fn view(&self) -> ResolvedView {
        ResolvedView {
            display_name: self.display_name@,
            target_id: self.target_id,
            battle_type: self.battle_type,
        }
    }
}

/// The category that applies to a recruitment: the one asked for, or the
/// quest's own where the default was asked for and the quest names a valid
/// one.
pub open spec fn effective_battle_type(requested: BattleType, quest_default: int) -> BattleType {
    if requested == BattleType::Default {
        match BattleType::spec_from_value(quest_default) {
            Some(own) => own,
            None => BattleType::Default,
        }
    } else {
        requested
    }
}

/// How the text of a command is resolved.  A quest that was found gives its
/// name and its category; without one the text itself is the name and the
/// category asked for stands.
pub open spec fn resolve(text: Seq<char>, found: Option<QuestView>, requested: BattleType) -> ResolvedView {
    match found {
        Some(quest) => ResolvedView {
            display_name: quest.quest_name,
            target_id: Some(quest.target_id as i32),
            battle_type: effective_battle_type(requested, quest.default_battle_type),
        },
        None => ResolvedView { display_name: text, target_id: None, battle_type: requested },
    }
}

/// Resolves the text of a recruit command given what the directory found
/// for it.
pub fn resolve_quest(text: &str, found: &Option<Quest>, requested: BattleType) -> (r: ResolvedQuest)
    ensures
        r@ == resolve(text@, opt_quest_view(*found), requested),
        found is None ==> r@.display_name == text@ && r@.battle_type == requested,
{
    match found {
        Some(quest) => {
            let battle_type = if requested == BattleType::Default {
                match BattleType::from_value(quest.default_battle_type) {
                    Some(own) => own,
                    None => BattleType::Default,
                }
            } else {
                requested
            };
            ResolvedQuest {
                display_name: quest.quest_name.clone(),
                target_id: Some(quest.target_id),
                battle_type,
            }
        },
        None => ResolvedQuest {
            display_name: String::from_str(text),
            target_id: None,
            battle_type: requested,
        },
    }
}

/// The views of a sequence of quests.
pub open spec fn quest_views(quests: Seq<Quest>) -> Seq<QuestView> {
    quests.map_values(|q: Quest| q@)
}

/// The views of a sequence of aliases.
pub open spec fn alias_views(aliases: Seq<QuestAlias>) -> Seq<AliasView> {
    aliases.map_values(|a: QuestAlias| a@)
}

/// The first quest with the target id `target_id`.
pub open spec fn first_with_target(quests: Seq<QuestView>, target_id: int) -> Option<QuestView>
    decreases quests.len(),
{
    if quests.len() == 0 {
        None
    } else if quests[0].target_id == target_id {
        Some(quests[0])
    } else {
        first_with_target(quests.drop_first(), target_id)
    }
}

/// The target id of the first alias that reads `alias`.
pub open spec fn first_alias_target(aliases: Seq<AliasView>, alias: Seq<char>) -> Option<int>
    decreases aliases.len(),
{
    if aliases.len() == 0 {
        None
    } else if aliases[0].alias == alias {
        Some(aliases[0].target_id)
    } else {
        first_alias_target(aliases.drop_first(), alias)
    }
}

/// The quest an alias leads to: the alias gives a target id, the target id
/// a quest.
pub open spec fn quest_for_alias(
    quests: Seq<QuestView>,
    aliases: Seq<AliasView>,
    alias: Seq<char>,
) -> Option<QuestView> {
    match first_alias_target(aliases, alias) {
        Some(target_id) => first_with_target(quests, target_id),
        None => None,
    }
}

/// A directory of quests held in memory.
#[derive(Debug, Clone)]
pub struct QuestDirectory {
    pub quests: Vec<Quest>,
    pub aliases: Vec<QuestAlias>,
}

impl QuestDirectory {
    pub fn new() -> (d: QuestDirectory)
        ensures
            d.quests@.len() == 0,
            d.aliases@.len() == 0,
    {
        QuestDirectory { quests: Vec::new(), aliases: Vec::new() }
    }

    /// The quest with the target id `target_id`.
    pub fn find_by_target_id(&self, target_id: i32) -> (r: Option<Quest>)
        ensures
            opt_quest_view(r) == first_with_target(quest_views(self.quests@), target_id as int),
    {
        let ghost all = quest_views(self.quests@);
        let mut i: usize = 0;
        assert(all.skip(0) =~= all);
        while i < self.quests.len()
            invariant
                i <= self.quests.len(),
                all == quest_views(self.quests@),
                first_with_target(all, target_id as int) == first_with_target(
                    all.skip(i as int),
                    target_id as int,
                ),
            decreases self.quests.len() - i,
        {
            proof {
                let rest = all.skip(i as int);
                assert(rest[0] == self.quests@[i as int]@);
                assert(rest.drop_first() =~= all.skip(i + 1));
            }
            if self.quests[i].target_id == target_id {
                return Some(self.quests[i].duplicate());
            }
            i = i + 1;
        }
        None
    }

    /// The quest that `alias` leads to.
    pub fn find_by_alias(&self, alias: &str) -> (r: Option<Quest>)
        ensures
            opt_quest_view(r) == quest_for_alias(
                quest_views(self.quests@),
                alias_views(self.aliases@),
                alias@,
            ),
    {
        let ghost all = alias_views(self.aliases@);
        let mut i: usize = 0;
        assert(all.skip(0) =~= all);
        while i < self.aliases.len()
            invariant
                i <= self.aliases.len(),
                all == alias_views(self.aliases@),
                first_alias_target(all, alias@) == first_alias_target(all.skip(i as int), alias@),
            decreases self.aliases.len() - i,
        {
            proof {
                let rest = all.skip(i as int);
                assert(rest[0] == self.aliases@[i as int]@);
                assert(rest.drop_first() =~= all.skip(i + 1));
            }
            if same_text(self.aliases[i].alias.as_str(), alias) {
                return self.find_by_target_id(self.aliases[i].target_id);
            }
            i = i + 1;
        }
        None
    }
}

/// The quests that the recruit command offers while its text is typed.
pub open spec fn known_quests() -> Seq<Seq<char>> {
    seq!["Amanda"@, "Bob"@, "Christian"@, "Danny"@, "Ester"@, "Falk"@]
}

/// The quests on offer whose names begin with `partial`, in their order.
pub open spec fn suggestions(partial: Seq<char>) -> Seq<Seq<char>> {
    known_quests().filter(|name: Seq<char>| partial.is_prefix_of(name))
}

/// Whether `text` begins with `prefix`.
pub fn begins_with(text: &str, prefix: &str) -> (r: bool)
    ensures
        r == prefix@.is_prefix_of(text@),
{
    let whole = chars_of(text);
    let head = chars_of(prefix);
    if head.len() > whole.len() {
        return false;
    }
    let mut i: usize = 0;
    while i < head.len()
        invariant
            i <= head.len() <= whole.len(),
            head@ == prefix@,
            whole@ == text@,
            forall|k: int| 0 <= k < i ==> head@[k] == whole@[k],
        decreases head.len() - i,
    {
        if head[i] != whole[i] {
            assert(prefix@[i as int] != text@.subrange(0, prefix@.len() as int)[i as int]);
            return false;
        }
        i = i + 1;
    }
    assert(prefix@ =~= text@.subrange(0, prefix@.len() as int));
    true
}

/// The quests on offer whose names begin with `partial`.
pub fn suggest_quests(partial: &str) -> (names: Vec<String>)
    ensures
        views(names@) == suggestions(partial@),
{
    let mut names: Vec<String> = Vec::new();
    let ghost keep = |name: Seq<char>| partial@.is_prefix_of(name);
    proof {
        reveal(Seq::filter);
        assert(known_quests().take(0) =~= Seq::<Seq<char>>::empty());
    }
    let known = ["Amanda", "Bob", "Christian", "Danny", "Ester", "Falk"];
    let mut i: usize = 0;
    while i < 6
        invariant
            i <= 6,
            known@.len() == 6,
            forall|k: int| 0 <= k < 6 ==> (#[trigger] known@[k])@ == known_quests()[k],
            keep == |name: Seq<char>| partial@.is_prefix_of(name),
            views(names@) == known_quests().take(i as int).filter(keep),
        decreases 6 - i,
    {
        let ghost before = views(names@);
        proof {
            let next = known_quests().take(i + 1);
            assert(next.drop_last() =~= known_quests().take(i as int));
            assert(next.last() == known_quests()[i as int]);
            reveal(Seq::filter);
        }
        if begins_with(known[i], partial) {
            names.push(String::from_str(known[i]));
            assert(views(names@) =~= before.push(known@[i as int]@));
        }
        i = i + 1;
    }
    assert(known_quests().take(6) =~= known_quests());
    names
}

} // verus!
