//! The closed set of battle categories and the reaction emoji each accepts.

use vstd::prelude::*;
use vstd::string::*;
use crate::text::views;

verus! {

/// One of the six elements a participant can sign up with.
#[derive(Debug, Clone, Copy, PartialEq, Eq, Structural)]
pub enum Element {
    Fire,
    Water,
    Earth,
    Wind,
    Light,
    Dark,
}

impl Element {
    /// The reaction emoji that stands for the element.
    pub open spec fn spec_emoji(self) -> Seq<char> {
        match self {
            Element::Fire => "🔥"@,
            Element::Water => "💧"@,
            Element::Earth => "🌱"@,
            Element::Wind => "🌪️"@,
            Element::Light => "✨"@,
            Element::Dark => "🌑"@,
        }
    }

    /// The six elements in display order.
    pub open spec fn spec_all() -> Seq<Element> {
        seq![
            Element::Fire,
            Element::Water,
            Element::Earth,
            Element::Wind,
            Element::Light,
            Element::Dark,
        ]
    }

    /// The place of the element in display order.
    pub open spec fn spec_index(self) -> int {
        match self {
            Element::Fire => 0,
            Element::Water => 1,
            Element::Earth => 2,
            Element::Wind => 3,
            Element::Light => 4,
            Element::Dark => 5,
        }
    }

    pub fn emoji(&self) -> (s: &'static str)
        ensures
            s@ == self.spec_emoji(),
    {
        match self {
            Element::Fire => "🔥",
            Element::Water => "💧",
            Element::Earth => "🌱",
            Element::Wind => "🌪️",
            Element::Light => "✨",
            Element::Dark => "🌑",
        }
    }

    /// The six elements in display order.
    pub fn all() -> (v: Vec<Element>)
        ensures
            v@ == Self::spec_all(),
    {
        let mut v: Vec<Element> = Vec::new();
        v.push(Element::Fire);
        v.push(Element::Water);
        v.push(Element::Earth);
        v.push(Element::Wind);
        v.push(Element::Light);
        v.push(Element::Dark);
        v
    }
}

/// The emoji of different elements differ, and none of them is empty.
pub proof fn lemma_emoji_distinct()
    ensures
        forall|a: Element, b: Element| a != b ==> a.spec_emoji() != b.spec_emoji(),
        forall|a: Element| #[trigger] a.spec_emoji().len() > 0,
{
    reveal_strlit("🔥");
    reveal_strlit("💧");
    reveal_strlit("🌱");
    reveal_strlit("🌪️");
    reveal_strlit("✨");
    reveal_strlit("🌑");
    assert(Element::Fire.spec_emoji()[0] == '🔥');
    assert(Element::Water.spec_emoji()[0] == '💧');
    assert(Element::Earth.spec_emoji()[0] == '🌱');
    assert(Element::Wind.spec_emoji()[0] == '🌪');
    assert(Element::Light.spec_emoji()[0] == '✨');
    assert(Element::Dark.spec_emoji()[0] == '🌑');
}

/// The scope of elements a recruitment accepts.
#[derive(Debug, Clone, Copy, PartialEq, Eq, Structural)]
pub enum BattleType {
    Default,
    AllElement,
    Fire,
    Water,
    Earth,
    Wind,
    Light,
    Dark,
}

impl BattleType {
    /// The stored number of a category.
    pub open spec fn spec_value(self) -> int {
        match self {
            BattleType::Default => 0,
            BattleType::AllElement => 1,
            BattleType::Fire => 2,
            BattleType::Water => 3,
            BattleType::Earth => 4,
            BattleType::Wind => 5,
            BattleType::Light => 6,
            BattleType::Dark => 7,
        }
    }

    /// The category stored under `value`, if there is one.
    pub open spec fn spec_from_value(value: int) -> Option<BattleType> {
        if value == 0 {
            Some(BattleType::Default)
        } else if value == 1 {
            Some(BattleType::AllElement)
        } else if value == 2 {
            Some(BattleType::Fire)
        } else if value == 3 {
            Some(BattleType::Water)
        } else if value == 4 {
            Some(BattleType::Earth)
        } else if value == 5 {
            Some(BattleType::Wind)
        } else if value == 6 {
            Some(BattleType::Light)
        } else if value == 7 {
            Some(BattleType::Dark)
        } else {
            None
        }
    }

    pub fn from_value(value: i32) -> (r: Option<BattleType>)
        ensures
            r == Self::spec_from_value(value as int),
            r is Some <==> 0 <= value <= 7,
            r matches Some(b) ==> b.spec_value() == value,
    {
        match value {
            0 => Some(BattleType::Default),
            1 => Some(BattleType::AllElement),
            2 => Some(BattleType::Fire),
            3 => Some(BattleType::Water),
            4 => Some(BattleType::Earth),
            5 => Some(BattleType::Wind),
            6 => Some(BattleType::Light),
            7 => Some(BattleType::Dark),
            _ => None,
        }
    }

    /// The display name of a category.
    pub open spec fn spec_name(self) -> Seq<char> {
        match self {
            BattleType::Default => "デフォルト"@,
            BattleType::AllElement => "全属性"@,
            BattleType::Fire => "火属性"@,
            BattleType::Water => "水属性"@,
            BattleType::Earth => "土属性"@,
            BattleType::Wind => "風属性"@,
            BattleType::Light => "光属性"@,
            BattleType::Dark => "闇属性"@,
        }
    }

    /// Whether the category stands for exactly one element.
    pub open spec fn is_single(self) -> bool {
        self != BattleType::Default && self != BattleType::AllElement
    }

    /// The elements a participant may sign up with, in display order.
    pub open spec fn spec_elements(self) -> Seq<Element> {
        match self {
            BattleType::Default | BattleType::AllElement => Element::spec_all(),
            BattleType::Fire => seq![Element::Fire],
            BattleType::Water => seq![Element::Water],
            BattleType::Earth => seq![Element::Earth],
            BattleType::Wind => seq![Element::Wind],
            BattleType::Light => seq![Element::Light],
            BattleType::Dark => seq![Element::Dark],
        }
    }

    /// The reaction emoji of the category, in display order.
    pub open spec fn spec_reactions(self) -> Seq<Seq<char>> {
        self.spec_elements().map_values(|e: Element| e.spec_emoji())
    }

    /// The reaction emoji of the category as a set.
    pub open spec fn spec_emoji_set(self) -> Set<Seq<char>> {
        self.spec_reactions().to_set()
    }

    pub fn name(&self) -> (s: &'static str)
        ensures
            s@ == self.spec_name(),
    {
        match self {
            BattleType::Default => "デフォルト",
            BattleType::AllElement => "全属性",
            BattleType::Fire => "火属性",
            BattleType::Water => "水属性",
            BattleType::Earth => "土属性",
            BattleType::Wind => "風属性",
            BattleType::Light => "光属性",
            BattleType::Dark => "闇属性",
        }
    }

    pub fn elements(&self) -> (v: Vec<Element>)
        ensures
            v@ == self.spec_elements(),
    {
        match self {
            BattleType::Default | BattleType::AllElement => Element::all(),
            BattleType::Fire => Self::one(Element::Fire),
            BattleType::Water => Self::one(Element::Water),
            BattleType::Earth => Self::one(Element::Earth),
            BattleType::Wind => Self::one(Element::Wind),
            BattleType::Light => Self::one(Element::Light),
            BattleType::Dark => Self::one(Element::Dark),
        }
    }

    fn one(e: Element) -> (v: Vec<Element>)
        ensures
            v@ == seq![e],
    {
        let mut v: Vec<Element> = Vec::new();
        v.push(e);
        v
    }

    pub fn reactions(&self) -> (v: Vec<String>)
        ensures
            views(v@) == self.spec_reactions(),
    {
        let elements = self.elements();
        let mut v: Vec<String> = Vec::new();
        let mut i: usize = 0;
        while i < elements.len()
            invariant
                i <= elements.len(),
                v@.len() == i,
                forall|k: int| 0 <= k < i ==> (#[trigger] v@[k])@ == elements@[k].spec_emoji(),
            decreases elements.len() - i,
        {
            v.push(String::from_str(elements[i].emoji()));
            i = i + 1;
        }
        v
    }

    pub fn value(&self) -> (v: i32)
        ensures
            v == self.spec_value(),
    {
        match self {
            BattleType::Default => 0,
            BattleType::AllElement => 1,
            BattleType::Fire => 2,
            BattleType::Water => 3,
            BattleType::Earth => 4,
            BattleType::Wind => 5,
            BattleType::Light => 6,
            BattleType::Dark => 7,
        }
    }
}

/// Every category has a non-empty emoji set.  The default category and the
/// all-elements category share one set of exactly six emoji.  Each
/// single-element category has exactly one emoji; the sets of two different
/// single-element categories are disjoint, and an emoji belongs to the
/// all-elements set exactly when it belongs to one of the six.
pub proof fn lemma_category_emoji()
    ensures
        forall|c: BattleType| #[trigger] c.spec_reactions().len() > 0,
        forall|c: BattleType| !(#[trigger] c.spec_emoji_set()).is_empty(),
        BattleType::Default.spec_reactions() == BattleType::AllElement.spec_reactions(),
        BattleType::Default.spec_emoji_set() == BattleType::AllElement.spec_emoji_set(),
        BattleType::AllElement.spec_reactions().len() == 6,
        BattleType::AllElement.spec_reactions().no_duplicates(),
        BattleType::AllElement.spec_emoji_set().len() == 6,
        forall|c: BattleType|
            c.is_single() ==> (#[trigger] c.spec_reactions()).len() == 1
                && c.spec_emoji_set().len() == 1,
        forall|a: BattleType, b: BattleType|
            a.is_single() && b.is_single() && a != b ==> (#[trigger] a.spec_emoji_set()).disjoint(
                #[trigger] b.spec_emoji_set(),
            ),
        forall|emoji: Seq<char>|
            BattleType::AllElement.spec_emoji_set().contains(emoji) <==> exists|c: BattleType|
                c.is_single() && (#[trigger] c.spec_emoji_set()).contains(emoji),
{
    lemma_emoji_distinct();
    let all = BattleType::AllElement.spec_reactions();
    assert(all.len() == 6);
    assert(all[0] == Element::Fire.spec_emoji());
    assert(all[1] == Element::Water.spec_emoji());
    assert(all[2] == Element::Earth.spec_emoji());
    assert(all[3] == Element::Wind.spec_emoji());
    assert(all[4] == Element::Light.spec_emoji());
    assert(all[5] == Element::Dark.spec_emoji());
    assert(all.no_duplicates()) by {
        assert forall|i: int, j: int| 0 <= i < all.len() && 0 <= j < all.len() && i != j implies all[i]
            != all[j] by {
            assert(Element::spec_all()[i] != Element::spec_all()[j]);
        }
    }
    all.unique_seq_to_set();
    assert forall|c: BattleType| !(#[trigger] c.spec_emoji_set()).is_empty() by {
        assert(c.spec_reactions().len() > 0);
        assert(c.spec_emoji_set().contains(c.spec_reactions()[0]));
    }
    assert forall|c: BattleType| c.is_single() implies (#[trigger] c.spec_reactions()).len() == 1
        && c.spec_emoji_set().len() == 1 by {
        let r = c.spec_reactions();
        assert(r.len() == 1);
        assert(r.no_duplicates());
        r.unique_seq_to_set();
    }
    assert forall|a: BattleType, b: BattleType|
        a.is_single() && b.is_single() && a != b implies (#[trigger] a.spec_emoji_set()).disjoint(
        #[trigger] b.spec_emoji_set(),
    ) by {
        let ra = a.spec_reactions();
        let rb = b.spec_reactions();
        assert(ra.len() == 1 && rb.len() == 1);
        assert(ra[0] != rb[0]);
        assert forall|e: Seq<char>| !(ra.to_set().contains(e) && rb.to_set().contains(e)) by {
            if ra.to_set().contains(e) && rb.to_set().contains(e) {
                assert(ra.contains(e) && rb.contains(e));
                assert(e == ra[0] && e == rb[0]);
            }
        }
    }
    assert forall|emoji: Seq<char>|
        BattleType::AllElement.spec_emoji_set().contains(emoji) <==> exists|c: BattleType|
            c.is_single() && (#[trigger] c.spec_emoji_set()).contains(emoji) by {
        if all.to_set().contains(emoji) {
            assert(all.contains(emoji));
            let i = choose|i: int| 0 <= i < all.len() && all[i] == emoji;
            let c = single_category(Element::spec_all()[i]);
            assert(c.spec_reactions()[0] == emoji);
            assert(c.spec_emoji_set().contains(emoji));
            assert(c.is_single());
        }
        if exists|c: BattleType| c.is_single() && (#[trigger] c.spec_emoji_set()).contains(emoji) {
            let c = choose|c: BattleType|
                c.is_single() && (#[trigger] c.spec_emoji_set()).contains(emoji);
            let r = c.spec_reactions();
            assert(r.contains(emoji));
            assert(r.len() == 1);
            assert(r[0] == emoji);
            let e = c.spec_elements()[0];
            assert(all[e.spec_index()] == emoji);
            assert(all.contains(emoji));
        }
    }
}

/// The category that stands for `element` alone.
pub open spec fn single_category(element: Element) -> BattleType {
    match element {
        Element::Fire => BattleType::Fire,
        Element::Water => BattleType::Water,
        Element::Earth => BattleType::Earth,
        Element::Wind => BattleType::Wind,
        Element::Light => BattleType::Light,
        Element::Dark => BattleType::Dark,
    }
}

} // verus!
