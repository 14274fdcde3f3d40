//! The structured part of a message: a titled block with named fields, and
//! the fields that list who signed up.

use vstd::prelude::*;
use vstd::string::*;
use crate::participants::{group_views, GroupView, ReactionGroup};
use crate::text::{clone_opt, join, joined_mentions, mentions, opt_view};

verus! {

/// One named entry of an embed.
#[derive(Debug, Clone, PartialEq, Eq)]
pub struct EmbedField {
    pub name: String,
    pub value: String,
    pub inline: bool,
}

/// The structured block shown under a message.
#[derive(Debug, Clone, PartialEq, Eq)]
pub struct Embed {
    pub title: Option<String>,
    pub description: Option<String>,
    pub color: Option<u32>,
    pub fields: Vec<EmbedField>,
}

/// What a field holds, as plain values.
pub struct FieldView {
    pub name: Seq<char>,
    pub value: Seq<char>,
    pub inline: bool,
}

/// What an embed holds, as plain values.
pub struct EmbedView {
    pub title: Option<Seq<char>>,
    pub description: Option<Seq<char>>,
    pub color: Option<u32>,
    pub fields: Seq<FieldView>,
}

impl View for EmbedField {
    type V = FieldView;

    open spec fn view(&self) -> FieldView {
        FieldView { name: self.name@, value: self.value@, inline: self.inline }
    }
}

/// The views of a sequence of fields.
pub open spec fn field_views(fields: Seq<EmbedField>) -> Seq<FieldView> {
    fields.map_values(|f: EmbedField| f@)
}

impl View for Embed {
    type V = EmbedView;

    open spec fn view(&self) -> EmbedView {
        EmbedView {
            title: opt_view(self.title),
            description: opt_view(self.description),
            color: self.color,
            fields: field_views(self.fields@),
        }
    }
}

/// The view of an embed that may be missing.
pub open spec fn opt_embed_view(embed: Option<Embed>) -> Option<EmbedView> {
    match embed {
        Some(e) => Some(e@),
        None => None,
    }
}

/// The title of the participant list.
pub open spec fn list_title() -> Seq<char> {
    "参加者一覧"@
}

/// The description shown while nobody has signed up.
pub open spec fn nobody_yet() -> Seq<char> {
    "現在参加者はいません。"@
}

/// What stands in a field whose group is empty.
pub open spec fn nobody() -> Seq<char> {
    "無し"@
}

/// What separates two mentions within a field.
pub open spec fn mention_gap() -> Seq<char> {
    "  "@
}

/// The embed a new recruitment message starts with.
pub open spec fn spec_initial_embed() -> EmbedView {
    EmbedView {
        title: Some(list_title()),
        description: Some(nobody_yet()),
        color: None,
        fields: Seq::empty(),
    }
}

/// The field that shows one group: the element's emoji over the mentions of
/// its users, or over the placeholder when there are none.
pub open spec fn field_for(group: GroupView) -> FieldView {
    FieldView {
        name: group.element.spec_emoji(),
        value: if group.users.len() == 0 {
            nobody()
        } else {
            join(mentions(group.users), mention_gap())
        },
        inline: false,
    }
}

/// One field per group, in the order of the groups.
pub open spec fn participant_fields(groups: Seq<GroupView>) -> Seq<FieldView> {
    groups.map_values(|g: GroupView| field_for(g))
}

/// `embed` with its fields replaced by those of `groups`.
pub open spec fn with_participants(embed: EmbedView, groups: Seq<GroupView>) -> EmbedView {
    EmbedView { fields: participant_fields(groups), ..embed }
}

/// Rendering the same groups again changes nothing, whatever fields the
/// embed had: the rendered embed depends on the groups and on the title,
/// description and colour alone.
pub proof fn lemma_rendering_idempotent(embed: EmbedView, other: EmbedView, groups: Seq<GroupView>)
    ensures
        with_participants(with_participants(embed, groups), groups) == with_participants(
            embed,
            groups,
        ),
        other.title == embed.title && other.description == embed.description && other.color
            == embed.color ==> with_participants(other, groups) == with_participants(
            embed,
            groups,
        ),
        with_participants(embed, groups).fields.len() == groups.len(),
{
}

/// The embed a new recruitment message starts with.
pub fn initial_embed() -> (embed: Embed)
    ensures
        embed@ == spec_initial_embed(),
{
    let embed = Embed {
        title: Some(String::from_str("参加者一覧")),
        description: Some(String::from_str("現在参加者はいません。")),
        color: None,
        fields: Vec::new(),
    };
    assert(embed@.fields =~= Seq::<FieldView>::empty());
    embed
}

/// The field that shows one group.
pub fn group_field(group: &ReactionGroup) -> (field: EmbedField)
    ensures
        field@ == field_for(group@),
{
    let value = if group.users.len() == 0 {
        String::from_str("無し")
    } else {
        joined_mentions(&group.users, "  ")
    };
    EmbedField { name: String::from_str(group.element.emoji()), value, inline: false }
}

/// One field per group, in the order of the groups.
pub fn group_fields(groups: &Vec<ReactionGroup>) -> (fields: Vec<EmbedField>)
    ensures
        field_views(fields@) == participant_fields(group_views(groups@)),
{
    let mut fields: Vec<EmbedField> = Vec::new();
    let mut i: usize = 0;
    while i < groups.len()
        invariant
            i <= groups.len(),
            fields@.len() == i,
            forall|k: int| 0 <= k < i ==> (#[trigger] fields@[k])@ == field_for(groups@[k]@),
        decreases groups.len() - i,
    {
        fields.push(group_field(&groups[i]));
        i = i + 1;
    }
    fields
}

/// `embed` with its fields replaced by those that show `groups`; title,
/// description and colour stay.
pub fn participants_embed(embed: &Embed, groups: &Vec<ReactionGroup>) -> (r: Embed)
    ensures
        r@ == with_participants(embed@, group_views(groups@)),
{
    Embed {
        title: clone_opt(&embed.title),
        description: clone_opt(&embed.description),
        color: embed.color,
        fields: group_fields(groups),
    }
}

} // verus!
