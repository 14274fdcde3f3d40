use gbf_recruitment::battle_type::{BattleType, Element};
use gbf_recruitment::event_date::EventDate;
use gbf_recruitment::participants::{
    contains_user, exclude_bot, unique_users, ReactionGroup, PAGE_LIMIT,
};
use gbf_recruitment::permission::{
    find_role, has_bot_control_permission, has_role, Role, ROLL_GBF_BOT_CONTROLS,
};
use gbf_recruitment::quest::{
    begins_with, resolve_quest, suggest_quests, Quest, QuestAlias, QuestDirectory, ResolvedQuest,
};
use gbf_recruitment::recruitment::{Recruitment, RecruitmentStatus, StatusChange, StoreError};
use gbf_recruitment::scan::{contains_text, targets, PageRequest, ReactionScan};
use gbf_recruitment::store::RecruitmentStore;

fn date() -> EventDate {
    EventDate::new(2024, 12, 25, 21, 0, 0).unwrap()
}

fn store_with_one() -> (RecruitmentStore, Recruitment) {
    let mut store = RecruitmentStore::new();
    let row = store.create(1, 2, 3, Some(10), BattleType::AllElement, date()).unwrap();
    (store, row)
}

#[test]
fn rows_get_ids_of_their_own_and_are_found_by_message() {
    let mut store = RecruitmentStore::new();
    assert_eq!(store.len(), 0);
    assert_eq!(store.get_by_message(1, 2, 3), None);
    let first = store.create(1, 2, 3, Some(10), BattleType::AllElement, date()).unwrap();
    assert_eq!(
        first,
        Recruitment {
            id: 1,
            guild_id: 1,
            channel_id: 2,
            message_id: 3,
            target_id: Some(10),
            battle_type: BattleType::AllElement,
            expiry: date(),
            status: RecruitmentStatus::Open,
        }
    );
    let second = store.create(1, 2, 4, None, BattleType::Fire, date()).unwrap();
    assert_eq!(second.id, 2);
    assert_eq!(store.len(), 2);
    assert_eq!(store.get_by_message(1, 2, 3), Some(first));
    assert_eq!(store.get_by_message(1, 2, 4), Some(second));
    assert_eq!(store.get_by_message(2, 2, 3), None);
    assert_eq!(store.get_by_message(1, 3, 3), None);
    assert_eq!(store.get(2), Some(second));
    assert_eq!(store.get(3), None);
    assert!(first.has_key(1, 2, 3));
    assert!(!first.has_key(1, 2, 4));
}

#[test]
fn a_message_has_one_recruitment() {
    let (mut store, _) = store_with_one();
    assert_eq!(
        store.create(1, 2, 3, None, BattleType::Fire, date()),
        Err(StoreError::DuplicateMessage)
    );
    assert_eq!(store.len(), 1);
    assert_eq!(store.get_by_message(1, 2, 3).unwrap().battle_type, BattleType::AllElement);
}

#[test]
fn ids_run_out_at_the_largest() {
    let mut store = RecruitmentStore::starting_at(i32::MAX - 1);
    assert_eq!(store.create(1, 2, 3, None, BattleType::Fire, date()).unwrap().id, i32::MAX - 1);
    assert_eq!(store.create(1, 2, 4, None, BattleType::Fire, date()), Err(StoreError::Exhausted));
    assert_eq!(
        store.create(1, 2, 3, None, BattleType::Fire, date()),
        Err(StoreError::DuplicateMessage)
    );
    assert_eq!(store.len(), 1);
    let mut store = RecruitmentStore::starting_at(-5);
    assert_eq!(store.create(1, 2, 3, None, BattleType::Fire, date()).unwrap().id, 1);
}

#[test]
fn only_the_first_claim_is_granted() {
    let (mut store, row) = store_with_one();
    assert_eq!(store.has_completion_announcement(row.id), Some(false));
    assert_eq!(store.has_completion_announcement(99), None);
    assert!(store.claim_completion(row.id));
    for _ in 0..5 {
        assert!(!store.claim_completion(row.id));
    }
    assert_eq!(store.get(row.id).unwrap().status, RecruitmentStatus::Announcing);
    assert_eq!(store.has_completion_announcement(row.id), Some(false));
    assert!(store.record_completion(row.id, 777));
    assert!(!store.record_completion(row.id, 888));
    assert!(!store.claim_completion(row.id));
    let after = store.get(row.id).unwrap();
    assert_eq!(after.status, RecruitmentStatus::Complete(777));
    assert_eq!(after.completion_message_id(), Some(777));
    assert_eq!(store.has_completion_announcement(row.id), Some(true));
    assert!(!store.claim_completion(99));
    assert!(!store.record_completion(99, 1));
}

#[test]
fn an_announcement_is_recorded_only_after_a_claim() {
    let (mut store, row) = store_with_one();
    assert!(!store.record_completion(row.id, 777));
    assert_eq!(store.get(row.id).unwrap().status, RecruitmentStatus::Open);
    assert!(!store.release_completion(row.id));
    assert!(store.claim_completion(row.id));
    assert!(store.release_completion(row.id));
    assert_eq!(store.get(row.id).unwrap().status, RecruitmentStatus::Open);
    assert!(store.claim_completion(row.id));
}

#[test]
fn terminal_states_are_final() {
    let (mut store, row) = store_with_one();
    assert!(store.mark_cancelled(row.id));
    assert!(!store.mark_started(row.id));
    assert!(!store.mark_cancelled(row.id));
    assert!(!store.claim_completion(row.id));
    assert_eq!(store.get(row.id).unwrap().status, RecruitmentStatus::Cancelled);

    let other = store.create(1, 2, 4, None, BattleType::Fire, date()).unwrap();
    assert!(store.claim_completion(other.id));
    assert!(store.mark_started(other.id));
    assert!(!store.record_completion(other.id, 5));
    assert_eq!(store.get(other.id).unwrap().status, RecruitmentStatus::Started);

    let third = store.create(1, 2, 5, None, BattleType::Fire, date()).unwrap();
    assert!(store.claim_completion(third.id));
    assert!(store.record_completion(third.id, 6));
    assert!(!store.mark_cancelled(third.id));
    assert!(!store.mark_started(third.id));
    assert_eq!(store.get(third.id).unwrap().status, RecruitmentStatus::Complete(6));
    assert!(!store.mark_started(99));

    assert!(!RecruitmentStatus::Open.is_terminal());
    assert!(!RecruitmentStatus::Announcing.is_terminal());
    assert!(RecruitmentStatus::Complete(1).is_terminal());
    assert!(RecruitmentStatus::Cancelled.is_terminal());
    assert!(RecruitmentStatus::Started.is_terminal());
    assert_eq!(RecruitmentStatus::Complete(1).announcement(), Some(1));
    assert_eq!(RecruitmentStatus::Announcing.announcement(), None);
}

#[test]
fn each_change_is_allowed_from_its_own_statuses() {
    let open = RecruitmentStatus::Open;
    let announcing = RecruitmentStatus::Announcing;
    let all = [
        open,
        announcing,
        RecruitmentStatus::Complete(5),
        RecruitmentStatus::Cancelled,
        RecruitmentStatus::Started,
    ];
    let table = [
        (StatusChange::Claim, vec![open], announcing),
        (StatusChange::Record(9), vec![announcing], RecruitmentStatus::Complete(9)),
        (StatusChange::Release, vec![announcing], open),
        (StatusChange::Cancel, vec![open, announcing], RecruitmentStatus::Cancelled),
        (StatusChange::Start, vec![open, announcing], RecruitmentStatus::Started),
    ];
    for (change, from, result) in table {
        assert_eq!(change.allowed_from(), from);
        assert_eq!(change.result(), result);
        for status in all {
            assert_eq!(change.allows(status), from.contains(&status), "{:?} {:?}", change, status);
        }
    }
}

#[test]
fn a_status_is_read_back_as_it_was_stored() {
    for status in [
        RecruitmentStatus::Open,
        RecruitmentStatus::Announcing,
        RecruitmentStatus::Complete(5),
        RecruitmentStatus::Cancelled,
        RecruitmentStatus::Started,
    ] {
        assert_eq!(RecruitmentStatus::from_stored(status.value(), status.announcement()), status);
    }
    assert_eq!(RecruitmentStatus::Open.value(), 0);
    assert_eq!(RecruitmentStatus::Announcing.value(), 1);
    assert_eq!(RecruitmentStatus::Complete(5).value(), 2);
    assert_eq!(RecruitmentStatus::Cancelled.value(), 3);
    assert_eq!(RecruitmentStatus::Started.value(), 4);
    // a row from before statuses were stored: its announcement decides
    assert_eq!(RecruitmentStatus::from_stored(0, Some(7)), RecruitmentStatus::Complete(7));
    assert_eq!(RecruitmentStatus::from_stored(2, None), RecruitmentStatus::Open);
    assert_eq!(RecruitmentStatus::from_stored(-1, None), RecruitmentStatus::Open);
    assert_eq!(RecruitmentStatus::from_stored(3, Some(7)), RecruitmentStatus::Cancelled);
}

#[test]
fn a_change_is_made_where_the_status_allows_it() {
    let (mut store, row) = store_with_one();
    assert!(!store.apply(row.id, StatusChange::Record(7)));
    assert!(!store.apply(row.id, StatusChange::Release));
    assert!(!store.apply(99, StatusChange::Claim));
    assert_eq!(store.get(row.id).unwrap().status, RecruitmentStatus::Open);
    assert!(store.apply(row.id, StatusChange::Claim));
    assert!(store.apply(row.id, StatusChange::Record(7)));
    assert_eq!(store.get(row.id).unwrap().status, RecruitmentStatus::Complete(7));
    for change in [
        StatusChange::Claim,
        StatusChange::Record(8),
        StatusChange::Release,
        StatusChange::Cancel,
        StatusChange::Start,
    ] {
        assert!(!store.apply(row.id, change));
    }
    assert_eq!(store.get(row.id).unwrap().status, RecruitmentStatus::Complete(7));
}

#[test]
fn participants_are_counted_once() {
    let groups = vec![
        ReactionGroup { element: Element::Fire, users: vec![3, 1, 2] },
        ReactionGroup { element: Element::Water, users: vec![2, 4, 3] },
        ReactionGroup { element: Element::Dark, users: vec![] },
        ReactionGroup { element: Element::Light, users: vec![4, 5] },
    ];
    assert_eq!(unique_users(&groups), vec![3, 1, 2, 4, 5]);
    assert_eq!(unique_users(&vec![]), Vec::<u64>::new());
    let twice = vec![
        ReactionGroup { element: Element::Fire, users: vec![7] },
        ReactionGroup { element: Element::Water, users: vec![7] },
    ];
    assert_eq!(unique_users(&twice), vec![7]);
    assert!(contains_user(&vec![1, 2, 3], 2));
    assert!(!contains_user(&vec![1, 2, 3], 4));
}

#[test]
fn the_bot_is_no_participant() {
    assert_eq!(exclude_bot(&vec![9, 1, 9, 2, 9], 9), vec![1, 2]);
    assert_eq!(exclude_bot(&vec![1, 2], 9), vec![1, 2]);
    assert_eq!(exclude_bot(&vec![9], 9), Vec::<u64>::new());
}

#[test]
fn a_scan_asks_for_the_elements_the_message_carries() {
    let present: Vec<String> = ["👍", "🌑", "🔥"].iter().map(|s| s.to_string()).collect();
    assert!(contains_text(&present, "🔥"));
    assert!(!contains_text(&present, "💧"));
    assert_eq!(targets(BattleType::AllElement, &present), vec![Element::Fire, Element::Dark]);
    assert_eq!(targets(BattleType::Default, &present), vec![Element::Fire, Element::Dark]);
    assert_eq!(targets(BattleType::Dark, &present), vec![Element::Dark]);
    assert_eq!(targets(BattleType::Water, &present), Vec::<Element>::new());

    let scan = ReactionScan::begin(BattleType::Water, &present, 9);
    assert!(scan.is_done());
    assert_eq!(scan.request(), None);
    assert!(scan.into_groups().is_empty());
}

#[test]
fn a_scan_follows_full_pages_and_closes_on_short_ones() {
    assert_eq!(PAGE_LIMIT, 100);
    let present: Vec<String> = ["🔥", "🌑"].iter().map(|s| s.to_string()).collect();
    let scan = ReactionScan::begin(BattleType::AllElement, &present, 9);
    assert!(!scan.is_done());
    assert_eq!(
        scan.request(),
        Some(PageRequest { element: Element::Fire, after: None, limit: 100 })
    );
    // the bot, user 9, is on the first page
    let full: Vec<u64> = (1..=100).collect();
    let scan = scan.accept_page(&full);
    assert_eq!(
        scan.request(),
        Some(PageRequest { element: Element::Fire, after: Some(100), limit: 100 })
    );
    let scan = scan.accept_page(&vec![101, 9, 102]);
    assert_eq!(
        scan.request(),
        Some(PageRequest { element: Element::Dark, after: None, limit: 100 })
    );
    let scan = scan.accept_page(&vec![]);
    assert!(scan.is_done());
    // a page nobody asked for changes nothing
    let scan = scan.accept_page(&vec![55]).skip_failed();
    let groups = scan.into_groups();
    assert_eq!(groups.len(), 2);
    assert_eq!(groups[0].element, Element::Fire);
    assert_eq!(groups[0].users.len(), 101);
    assert!(!groups[0].users.contains(&9));
    assert_eq!(&groups[0].users[..9], &[1, 2, 3, 4, 5, 6, 7, 8, 10]);
    assert_eq!(&groups[0].users[99..], &[101, 102]);
    assert_eq!(groups[1], ReactionGroup { element: Element::Dark, users: vec![] });
}

#[test]
fn a_failed_page_drops_its_element() {
    let present: Vec<String> = ["🔥", "💧", "🌑"].iter().map(|s| s.to_string()).collect();
    let scan = ReactionScan::begin(BattleType::AllElement, &present, 9);
    let scan = scan.accept_page(&vec![1]);
    let full: Vec<u64> = (1..=100).collect();
    let scan = scan.accept_page(&full).skip_failed();
    assert_eq!(
        scan.request(),
        Some(PageRequest { element: Element::Dark, after: None, limit: 100 })
    );
    let scan = scan.accept_page(&vec![2]);
    assert_eq!(
        scan.into_groups(),
        vec![
            ReactionGroup { element: Element::Fire, users: vec![1] },
            ReactionGroup { element: Element::Dark, users: vec![2] },
        ]
    );
}

fn directory() -> QuestDirectory {
    let mut directory = QuestDirectory::new();
    let quest = |id: i32, target_id: i32, name: &str, category: i32| Quest {
        id,
        target_id,
        quest_name: name.to_string(),
        default_battle_type: category,
    };
    let alias = |id: i32, target_id: i32, alias: &str| QuestAlias {
        id,
        target_id,
        alias: alias.to_string(),
    };
    directory.quests.push(quest(1, 10, "Amanda Raid", 1));
    directory.quests.push(quest(2, 20, "Bob Raid", 3));
    directory.quests.push(quest(3, 20, "Bob Raid II", 4));
    directory.aliases.push(alias(1, 10, "Amanda"));
    directory.aliases.push(alias(2, 20, "Bob"));
    directory.aliases.push(alias(3, 10, "Bob"));
    directory.aliases.push(alias(4, 30, "Ghost"));
    directory
}

#[test]
fn an_alias_leads_to_its_quest() {
    let directory = directory();
    assert_eq!(directory.find_by_alias("Amanda").unwrap().quest_name, "Amanda Raid");
    // the first alias and the first quest win
    assert_eq!(directory.find_by_alias("Bob").unwrap().quest_name, "Bob Raid");
    assert_eq!(directory.find_by_alias("amanda"), None);
    assert_eq!(directory.find_by_alias("Ghost"), None);
    assert_eq!(directory.find_by_target_id(20).unwrap().id, 2);
    assert_eq!(directory.find_by_target_id(30), None);
    let copy = directory.find_by_target_id(10).unwrap();
    assert_eq!(copy.duplicate(), copy);
}

#[test]
fn quests_are_suggested_by_their_beginning() {
    let all = vec!["Amanda", "Bob", "Christian", "Danny", "Ester", "Falk"];
    assert_eq!(suggest_quests(""), all);
    assert_eq!(suggest_quests("A"), vec!["Amanda"]);
    assert_eq!(suggest_quests("Fa"), vec!["Falk"]);
    assert_eq!(suggest_quests("Falk"), vec!["Falk"]);
    assert_eq!(suggest_quests("Falks"), Vec::<String>::new());
    assert_eq!(suggest_quests("a"), Vec::<String>::new());
    assert!(begins_with("Amanda", "Am"));
    assert!(begins_with("Amanda", ""));
    assert!(!begins_with("Am", "Amanda"));
    assert!(!begins_with("Amanda", "an"));
}

#[test]
fn a_role_is_held_or_the_refusal_says_why() {
    let guild_roles = vec![
        Role { id: 1, name: "member".to_string() },
        Role { id: 2, name: "gbf_bot_control".to_string() },
        Role { id: 3, name: "gbf_bot_control".to_string() },
    ];
    assert_eq!(ROLL_GBF_BOT_CONTROLS, "gbf_bot_control");
    assert_eq!(find_role(&guild_roles, "gbf_bot_control"), Some(2));
    assert_eq!(find_role(&guild_roles, "admin"), None);
    assert_eq!(has_role(&guild_roles, &vec![5, 1], "Amanda", "member"), Ok(()));
    assert_eq!(
        has_role(&guild_roles, &vec![5, 2], "Amanda", "admin"),
        Err("role is not found: 'admin'".to_string())
    );
    assert_eq!(has_bot_control_permission(&guild_roles, &vec![2], "Amanda"), Ok(()));
    // of two roles with one name the first counts
    assert_eq!(
        has_bot_control_permission(&guild_roles, &vec![1, 3], "Amanda"),
        Err("'Amanda' is roll 'gbf_bot_control' not found.".to_string())
    );
    assert_eq!(
        has_bot_control_permission(&vec![], &vec![2], "Amanda"),
        Err("role is not found: 'gbf_bot_control'".to_string())
    );
}

#[test]
fn the_default_category_gives_way_to_the_quests_own() {
    let directory = directory();
    let bob = directory.find_by_alias("Bob");
    assert_eq!(
        resolve_quest("Bob", &bob, BattleType::Default),
        ResolvedQuest {
            display_name: "Bob Raid".to_string(),
            target_id: Some(20),
            battle_type: BattleType::Water,
        }
    );
    assert_eq!(resolve_quest("Bob", &bob, BattleType::Dark).battle_type, BattleType::Dark);
    assert_eq!(
        resolve_quest("Carol", &None, BattleType::Default),
        ResolvedQuest {
            display_name: "Carol".to_string(),
            target_id: None,
            battle_type: BattleType::Default,
        }
    );
    let odd = Some(Quest {
        id: 9,
        target_id: 90,
        quest_name: "Odd".to_string(),
        default_battle_type: 42,
    });
    assert_eq!(resolve_quest("x", &odd, BattleType::Default).battle_type, BattleType::Default);
}
