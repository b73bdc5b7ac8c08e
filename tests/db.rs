use jiracli::db::{Database, JiraDatabase, MockDB};
use jiracli::error::DbError;
use jiracli::models::{DBState, Epic, Status, Story};

#[test]
fn create_epic_should_work() {
    let mut db = JiraDatabase { database: Box::new(MockDB::new()) };
    let epic = Epic::new("".to_owned(), "".to_owned());

    let result = db.create_epic(epic.clone());

    assert_eq!(result.is_ok(), true);

    let id = result.unwrap();
    let db_state = db.read_db().unwrap();

    let expected_id = 1;

    assert_eq!(id, expected_id);
    assert_eq!(db_state.last_item_id, expected_id);
    assert_eq!(db_state.epics.get(&id), Some(&epic));
}

#[test]
fn create_story_should_error_if_invalid_epic_id() {
    let mut db = JiraDatabase { database: Box::new(MockDB::new()) };
    let story = Story::new("".to_owned(), "".to_owned());

    let non_existent_epic_id = 999;

    let result = db.create_story(story, non_existent_epic_id);
    assert_eq!(result.is_err(), true);
}

#[test]
fn create_story_should_work() {
    let mut db = JiraDatabase { database: Box::new(MockDB::new()) };
    let epic = Epic::new("".to_owned(), "".to_owned());
    let story = Story::new("".to_owned(), "".to_owned());

    let result = db.create_epic(epic);
    assert_eq!(result.is_ok(), true);

    let epic_id = result.unwrap();

    let result = db.create_story(story.clone(), epic_id);
    assert_eq!(result.is_ok(), true);

    let id = result.unwrap();
    let db_state = db.read_db().unwrap();

    let expected_id = 2;

    assert_eq!(id, expected_id);
    assert_eq!(db_state.last_item_id, expected_id);
    assert_eq!(db_state.epics.get(&epic_id).unwrap().stories.contains(&id), true);
    assert_eq!(db_state.stories.get(&id), Some(&story));
}

#[test]
fn delete_epic_should_error_if_invalid_epic_id() {
    let mut db = JiraDatabase { database: Box::new(MockDB::new()) };

    let non_existent_epic_id = 999;

    let result = db.delete_epic(non_existent_epic_id);
    assert_eq!(result.is_err(), true);
}

#[test]
fn delete_epic_should_work() {
    let mut db = JiraDatabase { database: Box::new(MockDB::new()) };
    let epic = Epic::new("".to_owned(), "".to_owned());
    let story = Story::new("".to_owned(), "".to_owned());

    let result = db.create_epic(epic);
    assert_eq!(result.is_ok(), true);

    let epic_id = result.unwrap();

    let result = db.create_story(story, epic_id);
    assert_eq!(result.is_ok(), true);

    let story_id = result.unwrap();

    let result = db.delete_epic(epic_id);
    assert_eq!(result.is_ok(), true);

    let db_state = db.read_db().unwrap();

    let expected_last_id = 2;

    assert_eq!(db_state.last_item_id, expected_last_id);
    assert_eq!(db_state.epics.get(&epic_id), None);
    assert_eq!(db_state.stories.get(&story_id), None);
}

#[test]
fn delete_story_should_error_if_invalid_epic_id() {
    let mut db = JiraDatabase { database: Box::new(MockDB::new()) };
    let epic = Epic::new("".to_owned(), "".to_owned());
    let story = Story::new("".to_owned(), "".to_owned());

    let result = db.create_epic(epic);
    assert_eq!(result.is_ok(), true);

    let epic_id = result.unwrap();

    let result = db.create_story(story, epic_id);
    assert_eq!(result.is_ok(), true);

    let story_id = result.unwrap();

    let non_existent_epic_id = 999;

    let result = db.delete_story(non_existent_epic_id, story_id);
    assert_eq!(result.is_err(), true);
}

#[test]
fn delete_story_should_error_if_story_not_found_in_epic() {
    let mut db = JiraDatabase { database: Box::new(MockDB::new()) };
    let epic = Epic::new("".to_owned(), "".to_owned());
    let story = Story::new("".to_owned(), "".to_owned());

    let result = db.create_epic(epic);
    assert_eq!(result.is_ok(), true);

    let epic_id = result.unwrap();

    let result = db.create_story(story, epic_id);
    assert_eq!(result.is_ok(), true);

    let non_existent_story_id = 999;

    let result = db.delete_story(epic_id, non_existent_story_id);
    assert_eq!(result.is_err(), true);
}

#[test]
fn delete_story_should_work() {
    let mut db = JiraDatabase { database: Box::new(MockDB::new()) };
    let epic = Epic::new("".to_owned(), "".to_owned());
    let story = Story::new("".to_owned(), "".to_owned());

    let result = db.create_epic(epic);
    assert_eq!(result.is_ok(), true);

    let epic_id = result.unwrap();

    let result = db.create_story(story, epic_id);
    assert_eq!(result.is_ok(), true);

    let story_id = result.unwrap();

    let result = db.delete_story(epic_id, story_id);
    assert_eq!(result.is_ok(), true);

    let db_state = db.read_db().unwrap();

    let expected_last_id = 2;

    assert_eq!(db_state.last_item_id, expected_last_id);
    assert_eq!(db_state.epics.get(&epic_id).unwrap().stories.contains(&story_id), false);
    assert_eq!(db_state.stories.get(&story_id), None);
}

#[test]
fn update_epic_status_should_error_if_invalid_epic_id() {
    let mut db = JiraDatabase { database: Box::new(MockDB::new()) };

    let non_existent_epic_id = 999;

    let result = db.update_epic_status(non_existent_epic_id, Status::Closed);
    assert_eq!(result.is_err(), true);
}

#[test]
fn update_epic_status_should_work() {
    let mut db = JiraDatabase { database: Box::new(MockDB::new()) };
    let epic = Epic::new("".to_owned(), "".to_owned());

    let result = db.create_epic(epic);

    assert_eq!(result.is_ok(), true);

    let epic_id = result.unwrap();

    let result = db.update_epic_status(epic_id, Status::Closed);

    assert_eq!(result.is_ok(), true);

    let db_state = db.read_db().unwrap();

    assert_eq!(db_state.epics.get(&epic_id).unwrap().status, Status::Closed);
}

#[test]
fn update_story_status_should_error_if_invalid_story_id() {
    let mut db = JiraDatabase { database: Box::new(MockDB::new()) };

    let non_existent_story_id = 999;

    let result = db.update_story_status(non_existent_story_id, Status::Closed);
    assert_eq!(result.is_err(), true);
}

#[test]
fn update_story_status_should_work() {
    let mut db = JiraDatabase { database: Box::new(MockDB::new()) };
    let epic = Epic::new("".to_owned(), "".to_owned());
    let story = Story::new("".to_owned(), "".to_owned());

    let result = db.create_epic(epic);

    let epic_id = result.unwrap();

    let result = db.create_story(story, epic_id);

    let story_id = result.unwrap();

    let result = db.update_story_status(story_id, Status::Closed);

    assert_eq!(result.is_ok(), true);

    let db_state = db.read_db().unwrap();

    assert_eq!(db_state.stories.get(&story_id).unwrap().status, Status::Closed);
}

// The full scenario: ids grow by one and are never reused after a deletion.
#[test]
fn ids_are_issued_in_sequence_and_never_reused() {
    let mut db = JiraDatabase::new(MockDB::new());
    let epic_id = db.create_epic(Epic::new("Epic1".to_owned(), "desc".to_owned())).unwrap();
    assert_eq!(epic_id, 1);
    assert_eq!(db.read_db().unwrap().last_item_id, 1);

    let story_id = db.create_story(Story::new("Story1".to_owned(), "desc".to_owned()), 1).unwrap();
    assert_eq!(story_id, 2);
    assert_eq!(db.read_db().unwrap().epics.get(&1).unwrap().stories, vec![2]);

    db.delete_epic(1).unwrap();
    let state = db.read_db().unwrap();
    assert!(state.epics.is_empty());
    assert!(state.stories.is_empty());
    assert_eq!(state.last_item_id, 2);

    assert_eq!(db.create_epic(Epic::new("Epic2".to_owned(), "".to_owned())), Ok(3));
}

#[test]
fn epics_created_in_a_row_get_consecutive_ids() {
    let mut db = JiraDatabase::new(MockDB::new());
    for expected in 1..=5u32 {
        let id = db.create_epic(Epic::new(format!("e{}", expected), "".to_owned())).unwrap();
        assert_eq!(id, expected);
        assert_eq!(db.read_db().unwrap().last_item_id, id);
    }
}

#[test]
fn failed_story_creation_leaves_the_state() {
    let mut db = JiraDatabase::new(MockDB::new());
    db.create_epic(Epic::new("a".to_owned(), "".to_owned())).unwrap();
    let before = db.read_db().unwrap();
    assert_eq!(
        db.create_story(Story::new("s".to_owned(), "".to_owned()), 7),
        Err(DbError::InvalidEpicId)
    );
    assert_eq!(db.read_db().unwrap(), before);
    assert_eq!(db.read_db().unwrap().last_item_id, 1);
}

#[test]
fn deleting_a_story_touches_nothing_else() {
    let mut db = JiraDatabase::new(MockDB::new());
    let e1 = db.create_epic(Epic::new("a".to_owned(), "".to_owned())).unwrap();
    let e2 = db.create_epic(Epic::new("b".to_owned(), "".to_owned())).unwrap();
    let s1 = db.create_story(Story::new("s1".to_owned(), "".to_owned()), e1).unwrap();
    let s2 = db.create_story(Story::new("s2".to_owned(), "".to_owned()), e1).unwrap();
    let s3 = db.create_story(Story::new("s3".to_owned(), "".to_owned()), e2).unwrap();
    db.delete_story(e1, s1).unwrap();
    let state = db.read_db().unwrap();
    assert_eq!(state.epics.get(&e1).unwrap().stories, vec![s2]);
    assert_eq!(state.epics.get(&e2).unwrap().stories, vec![s3]);
    assert!(state.stories.get(&s1).is_none());
    assert_eq!(state.stories.get(&s2).unwrap().name, "s2");
    assert_eq!(state.stories.get(&s3).unwrap().name, "s3");
    assert_eq!(state.last_item_id, 5);
}

#[test]
fn deleting_a_story_checks_story_before_epic() {
    let mut db = JiraDatabase::new(MockDB::new());
    assert_eq!(db.delete_story(1, 2), Err(DbError::InvalidStoryId));
}

#[test]
fn status_updates_keep_names_and_lists() {
    let mut db = JiraDatabase::new(MockDB::new());
    let e = db.create_epic(Epic::new("name".to_owned(), "desc".to_owned())).unwrap();
    let s = db.create_story(Story::new("sn".to_owned(), "sd".to_owned()), e).unwrap();
    db.update_epic_status(e, Status::Resolved).unwrap();
    db.update_story_status(s, Status::InProgress).unwrap();
    let state = db.read_db().unwrap();
    let epic = state.epics.get(&e).unwrap();
    assert_eq!(
        (epic.name.as_str(), epic.description.as_str(), epic.status, epic.stories.clone()),
        ("name", "desc", Status::Resolved, vec![s])
    );
    let story = state.stories.get(&s).unwrap();
    assert_eq!(
        (story.name.as_str(), story.description.as_str(), story.status),
        ("sn", "sd", Status::InProgress)
    );
}

#[test]
fn deleting_an_epic_that_lists_a_missing_story_is_refused() {
    let mut state = DBState::new();
    let id = state.create_epic(Epic::new("a".to_owned(), "".to_owned())).unwrap();
    state.epics.get_mut(&id).unwrap().stories.push(40);
    let before = state.clone();
    assert_eq!(state.delete_epic(id), Err(DbError::IntegrityViolation));
    assert_eq!(state, before);
}

#[test]
fn ids_run_out_at_the_top_of_the_counter() {
    let mut state = DBState::new();
    state.last_item_id = u32::MAX;
    assert_eq!(state.create_epic(Epic::new("a".to_owned(), "".to_owned())), Err(DbError::IdsExhausted));
    assert!(state.epics.is_empty());
    state.last_item_id = u32::MAX - 1;
    let id = state.create_epic(Epic::new("a".to_owned(), "".to_owned())).unwrap();
    assert_eq!(id, u32::MAX);
    assert_eq!(
        state.create_story(Story::new("s".to_owned(), "".to_owned()), id),
        Err(DbError::IdsExhausted)
    );
}

#[test]
fn mock_store_reads_back_what_was_written() {
    let mut store = MockDB::new();
    let mut state = DBState::new();
    let e = state.create_epic(Epic::new("epic 1".to_owned(), "epic 1".to_owned())).unwrap();
    state.create_story(Story::new("story".to_owned(), "d".to_owned()), e).unwrap();
    store.write_db(&state).unwrap();
    assert_eq!(store.read_db().unwrap(), state);
}

/// A store that can never be read nor written.
struct BrokenStore {}

impl Database for BrokenStore {
    fn read_db(&self) -> Result<DBState, DbError> {
        Err(DbError::Store("unreadable".to_owned()))
    }

    fn write_db(&mut self, _db_state: &DBState) -> Result<(), DbError> {
        Err(DbError::Store("read-only".to_owned()))
    }
}

#[test]
fn store_failures_come_back_unchanged() {
    let mut db = JiraDatabase::new(BrokenStore {});
    assert_eq!(db.read_db(), Err(DbError::Store("unreadable".to_owned())));
    assert_eq!(
        db.create_epic(Epic::new("a".to_owned(), "".to_owned())),
        Err(DbError::Store("unreadable".to_owned()))
    );
    assert_eq!(db.delete_epic(1), Err(DbError::Store("unreadable".to_owned())));
}
