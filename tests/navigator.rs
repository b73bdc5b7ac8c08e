use jiracli::db::{JiraDatabase, MockDB};
use jiracli::error::DbError;
use jiracli::models::{Action, Epic, Status, Story};
use jiracli::navigator::{is_confirmation, parse_status_choice, Navigator, Prompts};
use jiracli::pages::{Page, Screen};

/// Prompts that give fixed answers.
#[derive(Clone)]
struct FixedPrompts {
    epic: (String, String),
    story: (String, String),
    confirm_epic: bool,
    confirm_story: bool,
    status: Option<Status>,
}

impl FixedPrompts {
    fn new() -> Self {
        FixedPrompts {
            epic: (String::new(), String::new()),
            story: (String::new(), String::new()),
            confirm_epic: false,
            confirm_story: false,
            status: None,
        }
    }
}

impl Prompts for FixedPrompts {
    fn create_epic(&self) -> Epic {
        Epic::new(self.epic.0.clone(), self.epic.1.clone())
    }

    fn create_story(&self) -> Story {
        Story::new(self.story.0.clone(), self.story.1.clone())
    }

    fn delete_epic(&self) -> bool {
        self.confirm_epic
    }

    fn delete_story(&self) -> bool {
        self.confirm_story
    }

    fn update_status(&self) -> Option<Status> {
        self.status
    }
}

fn new_db() -> JiraDatabase<MockDB> {
    JiraDatabase { database: Box::new(MockDB::new()) }
}

#[test]
fn should_start_on_home_page() {
    let db = new_db();
    let nav = Navigator::new(db, FixedPrompts::new());

    assert_eq!(nav.get_page_count(), 1);

    let current_page = nav.get_current_page().unwrap();
    let home_page = matches!(current_page, Screen::Home(_));

    assert_eq!(home_page, true);
}

#[test]
fn handle_action_should_navigate_pages() {
    let db = new_db();

    let mut nav = Navigator::new(db, FixedPrompts::new());

    nav.handle_action(Action::NavigateToEpicDetail { epic_id: 1 }).unwrap();
    assert_eq!(nav.get_page_count(), 2);

    let current_page = nav.get_current_page().unwrap();
    let epic_detail_page = matches!(current_page, Screen::Epic(_));
    assert_eq!(epic_detail_page, true);

    nav.handle_action(Action::NavigateToStoryDetail { epic_id: 1, story_id: 2 }).unwrap();
    assert_eq!(nav.get_page_count(), 3);

    let current_page = nav.get_current_page().unwrap();
    let story_detail_page = matches!(current_page, Screen::Story(_));
    assert_eq!(story_detail_page, true);

    nav.handle_action(Action::NavigateToPreviousPage).unwrap();
    assert_eq!(nav.get_page_count(), 2);

    let current_page = nav.get_current_page().unwrap();
    let epic_detail_page = matches!(current_page, Screen::Epic(_));
    assert_eq!(epic_detail_page, true);

    nav.handle_action(Action::NavigateToPreviousPage).unwrap();
    assert_eq!(nav.get_page_count(), 1);

    let current_page = nav.get_current_page().unwrap();
    let home_page = matches!(current_page, Screen::Home(_));
    assert_eq!(home_page, true);

    nav.handle_action(Action::NavigateToPreviousPage).unwrap();
    assert_eq!(nav.get_page_count(), 0);

    nav.handle_action(Action::NavigateToPreviousPage).unwrap();
    assert_eq!(nav.get_page_count(), 0);
}

#[test]
fn handle_action_should_clear_pages_on_exit() {
    let db = new_db();

    let mut nav = Navigator::new(db, FixedPrompts::new());

    nav.handle_action(Action::NavigateToEpicDetail { epic_id: 1 }).unwrap();
    nav.handle_action(Action::NavigateToStoryDetail { epic_id: 1, story_id: 2 }).unwrap();
    nav.handle_action(Action::Exit).unwrap();

    assert_eq!(nav.get_page_count(), 0);
    assert!(nav.get_current_page().is_none());
}

#[test]
fn handle_action_should_handle_create_epic() {
    let db = new_db();

    let mut nav = Navigator::new(db, FixedPrompts::new());

    let mut prompts = FixedPrompts::new();
    prompts.epic = ("name".to_owned(), "description".to_owned());

    nav.set_prompts(prompts);

    nav.handle_action(Action::CreateEpic).unwrap();

    let db_state = nav.db().read_db().unwrap();
    assert_eq!(db_state.epics.len(), 1);

    let epic = db_state.epics.into_iter().next().unwrap().1;
    assert_eq!(epic.name, "name".to_owned());
    assert_eq!(epic.description, "description".to_owned());
}

#[test]
fn handle_action_should_handle_update_epic() {
    let mut db = new_db();
    let epic_id = db.create_epic(Epic::new("".to_owned(), "".to_owned())).unwrap();

    let mut nav = Navigator::new(db, FixedPrompts::new());

    let mut prompts = FixedPrompts::new();
    prompts.status = Some(Status::InProgress);

    nav.set_prompts(prompts);

    nav.handle_action(Action::UpdateEpicStatus { epic_id }).unwrap();

    let db_state = nav.db().read_db().unwrap();
    assert_eq!(db_state.epics.get(&epic_id).unwrap().status, Status::InProgress);
}

#[test]
fn handle_action_should_handle_delete_epic() {
    let mut db = new_db();
    let epic_id = db.create_epic(Epic::new("".to_owned(), "".to_owned())).unwrap();

    let mut nav = Navigator::new(db, FixedPrompts::new());

    let mut prompts = FixedPrompts::new();
    prompts.confirm_epic = true;

    nav.set_prompts(prompts);

    nav.handle_action(Action::DeleteEpic { epic_id }).unwrap();

    let db_state = nav.db().read_db().unwrap();
    assert_eq!(db_state.epics.len(), 0);
}

#[test]
fn handle_action_should_handle_create_story() {
    let mut db = new_db();
    let epic_id = db.create_epic(Epic::new("".to_owned(), "".to_owned())).unwrap();

    let mut nav = Navigator::new(db, FixedPrompts::new());

    let mut prompts = FixedPrompts::new();
    prompts.story = ("name".to_owned(), "description".to_owned());

    nav.set_prompts(prompts);

    nav.handle_action(Action::CreateStory { epic_id }).unwrap();

    let db_state = nav.db().read_db().unwrap();
    assert_eq!(db_state.stories.len(), 1);

    let story = db_state.stories.into_iter().next().unwrap().1;
    assert_eq!(story.name, "name".to_owned());
    assert_eq!(story.description, "description".to_owned());
}

#[test]
fn handle_action_should_handle_update_story() {
    let mut db = new_db();
    let epic_id = db.create_epic(Epic::new("".to_owned(), "".to_owned())).unwrap();
    let story_id = db.create_story(Story::new("".to_owned(), "".to_owned()), epic_id).unwrap();

    let mut nav = Navigator::new(db, FixedPrompts::new());

    let mut prompts = FixedPrompts::new();
    prompts.status = Some(Status::InProgress);

    nav.set_prompts(prompts);

    nav.handle_action(Action::UpdateStoryStatus { story_id }).unwrap();

    let db_state = nav.db().read_db().unwrap();
    assert_eq!(db_state.stories.get(&story_id).unwrap().status, Status::InProgress);
}

#[test]
fn handle_action_should_handle_delete_story() {
    let mut db = new_db();
    let epic_id = db.create_epic(Epic::new("".to_owned(), "".to_owned())).unwrap();
    let story_id = db.create_story(Story::new("".to_owned(), "".to_owned()), epic_id).unwrap();

    let mut nav = Navigator::new(db, FixedPrompts::new());

    let mut prompts = FixedPrompts::new();
    prompts.confirm_story = true;

    nav.set_prompts(prompts);

    nav.handle_action(Action::DeleteStory { epic_id, story_id }).unwrap();

    let db_state = nav.db().read_db().unwrap();
    assert_eq!(db_state.stories.len(), 0);
}

// Home page input drives the stack: junk does nothing, an epic id opens the
// epic, "p" goes back.
#[test]
fn home_input_drives_the_page_stack() {
    let mut db = new_db();
    let epic_id = db.create_epic(Epic::new("Epic1".to_owned(), "desc".to_owned())).unwrap();
    let mut nav = Navigator::new(db, FixedPrompts::new());

    let action = nav.get_current_page().unwrap().handle_input(nav.db(), "abc").unwrap();
    assert_eq!(action, None);
    assert_eq!(nav.get_page_count(), 1);

    let action = nav.get_current_page().unwrap().handle_input(nav.db(), &epic_id.to_string()).unwrap();
    assert_eq!(action, Some(Action::NavigateToEpicDetail { epic_id }));
    nav.handle_action(action.unwrap()).unwrap();
    assert_eq!(nav.get_page_count(), 2);
    assert!(matches!(nav.get_current_page(), Some(Screen::Epic(p)) if p.epic_id == epic_id));

    let action = nav.get_current_page().unwrap().handle_input(nav.db(), "p").unwrap();
    assert_eq!(action, Some(Action::NavigateToPreviousPage));
    nav.handle_action(action.unwrap()).unwrap();
    assert_eq!(nav.get_page_count(), 1);
    assert!(matches!(nav.get_current_page(), Some(Screen::Home(_))));
}

// A declined deletion still leaves the current page, and deletes nothing.
#[test]
fn declined_delete_story_still_pops_the_page() {
    let mut db = new_db();
    let epic_id = db.create_epic(Epic::new("".to_owned(), "".to_owned())).unwrap();
    let story_id = db.create_story(Story::new("".to_owned(), "".to_owned()), epic_id).unwrap();
    let mut nav = Navigator::new(db, FixedPrompts::new());
    nav.handle_action(Action::NavigateToEpicDetail { epic_id }).unwrap();
    nav.handle_action(Action::NavigateToStoryDetail { epic_id, story_id }).unwrap();
    assert_eq!(nav.get_page_count(), 3);

    nav.handle_action(Action::DeleteStory { epic_id, story_id }).unwrap();

    assert_eq!(nav.get_page_count(), 2);
    assert!(matches!(nav.get_current_page(), Some(Screen::Epic(_))));
    assert_eq!(nav.db().read_db().unwrap().stories.len(), 1);
}

#[test]
fn declined_delete_epic_still_pops_the_page() {
    let mut db = new_db();
    let epic_id = db.create_epic(Epic::new("".to_owned(), "".to_owned())).unwrap();
    let mut nav = Navigator::new(db, FixedPrompts::new());
    nav.handle_action(Action::NavigateToEpicDetail { epic_id }).unwrap();
    nav.handle_action(Action::DeleteEpic { epic_id }).unwrap();
    assert_eq!(nav.get_page_count(), 1);
    assert_eq!(nav.db().read_db().unwrap().epics.len(), 1);
}

#[test]
fn failed_delete_pops_the_page_and_reports_the_error() {
    let mut prompts = FixedPrompts::new();
    prompts.confirm_epic = true;
    let mut nav = Navigator::new(new_db(), prompts);
    nav.handle_action(Action::NavigateToEpicDetail { epic_id: 5 }).unwrap();
    assert_eq!(nav.handle_action(Action::DeleteEpic { epic_id: 5 }), Err(DbError::InvalidEpicId));
    assert_eq!(nav.get_page_count(), 1);
}

#[test]
fn unanswered_status_prompt_changes_nothing() {
    let mut db = new_db();
    let epic_id = db.create_epic(Epic::new("".to_owned(), "".to_owned())).unwrap();
    let mut nav = Navigator::new(db, FixedPrompts::new());
    nav.handle_action(Action::UpdateEpicStatus { epic_id }).unwrap();
    assert_eq!(nav.db().read_db().unwrap().epics.get(&epic_id).unwrap().status, Status::Open);
    assert_eq!(
        nav.handle_action(Action::CreateStory { epic_id: 42 }),
        Err(DbError::InvalidEpicId)
    );
    assert_eq!(nav.get_page_count(), 1);
}

#[test]
fn status_replies_name_the_four_statuses() {
    assert_eq!(parse_status_choice("1"), Some(Status::Open));
    assert_eq!(parse_status_choice("2"), Some(Status::InProgress));
    assert_eq!(parse_status_choice("3"), Some(Status::Resolved));
    assert_eq!(parse_status_choice("4"), Some(Status::Closed));
    assert_eq!(parse_status_choice("0"), None);
    assert_eq!(parse_status_choice("5"), None);
    assert_eq!(parse_status_choice("256"), None);
    assert_eq!(parse_status_choice("open"), None);
    assert_eq!(parse_status_choice(""), None);
}

#[test]
fn only_a_capital_y_confirms() {
    assert!(is_confirmation("Y"));
    assert!(!is_confirmation("y"));
    assert!(!is_confirmation("Yes"));
    assert!(!is_confirmation(""));
}

#[test]
fn statuses_have_labels() {
    assert_eq!(Status::Open.label(), "OPEN");
    assert_eq!(Status::InProgress.label(), "IN PROGRESS");
    assert_eq!(Status::Resolved.label(), "RESOLVED");
    assert_eq!(Status::Closed.label(), "CLOSED");
}
