//! The navigator: a stack of pages, and the dispatch of each action onto the
//! stack and the repository.
use crate::db::{Database, JiraDatabase, is_rule_error};
use crate::error::DbError;
use crate::models::{Action, Epic, Status, Story};
use crate::input::{id_value, parse_id};
use crate::pages::{EpicDetail, HomePage, Screen, StoryDetail, is_letter};
use vstd::prelude::*;

verus! {

/// The interactive questions that some actions need answered: the fields of
/// a new epic or story, a confirmation before a deletion, and a new status
/// (`None` when the answer names no status).
pub trait Prompts {
    fn create_epic(&self) -> Epic;

    fn create_story(&self) -> Story;

    fn delete_epic(&self) -> bool;

    fn delete_story(&self) -> bool;

    fn update_status(&self) -> Option<Status>;
}

/// The status that a reply to the status question names: 1 to 4 stand for
/// open, in progress, resolved and closed.
pub open spec fn status_choice(reply: Seq<char>) -> Option<Status> {
    match id_value(reply) {
        Some(1) => Some(Status::Open),
        Some(2) => Some(Status::InProgress),
        Some(3) => Some(Status::Resolved),
        Some(4) => Some(Status::Closed),
        _ => None,
    }
}

/// Reads a reply to the status question, see `status_choice`.
pub fn parse_status_choice(reply: &str) -> (r: Option<Status>)
    ensures
        r == status_choice(reply@),
{
    match parse_id(reply) {
        Some(1) => Some(Status::Open),
        Some(2) => Some(Status::InProgress),
        Some(3) => Some(Status::Resolved),
        Some(4) => Some(Status::Closed),
        _ => None,
    }
}

/// Whether a reply confirms a deletion: exactly `Y`.
pub fn is_confirmation(reply: &str) -> (r: bool)
    ensures
        r == (reply@ == seq!['Y']),
{
    is_letter(reply, 'Y')
}

/// The stack without its top page; an empty stack stays empty.
pub open spec fn popped(pages: Seq<Screen>) -> Seq<Screen> {
    if pages.len() > 0 {
        pages.drop_last()
    } else {
        pages
    }
}

/// The stack after `action`, for the actions that change it.
pub open spec fn next_pages(pages: Seq<Screen>, action: Action) -> Seq<Screen> {
    match action {
        Action::NavigateToEpicDetail { epic_id } => pages.push(Screen::Epic(EpicDetail { epic_id })),
        Action::NavigateToStoryDetail { epic_id, story_id } => pages.push(
            Screen::Story(StoryDetail { epic_id, story_id }),
        ),
        Action::NavigateToPreviousPage => popped(pages),
        Action::DeleteEpic { .. } => popped(pages),
        Action::DeleteStory { .. } => popped(pages),
        Action::Exit => Seq::empty(),
        _ => pages,
    }
}

/// Whether `action` is handled by the stack alone, without prompt or store.
pub open spec fn is_navigation(action: Action) -> bool {
    match action {
        Action::NavigateToEpicDetail { .. } => true,
        Action::NavigateToStoryDetail { .. } => true,
        Action::NavigateToPreviousPage => true,
        Action::Exit => true,
        _ => false,
    }
}

/// Owns the page stack, the prompts and the repository. The top of the
/// stack is the current page; an empty stack ends the session.
pub struct Navigator<D: Database, P: Prompts> {
    pages: Vec<Screen>,
    prompts: P,
    db: JiraDatabase<D>,
}

impl<D: Database, P: Prompts> Navigator<D, P> {
    /// The page stack, bottom first.
    pub closed spec fn stack(&self) -> Seq<Screen> {
        self.pages@
    }

    /// The repository the navigator acts on.
    pub closed spec fn repository(&self) -> JiraDatabase<D> {
        self.db
    }

    /// The prompts the navigator asks.
    pub closed spec fn questions(&self) -> P {
        self.prompts
    }

    /// A navigator on the home page.
    pub fn new(db: JiraDatabase<D>, prompts: P) -> (r: Self)
        ensures
            r.stack() == seq![Screen::Home(HomePage {  })],
            r.repository() == db,
            r.questions() == prompts,
    {
        let mut pages: Vec<Screen> = Vec::new();
        pages.push(Screen::Home(HomePage {  }));
        Navigator { pages, prompts, db }
    }

    /// The page on top of the stack, if any.
    pub fn get_current_page(&self) -> (r: Option<&Screen>)
        ensures
            r is None <==> self.stack().len() == 0,
            r matches Some(p) ==> *p == self.stack().last(),
    {
        if self.pages.len() == 0 {
            return None;
        }
        Some(&self.pages[self.pages.len() - 1])
    }

    /// How many pages the stack holds.
    pub fn get_page_count(&self) -> (r: usize)
        ensures
            r == self.stack().len(),
    {
        self.pages.len()
    }

    /// Replaces the prompts.
    pub fn set_prompts(&mut self, prompts: P)
        ensures
            final(self).questions() == prompts,
            final(self).stack() == old(self).stack(),
            final(self).repository() == old(self).repository(),
    {
        self.prompts = prompts;
    }

    /// The repository, for reading.
    pub fn db(&self) -> (r: &JiraDatabase<D>)
        ensures
            *r == self.repository(),
    {
        &self.db
    }

    fn pop_page(&mut self)
        ensures
            final(self).stack() == popped(old(self).stack()),
            final(self).repository() == old(self).repository(),
            final(self).questions() == old(self).questions(),
    {
        if self.pages.len() > 0 {
            self.pages.pop();
        }
    }

    /// Creates the epic that the prompts describe.
    fn ask_and_create_epic(&mut self) -> (r: Result<(), DbError>)
        ensures
            final(self).stack() == old(self).stack(),
            final(self).questions() == old(self).questions(),
            r matches Err(e) ==> (is_rule_error(e) ==> final(self).repository() == old(
                self
            ).repository()),
            exists|epic: Epic, m: &mut JiraDatabase<D>, res: Result<u32, DbError>|
                call_ensures(<P as Prompts>::create_epic, (&old(self).questions(),), epic)
                    && mut_ref_current(m) == old(self).repository() && mut_ref_future(m)
                    == final(self).repository() && call_ensures(
                    JiraDatabase::<D>::create_epic,
                    (m, epic),
                    res,
                ) && (r is Ok <==> res is Ok) && (r is Err ==> r->Err_0 == res->Err_0),
    {
        let epic = self.prompts.create_epic();
        let repo: &mut JiraDatabase<D> = &mut self.db;
        match JiraDatabase::create_epic(repo, epic) {
            Ok(_) => Ok(()),
            Err(e) => Err(e),
        }
    }

    /// Creates the story that the prompts describe in epic `epic_id`.
    fn ask_and_create_story(&mut self, epic_id: u32) -> (r: Result<(), DbError>)
        ensures
            final(self).stack() == old(self).stack(),
            final(self).questions() == old(self).questions(),
            r matches Err(e) ==> (is_rule_error(e) ==> final(self).repository() == old(
                self
            ).repository()),
            exists|story: Story, m: &mut JiraDatabase<D>, res: Result<u32, DbError>|
                call_ensures(<P as Prompts>::create_story, (&old(self).questions(),), story)
                    && mut_ref_current(m) == old(self).repository() && mut_ref_future(m)
                    == final(self).repository() && call_ensures(
                    JiraDatabase::<D>::create_story,
                    (m, story, epic_id),
                    res,
                ) && (r is Ok <==> res is Ok) && (r is Err ==> r->Err_0 == res->Err_0),
    {
        let story = self.prompts.create_story();
        let repo: &mut JiraDatabase<D> = &mut self.db;
        match JiraDatabase::create_story(repo, story, epic_id) {
            Ok(_) => Ok(()),
            Err(e) => Err(e),
        }
    }

    /// Sets the status of epic `epic_id` to the one the prompts name, if any.
    fn ask_and_update_epic(&mut self, epic_id: u32) -> (r: Result<(), DbError>)
        ensures
            final(self).stack() == old(self).stack(),
            final(self).questions() == old(self).questions(),
            r matches Err(e) ==> (is_rule_error(e) ==> final(self).repository() == old(
                self
            ).repository()),
            exists|answer: Option<Status>|
                call_ensures(<P as Prompts>::update_status, (&old(self).questions(),), answer) && (
                answer is None ==> r is Ok && final(self).repository() == old(self).repository())
                    && (answer matches Some(status) ==> exists|
                    m: &mut JiraDatabase<D>,
                    res: Result<(), DbError>,
                |
                    mut_ref_current(m) == old(self).repository() && mut_ref_future(m) == final(
                        self
                    ).repository()
                        && call_ensures(JiraDatabase::<D>::update_epic_status, (m, epic_id, status), res)
                        && r == res),
    {
        let answer = self.prompts.update_status();
        assert(call_ensures(<P as Prompts>::update_status, (&old(self).questions(),), answer));
        match answer {
            Some(status) => {
                let repo: &mut JiraDatabase<D> = &mut self.db;
                let res = JiraDatabase::update_epic_status(repo, epic_id, status);
                assert(exists|m: &mut JiraDatabase<D>, done: Result<(), DbError>|
                    mut_ref_current(m) == old(self).repository() && mut_ref_future(m) == self.db
                        && call_ensures(JiraDatabase::<D>::update_epic_status, (m, epic_id, status), done)
                        && res == done);
                res
            },
            None => Ok(()),
        }
    }

    /// Sets the status of story `story_id` to the one the prompts name, if any.
    fn ask_and_update_story(&mut self, story_id: u32) -> (r: Result<(), DbError>)
        ensures
            final(self).stack() == old(self).stack(),
            final(self).questions() == old(self).questions(),
            r matches Err(e) ==> (is_rule_error(e) ==> final(self).repository() == old(
                self
            ).repository()),
            exists|answer: Option<Status>|
                call_ensures(<P as Prompts>::update_status, (&old(self).questions(),), answer) && (
                answer is None ==> r is Ok && final(self).repository() == old(self).repository())
                    && (answer matches Some(status) ==> exists|
                    m: &mut JiraDatabase<D>,
                    res: Result<(), DbError>,
                |
                    mut_ref_current(m) == old(self).repository() && mut_ref_future(m) == final(
                        self
                    ).repository()
                        && call_ensures(JiraDatabase::<D>::update_story_status, (m, story_id, status), res)
                        && r == res),
    {
        let answer = self.prompts.update_status();
        assert(call_ensures(<P as Prompts>::update_status, (&old(self).questions(),), answer));
        match answer {
            Some(status) => {
                let repo: &mut JiraDatabase<D> = &mut self.db;
                let res = JiraDatabase::update_story_status(repo, story_id, status);
                assert(exists|m: &mut JiraDatabase<D>, done: Result<(), DbError>|
                    mut_ref_current(m) == old(self).repository() && mut_ref_future(m) == self.db
                        && call_ensures(JiraDatabase::<D>::update_story_status, (m, story_id, status), done)
                        && res == done);
                res
            },
            None => Ok(()),
        }
    }

    /// Deletes epic `epic_id` if the prompts confirm it, and leaves the page.
    fn confirm_and_delete_epic(&mut self, epic_id: u32) -> (r: Result<(), DbError>)
        ensures
            final(self).stack() == popped(old(self).stack()),
            final(self).questions() == old(self).questions(),
            r matches Err(e) ==> (is_rule_error(e) ==> final(self).repository() == old(
                self
            ).repository()),
            exists|yes: bool|
                call_ensures(<P as Prompts>::delete_epic, (&old(self).questions(),), yes) && (!yes
                    ==> r is Ok && final(self).repository() == old(self).repository()) && (yes
                    ==> exists|m: &mut JiraDatabase<D>, res: Result<(), DbError>|
                    mut_ref_current(m) == old(self).repository() && mut_ref_future(m) == final(
                        self
                    ).repository()
                        && call_ensures(JiraDatabase::<D>::delete_epic, (m, epic_id), res) && r == res),
    {
        let r = if self.prompts.delete_epic() {
            let repo: &mut JiraDatabase<D> = &mut self.db;
            JiraDatabase::delete_epic(repo, epic_id)
        } else {
            Ok(())
        };
        self.pop_page();
        r
    }

    /// Deletes story `story_id` if the prompts confirm it, and leaves the page.
    fn confirm_and_delete_story(&mut self, epic_id: u32, story_id: u32) -> (r: Result<(), DbError>)
        ensures
            final(self).stack() == popped(old(self).stack()),
            final(self).questions() == old(self).questions(),
            r matches Err(e) ==> (is_rule_error(e) ==> final(self).repository() == old(
                self
            ).repository()),
            exists|yes: bool|
                call_ensures(<P as Prompts>::delete_story, (&old(self).questions(),), yes) && (!yes
                    ==> r is Ok && final(self).repository() == old(self).repository()) && (yes
                    ==> exists|m: &mut JiraDatabase<D>, res: Result<(), DbError>|
                    mut_ref_current(m) == old(self).repository() && mut_ref_future(m) == final(
                        self
                    ).repository()
                        && call_ensures(JiraDatabase::<D>::delete_story, (m, epic_id, story_id), res) && r == res),
    {
        let r = if self.prompts.delete_story() {
            let repo: &mut JiraDatabase<D> = &mut self.db;
            JiraDatabase::delete_story(repo, epic_id, story_id)
        } else {
            Ok(())
        };
        self.pop_page();
        r
    }

    /// Carries out `action`. Navigation changes the stack only. Creating and
    /// updating ask the prompts, hand the answer to the repository, and leave
    /// the stack; an update without an answered status does nothing. Deleting
    /// asks for confirmation, deletes only when it is given, and leaves the
    /// current page in every case, also when the repository refuses. The
    /// repository's result is returned.
    pub fn handle_action(&mut self, action: Action) -> (r: Result<(), DbError>)
        ensures
            final(self).stack() == next_pages(old(self).stack(), action),
            final(self).questions() == old(self).questions(),
            is_navigation(action) ==> r is Ok && final(self).repository() == old(self).repository(),
            r matches Err(e) ==> (is_rule_error(e) ==> final(self).repository() == old(
                self
            ).repository()),
            action is CreateEpic ==> exists|epic: Epic, m: &mut JiraDatabase<D>, res: Result<u32, DbError>|
                call_ensures(<P as Prompts>::create_epic, (&old(self).questions(),), epic)
                    && mut_ref_current(m) == old(self).repository() && mut_ref_future(m)
                    == final(self).repository() && call_ensures(
                    JiraDatabase::<D>::create_epic,
                    (m, epic),
                    res,
                ) && (r is Ok <==> res is Ok) && (r is Err ==> r->Err_0 == res->Err_0),
            action matches Action::CreateStory { epic_id } ==> exists|story: Story, m: &mut JiraDatabase<D>, res: Result<u32, DbError>|
                call_ensures(<P as Prompts>::create_story, (&old(self).questions(),), story)
                    && mut_ref_current(m) == old(self).repository() && mut_ref_future(m)
                    == final(self).repository() && call_ensures(
                    JiraDatabase::<D>::create_story,
                    (m, story, epic_id),
                    res,
                ) && (r is Ok <==> res is Ok) && (r is Err ==> r->Err_0 == res->Err_0),
            action matches Action::UpdateEpicStatus { epic_id } ==> exists|answer: Option<Status>|
                call_ensures(<P as Prompts>::update_status, (&old(self).questions(),), answer) && (
                answer is None ==> r is Ok && final(self).repository() == old(self).repository())
                    && (answer matches Some(status) ==> exists|
                    m: &mut JiraDatabase<D>,
                    res: Result<(), DbError>,
                |
                    mut_ref_current(m) == old(self).repository() && mut_ref_future(m) == final(
                        self
                    ).repository()
                        && call_ensures(JiraDatabase::<D>::update_epic_status, (m, epic_id, status), res)
                        && r == res),
            action matches Action::UpdateStoryStatus { story_id } ==> exists|answer: Option<Status>|
                call_ensures(<P as Prompts>::update_status, (&old(self).questions(),), answer) && (
                answer is None ==> r is Ok && final(self).repository() == old(self).repository())
                    && (answer matches Some(status) ==> exists|
                    m: &mut JiraDatabase<D>,
                    res: Result<(), DbError>,
                |
                    mut_ref_current(m) == old(self).repository() && mut_ref_future(m) == final(
                        self
                    ).repository()
                        && call_ensures(JiraDatabase::<D>::update_story_status, (m, story_id, status), res)
                        && r == res),
            action matches Action::DeleteEpic { epic_id } ==> exists|yes: bool|
                call_ensures(<P as Prompts>::delete_epic, (&old(self).questions(),), yes) && (!yes
                    ==> r is Ok && final(self).repository() == old(self).repository()) && (yes
                    ==> exists|m: &mut JiraDatabase<D>, res: Result<(), DbError>|
                    mut_ref_current(m) == old(self).repository() && mut_ref_future(m) == final(
                        self
                    ).repository()
                        && call_ensures(JiraDatabase::<D>::delete_epic, (m, epic_id), res) && r == res),
            action matches Action::DeleteStory { epic_id, story_id } ==> exists|yes: bool|
                call_ensures(<P as Prompts>::delete_story, (&old(self).questions(),), yes) && (!yes
                    ==> r is Ok && final(self).repository() == old(self).repository()) && (yes
                    ==> exists|m: &mut JiraDatabase<D>, res: Result<(), DbError>|
                    mut_ref_current(m) == old(self).repository() && mut_ref_future(m) == final(
                        self
                    ).repository()
                        && call_ensures(JiraDatabase::<D>::delete_story, (m, epic_id, story_id), res) && r == res),
    {
        match action {
            Action::NavigateToEpicDetail { epic_id } => {
                self.pages.push(Screen::Epic(EpicDetail { epic_id }));
                Ok(())
            },
            Action::NavigateToStoryDetail { epic_id, story_id } => {
                self.pages.push(Screen::Story(StoryDetail { epic_id, story_id }));
                Ok(())
            },
            Action::NavigateToPreviousPage => {
                self.pop_page();
                Ok(())
            },
            Action::CreateEpic => self.ask_and_create_epic(),
            Action::UpdateEpicStatus { epic_id } => self.ask_and_update_epic(epic_id),
            Action::DeleteEpic { epic_id } => self.confirm_and_delete_epic(epic_id),
            Action::CreateStory { epic_id } => self.ask_and_create_story(epic_id),
            Action::UpdateStoryStatus { story_id } => self.ask_and_update_story(story_id),
            Action::DeleteStory { epic_id, story_id } => self.confirm_and_delete_story(
                epic_id,
                story_id,
            ),
            Action::Exit => {
                self.pages.clear();
                Ok(())
            },
        }
    }
}

} // verus!
