//! The three pages of the terminal front end: what each shows and how each
//! turns a line of input into an action.
use crate::db::{Database, JiraDatabase, can_read};
use crate::error::DbError;
use crate::input::{id_value, parse_id};
use crate::models::{Action, DBState, Epic, StateView, Status, status_label};
use crate::page_helpers::{cell, decimal_string, decimal_text, make_cell};
use itertools::Itertools;
use vstd::prelude::*;
use vstd::string::{StrSliceExecFns, StringExecFns};

verus! {

pub const HOME_TITLE: &'static str = "----------------------------- EPICS -----------------------------";

pub const LIST_HEADER: &'static str = "     id     |               name               |      status      ";

pub const HOME_FOOTER: &'static str = "[q] quit | [c] create epic | [:id:] navigate to epic";

pub const EPIC_TITLE: &'static str = "------------------------------ EPIC ------------------------------";

pub const DETAIL_HEADER: &'static str = "  id  |     name     |         description         |    status    ";

pub const STORIES_TITLE: &'static str = "---------------------------- STORIES ----------------------------";

pub const EPIC_FOOTER: &'static str = "[p] previous | [u] update epic | [d] delete epic | [c] create story | [:id:] navigate to story\n\n";

pub const STORY_TITLE: &'static str = "------------------------------ STORY ------------------------------";

pub const STORY_FOOTER: &'static str = "[p] previous | [u] update story | [d] delete story";

/// The texts of a list of lines.
pub open spec fn texts(lines: Seq<String>) -> Seq<Seq<char>> {
    lines.map_values(|l: String| l@)
}

/// `ids` lists the keys of `keys` once each, in ascending order.
pub open spec fn ids_in_order(ids: Seq<u32>, keys: Set<u32>) -> bool {
    &&& forall|i: int, j: int| 0 <= i < j < ids.len() ==> ids[i] < ids[j]
    &&& forall|k: u32| keys.contains(k) <==> ids.contains(k)
}

/// A row of a list of items: id, name and status.
pub open spec fn list_row(id: u32, name: Seq<char>, status: Status) -> Seq<char> {
    cell(decimal_text(id as nat), 12) + "| "@ + cell(name, 33) + "| "@ + cell(status_label(status), 17)
}

/// The row that shows one item in full: id, name, description and status.
pub open spec fn detail_row(id: u32, name: Seq<char>, description: Seq<char>, status: Status) -> Seq<
    char,
> {
    cell(decimal_text(id as nat), 6) + "| "@ + cell(name, 13) + "| "@ + cell(description, 28)
        + "| "@ + cell(status_label(status), 13)
}

/// One list row for each of the epics `ids`.
pub open spec fn epic_rows(st: StateView, ids: Seq<u32>) -> Seq<Seq<char>> {
    ids.map_values(|id: u32| list_row(id, st.epics[id].name, st.epics[id].status))
}

/// One list row for each of the stories `ids`.
pub open spec fn story_rows(st: StateView, ids: Seq<u32>) -> Seq<Seq<char>> {
    ids.map_values(|id: u32| list_row(id, st.stories[id].name, st.stories[id].status))
}

/// The home page when the epics are listed in the order of `ids`.
pub open spec fn home_lines(st: StateView, ids: Seq<u32>) -> Seq<Seq<char>> {
    seq![HOME_TITLE@, LIST_HEADER@] + epic_rows(st, ids) + seq![""@, ""@, HOME_FOOTER@]
}

/// `lines` is the home page of `st`: every epic, by ascending id.
pub open spec fn is_home_page(st: StateView, lines: Seq<Seq<char>>) -> bool {
    exists|ids: Seq<u32>| ids_in_order(ids, st.epics.dom()) && lines == home_lines(st, ids)
}

/// The epic page: the epic in full, then its stories in their stored order.
pub open spec fn epic_lines(st: StateView, epic_id: u32) -> Seq<Seq<char>> {
    let e = st.epics[epic_id];
    seq![
        EPIC_TITLE@,
        DETAIL_HEADER@,
        detail_row(epic_id, e.name, e.description, e.status),
        ""@,
        ""@,
        STORIES_TITLE@,
        LIST_HEADER@,
    ] + story_rows(st, e.stories) + seq![""@, ""@, EPIC_FOOTER@]
}

/// The story page: the story in full.
pub open spec fn story_lines(st: StateView, story_id: u32) -> Seq<Seq<char>> {
    let s = st.stories[story_id];
    seq![
        STORY_TITLE@,
        DETAIL_HEADER@,
        detail_row(story_id, s.name, s.description, s.status),
        ""@,
        ""@,
        STORY_FOOTER@,
    ]
}

/// Why the epic page cannot be shown, if it cannot.
pub open spec fn epic_page_error(st: StateView, epic_id: u32) -> Option<DbError> {
    if !st.epics.contains_key(epic_id) {
        Some(DbError::InvalidEpicId)
    } else if st.lists_missing_story(epic_id) {
        Some(DbError::IntegrityViolation)
    } else {
        None
    }
}

/// The epic page of `epic_id`, or why it cannot be shown.
pub open spec fn epic_page(st: StateView, epic_id: u32) -> Result<Seq<Seq<char>>, DbError> {
    match epic_page_error(st, epic_id) {
        Some(e) => Err(e),
        None => Ok(epic_lines(st, epic_id)),
    }
}

/// The story page of `story_id`, or why it cannot be shown.
pub open spec fn story_page(st: StateView, story_id: u32) -> Result<Seq<Seq<char>>, DbError> {
    if st.stories.contains_key(story_id) {
        Ok(story_lines(st, story_id))
    } else {
        Err(DbError::InvalidStoryId)
    }
}

/// The texts of a rendering, or its error.
pub open spec fn rendered(r: Result<Vec<String>, DbError>) -> Result<Seq<Seq<char>>, DbError> {
    match r {
        Ok(lines) => Ok(texts(lines@)),
        Err(e) => Err(e),
    }
}

/// The actions of the home page's command letters.
pub open spec fn home_command(input: Seq<char>) -> Option<Action> {
    if input == seq!['q'] {
        Some(Action::Exit)
    } else if input == seq!['c'] {
        Some(Action::CreateEpic)
    } else {
        None
    }
}

/// What the home page makes of an input line: a command letter, or the id of
/// an epic that exists.
pub open spec fn home_action(st: StateView, input: Seq<char>) -> Option<Action> {
    if home_command(input) is Some {
        home_command(input)
    } else {
        match id_value(input) {
            Some(id) => if st.epics.contains_key(id) {
                Some(Action::NavigateToEpicDetail { epic_id: id })
            } else {
                None
            },
            None => None,
        }
    }
}

/// The actions of the epic page's command letters.
pub open spec fn epic_command(epic_id: u32, input: Seq<char>) -> Option<Action> {
    if input == seq!['p'] {
        Some(Action::NavigateToPreviousPage)
    } else if input == seq!['u'] {
        Some(Action::UpdateEpicStatus { epic_id })
    } else if input == seq!['d'] {
        Some(Action::DeleteEpic { epic_id })
    } else if input == seq!['c'] {
        Some(Action::CreateStory { epic_id })
    } else {
        None
    }
}

/// What the epic page of `epic_id` makes of an input line: a command letter,
/// or the id of a story that exists and that this epic lists.
pub open spec fn epic_action(st: StateView, epic_id: u32, input: Seq<char>) -> Result<
    Option<Action>,
    DbError,
> {
    if epic_command(epic_id, input) is Some {
        Ok(epic_command(epic_id, input))
    } else {
        match id_value(input) {
            Some(id) => if !st.epics.contains_key(epic_id) {
                Err(DbError::InvalidEpicId)
            } else if st.stories.contains_key(id) && st.epics[epic_id].stories.contains(id) {
                Ok(Some(Action::NavigateToStoryDetail { epic_id, story_id: id }))
            } else {
                Ok(None)
            },
            None => Ok(None),
        }
    }
}

/// What the story page makes of an input line.
pub open spec fn story_action(epic_id: u32, story_id: u32, input: Seq<char>) -> Option<Action> {
    if input == seq!['p'] {
        Some(Action::NavigateToPreviousPage)
    } else if input == seq!['u'] {
        Some(Action::UpdateStoryStatus { story_id })
    } else if input == seq!['d'] {
        Some(Action::DeleteStory { epic_id, story_id })
    } else {
        None
    }
}

/// Whether `input` is exactly the one character `c`.
pub fn is_letter(input: &str, c: char) -> (r: bool)
    ensures
        r == (input@ == seq![c]),
{
    if input.unicode_len() == 1 {
        let first = input.get_char(0);
        assert(input@ =~= seq![first]);
        first == c
    } else {
        false
    }
}

/// A page of the front end: it renders itself from the store, and turns a
/// line of input into an optional action for the navigator. Pages only read
/// the store.
pub trait Page {
    fn draw_page<D: Database>(&self, db: &JiraDatabase<D>) -> Result<Vec<String>, DbError>;

    fn handle_input<D: Database>(&self, db: &JiraDatabase<D>, input: &str) -> Result<
        Option<Action>,
        DbError,
    >;
}

/// The page that lists all epics.
#[derive(Clone, Copy, Debug, PartialEq, Eq, Structural)]
pub struct HomePage {}

/// The page of one epic and its stories.
#[derive(Clone, Copy, Debug, PartialEq, Eq, Structural)]
pub struct EpicDetail {
    pub epic_id: u32,
}

/// The page of one story.
#[derive(Clone, Copy, Debug, PartialEq, Eq, Structural)]
pub struct StoryDetail {
    pub epic_id: u32,
    pub story_id: u32,
}

impl HomePage {
    /// The action for `input` against a state already read.
    pub fn action_for(&self, state: &DBState, input: &str) -> (r: Option<Action>)
        ensures
            r == home_action(state@, input@),
    {
        if let Some(a) = self.command(input) {
            return Some(a);
        }
        match parse_id(input) {
            Some(epic_id) => if state.epics.contains_key(&epic_id) {
                Some(Action::NavigateToEpicDetail { epic_id })
            } else {
                None
            },
            None => None,
        }
    }

    fn command(&self, input: &str) -> (r: Option<Action>)
        ensures
            r == home_command(input@),
    {
        if is_letter(input, 'q') {
            Some(Action::Exit)
        } else if is_letter(input, 'c') {
            Some(Action::CreateEpic)
        } else {
            None
        }
    }
}

impl EpicDetail {
    /// The action for `input` against a state already read.
    pub fn action_for(&self, state: &DBState, input: &str) -> (r: Result<Option<Action>, DbError>)
        ensures
            r == epic_action(state@, self.epic_id, input@),
    {
        if let Some(a) = self.command(input) {
            return Ok(Some(a));
        }
        match parse_id(input) {
            Some(story_id) => match state.epics.get(&self.epic_id) {
                None => Err(DbError::InvalidEpicId),
                Some(epic) => {
                    if state.stories.contains_key(&story_id) && lists_id(&epic.stories, story_id) {
                        Ok(Some(Action::NavigateToStoryDetail { epic_id: self.epic_id, story_id }))
                    } else {
                        Ok(None)
                    }
                },
            },
            None => Ok(None),
        }
    }

    fn command(&self, input: &str) -> (r: Option<Action>)
        ensures
            r == epic_command(self.epic_id, input@),
    {
        if is_letter(input, 'p') {
            Some(Action::NavigateToPreviousPage)
        } else if is_letter(input, 'u') {
            Some(Action::UpdateEpicStatus { epic_id: self.epic_id })
        } else if is_letter(input, 'd') {
            Some(Action::DeleteEpic { epic_id: self.epic_id })
        } else if is_letter(input, 'c') {
            Some(Action::CreateStory { epic_id: self.epic_id })
        } else {
            None
        }
    }
}

/// Whether `ids` holds `id`.
fn lists_id(ids: &Vec<u32>, id: u32) -> (r: bool)
    ensures
        r == ids@.contains(id),
{
    let mut i: usize = 0;
    while i < ids.len()
        invariant
            i <= ids@.len(),
            forall|j: int| 0 <= j < i ==> ids@[j] != id,
        decreases ids@.len() - i,
    {
        if ids[i] == id {
            return true;
        }
        i = i + 1;
    }
    false
}

/// Relies on itertools' `Itertools::sorted`, which yields all items of an
/// iterator in ascending order; the keys of a map are distinct.
#[verifier::external_body]
fn sorted_epic_ids(epics: &std::collections::HashMap<u32, Epic>) -> (r: Vec<u32>)
    ensures
        ids_in_order(r@, epics@.dom()),
{
    epics.keys().copied().sorted().collect()
}

/// Builds `list_row(id, name, status)`.
fn list_row_string(id: u32, name: &str, status: Status) -> (r: String)
    ensures
        r@ == list_row(id, name@, status),
{
    let mut r = make_cell(decimal_string(id).as_str(), 12);
    r.append("| ");
    r.append(make_cell(name, 33).as_str());
    r.append("| ");
    r.append(make_cell(status.label().as_str(), 17).as_str());
    r
}

/// Builds `detail_row(id, name, description, status)`.
fn detail_row_string(id: u32, name: &str, description: &str, status: Status) -> (r: String)
    ensures
        r@ == detail_row(id, name@, description@, status),
{
    let mut r = make_cell(decimal_string(id).as_str(), 6);
    r.append("| ");
    r.append(make_cell(name, 13).as_str());
    r.append("| ");
    r.append(make_cell(description, 28).as_str());
    r.append("| ");
    r.append(make_cell(status.label().as_str(), 13).as_str());
    r
}

/// Appends `line` to `lines`.
fn push_line(lines: &mut Vec<String>, line: &str)
    ensures
        texts(final(lines)@) == texts(old(lines)@).push(line@),
{
    lines.push(line.to_owned());
    assert(texts(lines@) =~= texts(old(lines)@).push(line@));
}

impl HomePage {
    /// The lines of this page for a state already read.
    pub fn lines_for(&self, state: &DBState) -> (r: Vec<String>)
        ensures
            is_home_page(state@, texts(r@)),
    {
        let ids = sorted_epic_ids(&state.epics);
        let mut lines: Vec<String> = Vec::new();
        push_line(&mut lines, HOME_TITLE);
        push_line(&mut lines, LIST_HEADER);
        let mut i: usize = 0;
        while i < ids.len()
            invariant
                i <= ids@.len(),
                ids_in_order(ids@, state.epics@.dom()),
                texts(lines@) == seq![HOME_TITLE@, LIST_HEADER@] + epic_rows(state@, ids@.take(i as int)),
            decreases ids@.len() - i,
        {
            let id = ids[i];
            assert(ids@.contains(id));
            if let Some(epic) = state.epics.get(&id) {
                let row = list_row_string(id, epic.name.as_str(), epic.status);
                let ghost before = texts(lines@);
                lines.push(row);
                proof {
                    assert(ids@.take(i + 1) =~= ids@.take(i as int).push(id));
                    assert(epic_rows(state@, ids@.take(i + 1)) =~= epic_rows(state@, ids@.take(i as int)).push(row@));
                    assert(texts(lines@) =~= before.push(row@));
                }
            }
            i = i + 1;
        }
        push_line(&mut lines, "");
        push_line(&mut lines, "");
        push_line(&mut lines, HOME_FOOTER);
        proof {
            assert(ids@.take(ids@.len() as int) =~= ids@);
            assert(texts(lines@) =~= home_lines(state@, ids@));
        }
        lines
    }
}

impl EpicDetail {
    /// The lines of this page for a state already read.
    pub fn lines_for(&self, state: &DBState) -> (r: Result<Vec<String>, DbError>)
        ensures
            rendered(r) == epic_page(state@, self.epic_id),
    {
        let epic = match state.epics.get(&self.epic_id) {
            Some(e) => e,
            None => return Err(DbError::InvalidEpicId),
        };
        let ghost st = state@;
        let ghost e = st.epics[self.epic_id];
        assert(epic@ == e);
        let mut lines: Vec<String> = Vec::new();
        push_line(&mut lines, EPIC_TITLE);
        push_line(&mut lines, DETAIL_HEADER);
        let row = detail_row_string(
            self.epic_id,
            epic.name.as_str(),
            epic.description.as_str(),
            epic.status,
        );
        push_line(&mut lines, row.as_str());
        push_line(&mut lines, "");
        push_line(&mut lines, "");
        push_line(&mut lines, STORIES_TITLE);
        push_line(&mut lines, LIST_HEADER);
        let ghost head = texts(lines@);
        let mut i: usize = 0;
        while i < epic.stories.len()
            invariant
                i <= e.stories.len(),
                epic@ == e,
                st == state@,
                st.epics.contains_key(self.epic_id),
                e == st.epics[self.epic_id],
                forall|j: int| 0 <= j < i ==> st.stories.contains_key(#[trigger] e.stories[j]),
                texts(lines@) == head + story_rows(st, e.stories.take(i as int)),
            decreases e.stories.len() - i,
        {
            let id = epic.stories[i];
            let story = match state.stories.get(&id) {
                Some(s) => s,
                None => {
                    assert(!st.stories.contains_key(e.stories[i as int]));
                    return Err(DbError::IntegrityViolation);
                },
            };
            let row = list_row_string(id, story.name.as_str(), story.status);
            let ghost before = texts(lines@);
            lines.push(row);
            proof {
                assert(e.stories.take(i + 1) =~= e.stories.take(i as int).push(id));
                assert(story_rows(st, e.stories.take(i + 1)) =~= story_rows(st, e.stories.take(i as int)).push(row@));
                assert(texts(lines@) =~= before.push(row@));
            }
            i = i + 1;
        }
        push_line(&mut lines, "");
        push_line(&mut lines, "");
        push_line(&mut lines, EPIC_FOOTER);
        proof {
            assert(e.stories.take(e.stories.len() as int) =~= e.stories);
            assert(!st.lists_missing_story(self.epic_id));
            assert(texts(lines@) =~= epic_lines(st, self.epic_id));
        }
        Ok(lines)
    }
}

impl StoryDetail {
    /// The lines of this page for a state already read.
    pub fn lines_for(&self, state: &DBState) -> (r: Result<Vec<String>, DbError>)
        ensures
            rendered(r) == story_page(state@, self.story_id),
    {
        let story = match state.stories.get(&self.story_id) {
            Some(s) => s,
            None => return Err(DbError::InvalidStoryId),
        };
        let mut lines: Vec<String> = Vec::new();
        push_line(&mut lines, STORY_TITLE);
        push_line(&mut lines, DETAIL_HEADER);
        let row = detail_row_string(
            self.story_id,
            story.name.as_str(),
            story.description.as_str(),
            story.status,
        );
        push_line(&mut lines, row.as_str());
        push_line(&mut lines, "");
        push_line(&mut lines, "");
        push_line(&mut lines, STORY_FOOTER);
        proof {
            assert(texts(lines@) =~= story_lines(state@, self.story_id));
        }
        Ok(lines)
    }

    /// The action for `input`; this page never needs the store to decide.
    pub fn action_for(&self, input: &str) -> (r: Option<Action>)
        ensures
            r == story_action(self.epic_id, self.story_id, input@),
    {
        if is_letter(input, 'p') {
            Some(Action::NavigateToPreviousPage)
        } else if is_letter(input, 'u') {
            Some(Action::UpdateStoryStatus { story_id: self.story_id })
        } else if is_letter(input, 'd') {
            Some(Action::DeleteStory { epic_id: self.epic_id, story_id: self.story_id })
        } else {
            None
        }
    }
}

/// Whether the home page needs the store to answer `input`: it is no
/// command letter but reads as an id.
pub open spec fn home_reads(input: Seq<char>) -> bool {
    home_command(input) is None && id_value(input) is Some
}

/// Whether the epic page needs the store to answer `input`.
pub open spec fn epic_reads(epic_id: u32, input: Seq<char>) -> bool {
    epic_command(epic_id, input) is None && id_value(input) is Some
}

/// `r` is an error that reading `store` can give.
pub open spec fn read_failed<D: Database, T>(store: D, r: Result<T, DbError>) -> bool {
    r is Err && can_read(store, Err::<DBState, DbError>(r->Err_0))
}

impl Page for HomePage {
    fn draw_page<D: Database>(&self, db: &JiraDatabase<D>) -> (r: Result<Vec<String>, DbError>)
        ensures
            read_failed(*db.database, r) || (r is Ok && exists|s: DBState|
                #[trigger] can_read(*db.database, Ok::<DBState, DbError>(s)) && is_home_page(
                    s@,
                    texts(r->Ok_0@),
                )),
    {
        let state = match db.read_db() {
            Ok(s) => s,
            Err(e) => return Err(e),
        };
        let r: Result<Vec<String>, DbError> = Ok(self.lines_for(&state));
        assert(is_home_page(state@, texts(r->Ok_0@)));
        r
    }

    fn handle_input<D: Database>(&self, db: &JiraDatabase<D>, input: &str) -> (r: Result<
        Option<Action>,
        DbError,
    >)
        ensures
            !home_reads(input@) ==> r == Ok::<Option<Action>, DbError>(home_command(input@)),
            home_reads(input@) ==> read_failed(*db.database, r) || exists|s: DBState|
                #[trigger] can_read(*db.database, Ok::<DBState, DbError>(s)) && r == Ok::<
                    Option<Action>,
                    DbError,
                >(home_action(s@, input@)),
    {
        if let Some(a) = self.command(input) {
            return Ok(Some(a));
        }
        if parse_id(input).is_none() {
            return Ok(None);
        }
        let state = match db.read_db() {
            Ok(s) => s,
            Err(e) => return Err(e),
        };
        Ok(self.action_for(&state, input))
    }
}

impl Page for EpicDetail {
    fn draw_page<D: Database>(&self, db: &JiraDatabase<D>) -> (r: Result<Vec<String>, DbError>)
        ensures
            read_failed(*db.database, r) || exists|s: DBState|
                #[trigger] can_read(*db.database, Ok::<DBState, DbError>(s)) && rendered(r)
                    == epic_page(s@, self.epic_id),
    {
        let state = match db.read_db() {
            Ok(s) => s,
            Err(e) => return Err(e),
        };
        self.lines_for(&state)
    }

    fn handle_input<D: Database>(&self, db: &JiraDatabase<D>, input: &str) -> (r: Result<
        Option<Action>,
        DbError,
    >)
        ensures
            !epic_reads(self.epic_id, input@) ==> r == Ok::<Option<Action>, DbError>(
                epic_command(self.epic_id, input@),
            ),
            epic_reads(self.epic_id, input@) ==> read_failed(*db.database, r) || exists|s: DBState|
                #[trigger] can_read(*db.database, Ok::<DBState, DbError>(s)) && r == epic_action(
                    s@,
                    self.epic_id,
                    input@,
                ),
    {
        if let Some(a) = self.command(input) {
            return Ok(Some(a));
        }
        if parse_id(input).is_none() {
            return Ok(None);
        }
        let state = match db.read_db() {
            Ok(s) => s,
            Err(e) => return Err(e),
        };
        self.action_for(&state, input)
    }
}

impl Page for StoryDetail {
    fn draw_page<D: Database>(&self, db: &JiraDatabase<D>) -> (r: Result<Vec<String>, DbError>)
        ensures
            read_failed(*db.database, r) || exists|s: DBState|
                #[trigger] can_read(*db.database, Ok::<DBState, DbError>(s)) && rendered(r)
                    == story_page(s@, self.story_id),
    {
        let state = match db.read_db() {
            Ok(s) => s,
            Err(e) => return Err(e),
        };
        self.lines_for(&state)
    }

    fn handle_input<D: Database>(&self, db: &JiraDatabase<D>, input: &str) -> (r: Result<
        Option<Action>,
        DbError,
    >)
        ensures
            r == Ok::<Option<Action>, DbError>(story_action(self.epic_id, self.story_id, input@)),
    {
        Ok(self.action_for(input))
    }
}

/// Whichever page is active; the navigator keeps a stack of these.
#[derive(Clone, Copy, Debug, PartialEq, Eq, Structural)]
pub enum Screen {
    Home(HomePage),
    Epic(EpicDetail),
    Story(StoryDetail),
}

/// Whether `page` needs the store to answer `input`.
pub open spec fn screen_reads(page: Screen, input: Seq<char>) -> bool {
    match page {
        Screen::Home(_) => home_reads(input),
        Screen::Epic(p) => epic_reads(p.epic_id, input),
        Screen::Story(_) => false,
    }
}

/// What `page` makes of `input` when it does not need the store.
pub open spec fn screen_command(page: Screen, input: Seq<char>) -> Option<Action> {
    match page {
        Screen::Home(_) => home_command(input),
        Screen::Epic(p) => epic_command(p.epic_id, input),
        Screen::Story(p) => story_action(p.epic_id, p.story_id, input),
    }
}

/// What `page` makes of an input line against state `st`.
pub open spec fn screen_action(page: Screen, st: StateView, input: Seq<char>) -> Result<
    Option<Action>,
    DbError,
> {
    match page {
        Screen::Home(_) => Ok(home_action(st, input)),
        Screen::Epic(p) => epic_action(st, p.epic_id, input),
        Screen::Story(p) => Ok(story_action(p.epic_id, p.story_id, input)),
    }
}

/// Whether `r` is what `page` shows of state `st`.
pub open spec fn screen_shows(page: Screen, st: StateView, r: Result<Seq<Seq<char>>, DbError>) -> bool {
    match page {
        Screen::Home(_) => r matches Ok(lines) && is_home_page(st, lines),
        Screen::Epic(p) => r == epic_page(st, p.epic_id),
        Screen::Story(p) => r == story_page(st, p.story_id),
    }
}

impl Page for Screen {
    fn draw_page<D: Database>(&self, db: &JiraDatabase<D>) -> (r: Result<Vec<String>, DbError>)
        ensures
            read_failed(*db.database, r) || exists|s: DBState|
                #[trigger] can_read(*db.database, Ok::<DBState, DbError>(s)) && screen_shows(
                    *self,
                    s@,
                    rendered(r),
                ),
    {
        match self {
            Screen::Home(p) => p.draw_page(db),
            Screen::Epic(p) => p.draw_page(db),
            Screen::Story(p) => p.draw_page(db),
        }
    }

    fn handle_input<D: Database>(&self, db: &JiraDatabase<D>, input: &str) -> (r: Result<
        Option<Action>,
        DbError,
    >)
        ensures
            !screen_reads(*self, input@) ==> r == Ok::<Option<Action>, DbError>(
                screen_command(*self, input@),
            ),
            screen_reads(*self, input@) ==> read_failed(*db.database, r) || exists|s: DBState|
                #[trigger] can_read(*db.database, Ok::<DBState, DbError>(s)) && r == screen_action(
                    *self,
                    s@,
                    input@,
                ),
    {
        match self {
            Screen::Home(p) => p.handle_input(db, input),
            Screen::Epic(p) => p.handle_input(db, input),
            Screen::Story(p) => p.handle_input(db, input),
        }
    }
}

} // verus!
