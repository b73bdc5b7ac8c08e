//! The entities of the tracker and their mathematical models.
use vstd::prelude::*;

verus! {

/// Workflow state shared by epics and stories. Any status may move to any
/// other one.
#[derive(Clone, Copy, Debug, PartialEq, Eq, Structural)]
pub enum Status {
    Open,
    InProgress,
    Resolved,
    Closed,
}

/// The text shown for a status.
pub open spec fn status_label(s: Status) -> Seq<char> {
    match s {
        Status::Open => "OPEN"@,
        Status::InProgress => "IN PROGRESS"@,
        Status::Resolved => "RESOLVED"@,
        Status::Closed => "CLOSED"@,
    }
}

impl Status {
    /// The text shown for this status.
    pub fn label(&self) -> (r: String)
        ensures
            r@ == status_label(*self),
    {
        match self {
            Status::Open => "OPEN".to_owned(),
            Status::InProgress => "IN PROGRESS".to_owned(),
            Status::Resolved => "RESOLVED".to_owned(),
            Status::Closed => "CLOSED".to_owned(),
        }
    }
}

/// What a story is, as far as the tracker's rules are concerned.
pub struct StoryView {
    pub name: Seq<char>,
    pub description: Seq<char>,
    pub status: Status,
}

/// What an epic is: its fields and the ordered ids of the stories it owns.
pub struct EpicView {
    pub name: Seq<char>,
    pub description: Seq<char>,
    pub status: Status,
    pub stories: Seq<u32>,
}

/// The whole persisted state: the id counter and the two id-keyed maps.
pub struct StateView {
    pub last_item_id: u32,
    pub epics: Map<u32, EpicView>,
    pub stories: Map<u32, StoryView>,
}

/// A leaf work item. Its id is the key it is stored under.
#[derive(Debug, PartialEq, Eq)]
pub struct Story {
    pub name: String,
    pub description: String,
    pub status: Status,
}

/// A top-level work item owning an ordered list of story ids.
#[derive(Debug, PartialEq, Eq)]
pub struct Epic {
    pub name: String,
    pub description: String,
    pub status: Status,
    pub stories: Vec<u32>,
}

/// The complete persisted snapshot.
#[derive(Debug, PartialEq, Eq)]
pub struct DBState {
    pub last_item_id: u32,
    pub epics: std::collections::HashMap<u32, Epic>,
    pub stories: std::collections::HashMap<u32, Story>,
}

impl View for Story {
    type V = StoryView;

    open spec fn view(&self) -> StoryView {
        StoryView { name: self.name@, description: self.description@, status: self.status }
    }
}

impl View for Epic {
    type V = EpicView;

    open spec fn view(&self) -> EpicView {
        EpicView {
            name: self.name@,
            description: self.description@,
            status: self.status,
            stories: self.stories@,
        }
    }
}

impl View for DBState {
    type V = StateView;

    open spec fn view(&self) -> StateView {
        StateView {
            last_item_id: self.last_item_id,
            epics: self.epics@.map_values(|e: Epic| e@),
            stories: self.stories@.map_values(|s: Story| s@),
        }
    }
}

impl Story {
    /// A new story starts out open.
    pub fn new(name: String, description: String) -> (r: Story)
        ensures
            r@ == (StoryView { name: name@, description: description@, status: Status::Open }),
    {
        Story { name, description, status: Status::Open }
    }
}

impl Epic {
    /// A new epic starts out open and owns no story.
    pub fn new(name: String, description: String) -> (r: Epic)
        ensures
            r@ == (EpicView {
                name: name@,
                description: description@,
                status: Status::Open,
                stories: Seq::empty(),
            }),
    {
        Epic { name, description, status: Status::Open, stories: Vec::new() }
    }
}

impl Clone for Story {
    fn clone(&self) -> (r: Story)
        ensures
            r@ == self@,
    {
        Story {
            name: self.name.clone(),
            description: self.description.clone(),
            status: self.status,
        }
    }
}

impl Clone for Epic {
    fn clone(&self) -> (r: Epic)
        ensures
            r@ == self@,
    {
        let stories = self.stories.clone();
        assert(stories@ =~= self.stories@);
        Epic {
            name: self.name.clone(),
            description: self.description.clone(),
            status: self.status,
            stories,
        }
    }
}

impl Clone for DBState {
    fn clone(&self) -> (r: DBState)
        ensures
            r@ == self@,
    {
        DBState {
            last_item_id: self.last_item_id,
            epics: self.epics.clone(),
            stories: self.stories.clone(),
        }
    }
}

impl StateView {
    /// The referential invariants of the store: every listed story exists,
    /// every story is listed by exactly one epic and only once there, the two
    /// maps share no id, and the counter is at least every id in use.
    pub open spec fn wf(self) -> bool {
        &&& forall|e: u32, i: int|
            #![trigger self.epics[e].stories[i]]
            self.epics.contains_key(e) && 0 <= i < self.epics[e].stories.len()
                ==> self.stories.contains_key(self.epics[e].stories[i])
        &&& forall|e: u32| #[trigger]
            self.epics.contains_key(e) ==> self.epics[e].stories.no_duplicates()
        &&& forall|s: u32| #[trigger]
            self.stories.contains_key(s) ==> exists|e: u32|
                #![trigger self.epics[e].stories.contains(s)]
                self.epics.contains_key(e) && self.epics[e].stories.contains(s)
        &&& forall|e1: u32, e2: u32, s: u32|
            #![trigger self.epics[e1].stories.contains(s), self.epics[e2].stories.contains(s)]
            self.epics.contains_key(e1) && self.epics.contains_key(e2) && e1 != e2
                && self.epics[e1].stories.contains(s) ==> !self.epics[e2].stories.contains(s)
        &&& forall|k: u32| #[trigger] self.epics.contains_key(k) ==> k <= self.last_item_id
        &&& forall|k: u32| #[trigger] self.stories.contains_key(k) ==> k <= self.last_item_id
        &&& forall|k: u32| !(#[trigger] self.epics.contains_key(k) && #[trigger] self.stories.contains_key(k))
    }

    /// The state of a store that was never written: no item, counter at zero.
    pub open spec fn empty() -> StateView {
        StateView { last_item_id: 0, epics: Map::empty(), stories: Map::empty() }
    }
}

impl DBState {
    /// An empty state: no epic, no story, and no id issued yet.
    pub fn new() -> (r: DBState)
        ensures
            r@ == StateView::empty(),
            r@.wf(),
    {
        let r = DBState {
            last_item_id: 0,
            epics: std::collections::HashMap::new(),
            stories: std::collections::HashMap::new(),
        };
        assert(r@.epics =~= Map::empty());
        assert(r@.stories =~= Map::empty());
        r
    }
}

/// What a page asks the navigator to do after reading the user's input.
#[derive(Clone, Copy, Debug, PartialEq, Eq, Structural)]
pub enum Action {
    NavigateToEpicDetail { epic_id: u32 },
    NavigateToStoryDetail { epic_id: u32, story_id: u32 },
    NavigateToPreviousPage,
    CreateEpic,
    UpdateEpicStatus { epic_id: u32 },
    DeleteEpic { epic_id: u32 },
    CreateStory { epic_id: u32 },
    UpdateStoryStatus { story_id: u32 },
    DeleteStory { epic_id: u32, story_id: u32 },
    Exit,
}

} // verus!
