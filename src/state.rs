//! The repository's rules as transitions of the in-memory state: id
//! issuing, referential checks, and the mutations themselves.
use crate::error::DbError;
use crate::models::{DBState, Epic, EpicView, StateView, Status, Story, StoryView};
use vstd::prelude::*;

verus! {

/// `s` without any occurrence of `x`, order kept.
pub open spec fn without(s: Seq<u32>, x: u32) -> Seq<u32> {
    s.filter(|y: u32| y != x)
}

impl StateView {
    /// The id that the next created item receives.
    pub open spec fn next_id(self) -> u32 {
        (self.last_item_id + 1) as u32
    }

    /// The state after `epic` is stored under a fresh id.
    pub open spec fn with_epic(self, epic: EpicView) -> StateView {
        StateView {
            last_item_id: self.next_id(),
            epics: self.epics.insert(self.next_id(), epic),
            stories: self.stories,
        }
    }

    /// The state after `story` is stored under a fresh id and appended to
    /// the story list of epic `epic_id`.
    pub open spec fn with_story(self, story: StoryView, epic_id: u32) -> StateView {
        let e = self.epics[epic_id];
        StateView {
            last_item_id: self.next_id(),
            epics: self.epics.insert(epic_id, EpicView { stories: e.stories.push(self.next_id()), ..e }),
            stories: self.stories.insert(self.next_id(), story),
        }
    }

    /// The state after the epics of `es` are created one after the other.
    pub open spec fn with_epics(self, es: Seq<EpicView>) -> StateView
        decreases es.len(),
    {
        if es.len() == 0 {
            self
        } else {
            self.with_epics(es.drop_last()).with_epic(es.last())
        }
    }

    /// Whether epic `epic_id` lists a story id that the story map lacks.
    pub open spec fn lists_missing_story(self, epic_id: u32) -> bool {
        exists|i: int|
            0 <= i < self.epics[epic_id].stories.len() && !self.stories.contains_key(
                #[trigger] self.epics[epic_id].stories[i],
            )
    }

    /// Why creating an epic is refused, if it is.
    pub open spec fn create_epic_error(self) -> Option<DbError> {
        if self.last_item_id == u32::MAX {
            Some(DbError::IdsExhausted)
        } else {
            None
        }
    }

    /// Why creating a story in epic `epic_id` is refused, if it is.
    pub open spec fn create_story_error(self, epic_id: u32) -> Option<DbError> {
        if !self.epics.contains_key(epic_id) {
            Some(DbError::InvalidEpicId)
        } else if self.last_item_id == u32::MAX {
            Some(DbError::IdsExhausted)
        } else {
            None
        }
    }

    /// Why deleting epic `epic_id` is refused, if it is.
    pub open spec fn delete_epic_error(self, epic_id: u32) -> Option<DbError> {
        if !self.epics.contains_key(epic_id) {
            Some(DbError::InvalidEpicId)
        } else if self.lists_missing_story(epic_id) {
            Some(DbError::IntegrityViolation)
        } else {
            None
        }
    }

    /// Why deleting story `story_id` through epic `epic_id` is refused, if it is.
    pub open spec fn delete_story_error(self, epic_id: u32, story_id: u32) -> Option<DbError> {
        if !self.stories.contains_key(story_id) {
            Some(DbError::InvalidStoryId)
        } else if !self.epics.contains_key(epic_id) {
            Some(DbError::InvalidEpicId)
        } else {
            None
        }
    }

    /// Why setting the status of epic `epic_id` is refused, if it is.
    pub open spec fn epic_status_error(self, epic_id: u32) -> Option<DbError> {
        if !self.epics.contains_key(epic_id) {
            Some(DbError::InvalidEpicId)
        } else {
            None
        }
    }

    /// Why setting the status of story `story_id` is refused, if it is.
    pub open spec fn story_status_error(self, story_id: u32) -> Option<DbError> {
        if !self.stories.contains_key(story_id) {
            Some(DbError::InvalidStoryId)
        } else {
            None
        }
    }

    /// The state after epic `epic_id` and every story it lists are removed.
    pub open spec fn without_epic(self, epic_id: u32) -> StateView {
        StateView {
            last_item_id: self.last_item_id,
            epics: self.epics.remove(epic_id),
            stories: self.stories.remove_keys(self.epics[epic_id].stories.to_set()),
        }
    }

    /// The state after story `story_id` is removed from the story map and
    /// from the list of epic `epic_id`.
    pub open spec fn without_story(self, epic_id: u32, story_id: u32) -> StateView {
        let e = self.epics[epic_id];
        StateView {
            last_item_id: self.last_item_id,
            epics: self.epics.insert(epic_id, EpicView { stories: without(e.stories, story_id), ..e }),
            stories: self.stories.remove(story_id),
        }
    }

    /// The state after epic `epic_id` takes `status`.
    pub open spec fn with_epic_status(self, epic_id: u32, status: Status) -> StateView {
        let e = self.epics[epic_id];
        StateView { epics: self.epics.insert(epic_id, EpicView { status, ..e }), ..self }
    }

    /// The state after story `story_id` takes `status`.
    pub open spec fn with_story_status(self, story_id: u32, status: Status) -> StateView {
        let s = self.stories[story_id];
        StateView { stories: self.stories.insert(story_id, StoryView { status, ..s }), ..self }
    }
}

impl DBState {
    /// Stores `epic` under the next id and returns that id.
    pub fn create_epic(&mut self, epic: Epic) -> (r: Result<u32, DbError>)
        ensures
            r is Ok <==> old(self).last_item_id < u32::MAX,
            r matches Ok(id) ==> id == old(self)@.next_id() && final(self).last_item_id == id
                && final(self)@ == old(self)@.with_epic(epic@),
            r matches Err(e) ==> e == DbError::IdsExhausted && final(self)@ == old(self)@,
            r matches Err(e) ==> old(self)@.create_epic_error() == Some(e),
            r is Ok <==> old(self)@.create_epic_error() is None,
            old(self)@.wf() && epic@.stories.len() == 0 ==> final(self)@.wf(),
    {
        if self.last_item_id == u32::MAX {
            return Err(DbError::IdsExhausted);
        }
        let id = self.last_item_id + 1;
        self.epics.insert(id, epic);
        self.last_item_id = id;
        proof {
            assert(self@.epics =~= old(self)@.epics.insert(id, epic@));
            if old(self)@.wf() && epic@.stories.len() == 0 {
                lemma_with_epic_wf(old(self)@, epic@);
            }
        }
        Ok(id)
    }

    /// Stores `story` under the next id and appends that id to the story
    /// list of epic `epic_id`.
    pub fn create_story(&mut self, story: Story, epic_id: u32) -> (r: Result<u32, DbError>)
        ensures
            r is Ok <==> old(self)@.epics.contains_key(epic_id) && old(self).last_item_id
                < u32::MAX,
            !old(self)@.epics.contains_key(epic_id) ==> r == Err::<u32, DbError>(
                DbError::InvalidEpicId,
            ),
            old(self)@.epics.contains_key(epic_id) && old(self).last_item_id == u32::MAX ==> r
                == Err::<u32, DbError>(DbError::IdsExhausted),
            r matches Ok(id) ==> id == old(self)@.next_id() && final(self).last_item_id == id
                && final(self)@ == old(self)@.with_story(story@, epic_id),
            r is Err ==> final(self)@ == old(self)@,
            r matches Err(e) ==> old(self)@.create_story_error(epic_id) == Some(e),
            r is Ok <==> old(self)@.create_story_error(epic_id) is None,
            old(self)@.wf() ==> final(self)@.wf(),
    {
        let removed = self.epics.remove(&epic_id);
        let mut epic = match removed {
            Some(e) => e,
            None => {
                proof {
                    assert(self@.epics =~= old(self)@.epics);
                }
                return Err(DbError::InvalidEpicId);
            },
        };
        if self.last_item_id == u32::MAX {
            self.epics.insert(epic_id, epic);
            proof {
                assert(self@.epics =~= old(self)@.epics);
            }
            return Err(DbError::IdsExhausted);
        }
        let id = self.last_item_id + 1;
        self.stories.insert(id, story);
        epic.stories.push(id);
        let ghost new_epic = epic@;
        self.epics.insert(epic_id, epic);
        self.last_item_id = id;
        proof {
            let e = old(self)@.epics[epic_id];
            assert(new_epic == EpicView { stories: e.stories.push(id), ..e });
            assert(self@.epics =~= old(self)@.epics.insert(epic_id, new_epic));
            assert(self@.stories =~= old(self)@.stories.insert(id, story@));
            if old(self)@.wf() {
                lemma_with_story_wf(old(self)@, story@, epic_id);
            }
        }
        Ok(id)
    }

    /// Removes epic `epic_id` and every story it lists. The counter stays.
    pub fn delete_epic(&mut self, epic_id: u32) -> (r: Result<(), DbError>)
        ensures
            !old(self)@.epics.contains_key(epic_id) ==> r == Err::<(), DbError>(
                DbError::InvalidEpicId,
            ),
            old(self)@.epics.contains_key(epic_id) && old(self)@.lists_missing_story(epic_id) ==> r
                == Err::<(), DbError>(DbError::IntegrityViolation),
            old(self)@.epics.contains_key(epic_id) && !old(self)@.lists_missing_story(epic_id)
                ==> r is Ok,
            r is Ok ==> final(self)@ == old(self)@.without_epic(epic_id),
            r is Err ==> final(self)@ == old(self)@,
            r matches Err(e) ==> old(self)@.delete_epic_error(epic_id) == Some(e),
            r is Ok <==> old(self)@.delete_epic_error(epic_id) is None,
            old(self)@.wf() ==> final(self)@.wf(),
    {
        let removed = self.epics.remove(&epic_id);
        let epic = match removed {
            Some(e) => e,
            None => {
                proof {
                    assert(self@.epics =~= old(self)@.epics);
                }
                return Err(DbError::InvalidEpicId);
            },
        };
        let n = epic.stories.len();
        let mut i: usize = 0;
        while i < n
            invariant
                n == epic.stories@.len(),
                i <= n,
                old(self).epics@.contains_key(epic_id),
                epic == old(self).epics@[epic_id],
                self.epics@ == old(self).epics@.remove(epic_id),
                self.last_item_id == old(self).last_item_id,
                self.stories@ == old(self).stories@,
                forall|j: int| 0 <= j < i ==> self.stories@.contains_key(#[trigger] epic.stories@[j]),
            decreases n - i,
        {
            if !self.stories.contains_key(&epic.stories[i]) {
                self.epics.insert(epic_id, epic);
                proof {
                    assert(self@.epics =~= old(self)@.epics);
                    assert(!old(self)@.stories.contains_key(old(self)@.epics[epic_id].stories[i as int]));
                }
                return Err(DbError::IntegrityViolation);
            }
            i = i + 1;
        }
        let mut k: usize = 0;
        while k < n
            invariant
                n == epic.stories@.len(),
                k <= n,
                old(self).epics@.contains_key(epic_id),
                epic == old(self).epics@[epic_id],
                self.stories@ == old(self).stories@.remove_keys(epic.stories@.subrange(0, k as int).to_set()),
                self.epics@ == old(self).epics@.remove(epic_id),
                self.last_item_id == old(self).last_item_id,
            decreases n - k,
        {
            self.stories.remove(&epic.stories[k]);
            proof {
                let prefix = epic.stories@.subrange(0, k as int);
                assert(epic.stories@.subrange(0, k + 1) =~= prefix.push(epic.stories@[k as int]));
                prefix.lemma_push_to_set_commute(epic.stories@[k as int]);
                assert(self.stories@ =~= old(self).stories@.remove_keys(epic.stories@.subrange(0, k + 1).to_set()));
            }
            k = k + 1;
        }
        proof {
            assert(epic.stories@.subrange(0, n as int) =~= epic.stories@);
            assert(self@.epics =~= old(self)@.without_epic(epic_id).epics);
            assert(self@.stories =~= old(self)@.without_epic(epic_id).stories);
            assert(!old(self)@.lists_missing_story(epic_id));
            if old(self)@.wf() {
                lemma_without_epic_wf(old(self)@, epic_id);
            }
        }
        Ok(())
    }

    /// Removes story `story_id` from the story map and from the list of epic
    /// `epic_id`. Whether that epic lists the story is not checked: if it
    /// does not, its list stays as it was.
    pub fn delete_story(&mut self, epic_id: u32, story_id: u32) -> (r: Result<(), DbError>)
        ensures
            !old(self)@.stories.contains_key(story_id) ==> r == Err::<(), DbError>(
                DbError::InvalidStoryId,
            ),
            old(self)@.stories.contains_key(story_id) && !old(self)@.epics.contains_key(epic_id)
                ==> r == Err::<(), DbError>(DbError::InvalidEpicId),
            r is Ok <==> old(self)@.stories.contains_key(story_id) && old(self)@.epics.contains_key(
                epic_id,
            ),
            r is Ok ==> final(self)@ == old(self)@.without_story(epic_id, story_id),
            r is Err ==> final(self)@ == old(self)@,
            r matches Err(e) ==> old(self)@.delete_story_error(epic_id, story_id) == Some(e),
            r is Ok <==> old(self)@.delete_story_error(epic_id, story_id) is None,
            old(self)@.wf() && (r is Ok ==> old(self)@.epics[epic_id].stories.contains(story_id))
                ==> final(self)@.wf(),
    {
        if !self.stories.contains_key(&story_id) {
            return Err(DbError::InvalidStoryId);
        }
        let removed = self.epics.remove(&epic_id);
        let mut epic = match removed {
            Some(e) => e,
            None => {
                proof {
                    assert(self@.epics =~= old(self)@.epics);
                }
                return Err(DbError::InvalidEpicId);
            },
        };
        self.stories.remove(&story_id);
        let kept = retain_other_ids(&epic.stories, story_id);
        epic.stories = kept;
        let ghost new_epic = epic@;
        self.epics.insert(epic_id, epic);
        proof {
            let e = old(self)@.epics[epic_id];
            assert(new_epic == EpicView { stories: without(e.stories, story_id), ..e });
            assert(self@.epics =~= old(self)@.without_story(epic_id, story_id).epics);
            assert(self@.stories =~= old(self)@.without_story(epic_id, story_id).stories);
            if old(self)@.wf() && old(self)@.epics[epic_id].stories.contains(story_id) {
                lemma_without_story_wf(old(self)@, epic_id, story_id);
            }
        }
        Ok(())
    }

    /// Sets the status of epic `epic_id`.
    pub fn update_epic_status(&mut self, epic_id: u32, status: Status) -> (r: Result<
        (),
        DbError,
    >)
        ensures
            r is Ok <==> old(self)@.epics.contains_key(epic_id),
            r is Err ==> r == Err::<(), DbError>(DbError::InvalidEpicId) && final(self)@ == old(self)@,
            r is Ok ==> final(self)@ == old(self)@.with_epic_status(epic_id, status),
            r matches Err(e) ==> old(self)@.epic_status_error(epic_id) == Some(e),
            r is Ok <==> old(self)@.epic_status_error(epic_id) is None,
            old(self)@.wf() ==> final(self)@.wf(),
    {
        let removed = self.epics.remove(&epic_id);
        let mut epic = match removed {
            Some(e) => e,
            None => {
                proof {
                    assert(self@.epics =~= old(self)@.epics);
                }
                return Err(DbError::InvalidEpicId);
            },
        };
        epic.status = status;
        let ghost new_epic = epic@;
        self.epics.insert(epic_id, epic);
        proof {
            let e = old(self)@.epics[epic_id];
            assert(new_epic == EpicView { status, ..e });
            assert(self@.epics =~= old(self)@.with_epic_status(epic_id, status).epics);
            if old(self)@.wf() {
                lemma_status_updates_wf(old(self)@, epic_id, status);
            }
        }
        Ok(())
    }

    /// Sets the status of story `story_id`.
    pub fn update_story_status(&mut self, story_id: u32, status: Status) -> (r: Result<
        (),
        DbError,
    >)
        ensures
            r is Ok <==> old(self)@.stories.contains_key(story_id),
            r is Err ==> r == Err::<(), DbError>(DbError::InvalidStoryId) && final(self)@ == old(self)@,
            r is Ok ==> final(self)@ == old(self)@.with_story_status(story_id, status),
            r matches Err(e) ==> old(self)@.story_status_error(story_id) == Some(e),
            r is Ok <==> old(self)@.story_status_error(story_id) is None,
            old(self)@.wf() ==> final(self)@.wf(),
    {
        let removed = self.stories.remove(&story_id);
        let mut story = match removed {
            Some(s) => s,
            None => {
                proof {
                    assert(self@.stories =~= old(self)@.stories);
                }
                return Err(DbError::InvalidStoryId);
            },
        };
        story.status = status;
        let ghost new_story = story@;
        self.stories.insert(story_id, story);
        proof {
            let s = old(self)@.stories[story_id];
            assert(new_story == StoryView { status, ..s });
            assert(self@.stories =~= old(self)@.with_story_status(story_id, status).stories);
            if old(self)@.wf() {
                lemma_status_updates_wf(old(self)@, story_id, status);
            }
        }
        Ok(())
    }
}

/// The ids of `ids` other than `id`, in their order.
fn retain_other_ids(ids: &Vec<u32>, id: u32) -> (r: Vec<u32>)
    ensures
        r@ == without(ids@, id),
{
    let mut kept: Vec<u32> = Vec::new();
    let mut i: usize = 0;
    while i < ids.len()
        invariant
            i <= ids@.len(),
            kept@ == without(ids@.subrange(0, i as int), id),
        decreases ids@.len() - i,
    {
        proof {
            reveal(Seq::filter);
            assert(ids@.subrange(0, i + 1).drop_last() =~= ids@.subrange(0, i as int));
        }
        if ids[i] != id {
            kept.push(ids[i]);
        }
        i = i + 1;
    }
    proof {
        assert(ids@.subrange(0, ids@.len() as int) =~= ids@);
    }
    kept
}

} // verus!

verus! {

/// Storing an epic that lists no story keeps the store's invariants.
pub proof fn lemma_with_epic_wf(s: StateView, epic: EpicView)
    requires
        s.wf(),
        s.last_item_id < u32::MAX,
        epic.stories.len() == 0,
    ensures
        s.with_epic(epic).wf(),
{
    let t = s.with_epic(epic);
    let id = s.next_id();
    assert forall|e: u32, i: int|
        t.epics.contains_key(e) && 0 <= i < t.epics[e].stories.len() implies t.stories.contains_key(
        #[trigger] t.epics[e].stories[i],
    ) by {
        assert(e != id);
    }
    assert forall|k: u32| #[trigger] t.stories.contains_key(k) implies exists|e: u32|
        #![trigger t.epics[e].stories.contains(k)]
        t.epics.contains_key(e) && t.epics[e].stories.contains(k) by {
        let e = choose|e: u32|
            #![trigger s.epics[e].stories.contains(k)]
            s.epics.contains_key(e) && s.epics[e].stories.contains(k);
        assert(e != id);
        assert(t.epics[e] == s.epics[e]);
    }
    assert forall|e1: u32, e2: u32, k: u32|
        #![trigger t.epics[e1].stories.contains(k), t.epics[e2].stories.contains(k)]
        t.epics.contains_key(e1) && t.epics.contains_key(e2) && e1 != e2
            && t.epics[e1].stories.contains(k) implies !t.epics[e2].stories.contains(k) by {
        if e1 != id && e2 != id {
            assert(t.epics[e1] == s.epics[e1]);
            assert(t.epics[e2] == s.epics[e2]);
        }
    }
}

/// Storing a story under an existing epic keeps the store's invariants.
pub proof fn lemma_with_story_wf(s: StateView, story: StoryView, epic_id: u32)
    requires
        s.wf(),
        s.last_item_id < u32::MAX,
        s.epics.contains_key(epic_id),
    ensures
        s.with_story(story, epic_id).wf(),
{
    let t = s.with_story(story, epic_id);
    let id = s.next_id();
    assert(!s.stories.contains_key(id));
    assert(!s.epics.contains_key(id));
    assert forall|e: u32, i: int|
        t.epics.contains_key(e) && 0 <= i < t.epics[e].stories.len() implies t.stories.contains_key(
        #[trigger] t.epics[e].stories[i],
    ) by {
        if e == epic_id && i < s.epics[e].stories.len() {
            assert(t.epics[e].stories[i] == s.epics[e].stories[i]);
        }
    }
    assert forall|e: u32| #[trigger] t.epics.contains_key(e) implies t.epics[e].stories.no_duplicates() by {
        if e == epic_id {
            let old_list = s.epics[e].stories;
            assert forall|i: int, j: int|
                0 <= i < t.epics[e].stories.len() && 0 <= j < t.epics[e].stories.len() && i != j
                implies t.epics[e].stories[i] != t.epics[e].stories[j] by {
                if i < old_list.len() {
                    assert(s.stories.contains_key(old_list[i]));
                }
                if j < old_list.len() {
                    assert(s.stories.contains_key(old_list[j]));
                }
            }
        }
    }
    assert forall|k: u32| #[trigger] t.stories.contains_key(k) implies exists|e: u32|
        #![trigger t.epics[e].stories.contains(k)]
        t.epics.contains_key(e) && t.epics[e].stories.contains(k) by {
        if k == id {
            assert(t.epics[epic_id].stories[s.epics[epic_id].stories.len() as int] == k);
            assert(t.epics[epic_id].stories.contains(k));
        } else {
            let e = choose|e: u32|
                #![trigger s.epics[e].stories.contains(k)]
                s.epics.contains_key(e) && s.epics[e].stories.contains(k);
            if e == epic_id {
                let i = choose|i: int| 0 <= i < s.epics[e].stories.len() && s.epics[e].stories[i] == k;
                assert(t.epics[e].stories[i] == k);
                assert(t.epics[e].stories.contains(k));
            } else {
                assert(t.epics[e] == s.epics[e]);
            }
        }
    }
    assert forall|e1: u32, e2: u32, k: u32|
        #![trigger t.epics[e1].stories.contains(k), t.epics[e2].stories.contains(k)]
        t.epics.contains_key(e1) && t.epics.contains_key(e2) && e1 != e2
            && t.epics[e1].stories.contains(k) implies !t.epics[e2].stories.contains(k) by {
        if t.epics[e2].stories.contains(k) {
            let i1 = choose|i: int| 0 <= i < t.epics[e1].stories.len() && t.epics[e1].stories[i] == k;
            let i2 = choose|i: int| 0 <= i < t.epics[e2].stories.len() && t.epics[e2].stories[i] == k;
            if k == id {
                if e1 != epic_id {
                    assert(s.stories.contains_key(s.epics[e1].stories[i1]));
                } else {
                    assert(s.stories.contains_key(s.epics[e2].stories[i2]));
                }
            } else {
                if e1 == epic_id {
                    assert(s.epics[e1].stories[i1] == k);
                    assert(s.epics[e1].stories.contains(k));
                    assert(s.epics[e2].stories.contains(k));
                } else if e2 == epic_id {
                    assert(s.epics[e2].stories[i2] == k);
                    assert(s.epics[e2].stories.contains(k));
                    assert(s.epics[e1].stories.contains(k));
                } else {
                    assert(s.epics[e1].stories.contains(k));
                    assert(s.epics[e2].stories.contains(k));
                }
            }
        }
    }
}

/// Removing an epic together with the stories it lists keeps the store's
/// invariants.
pub proof fn lemma_without_epic_wf(s: StateView, epic_id: u32)
    requires
        s.wf(),
        s.epics.contains_key(epic_id),
    ensures
        s.without_epic(epic_id).wf(),
{
    let t = s.without_epic(epic_id);
    let gone = s.epics[epic_id].stories.to_set();
    assert forall|e: u32, i: int|
        t.epics.contains_key(e) && 0 <= i < t.epics[e].stories.len() implies t.stories.contains_key(
        #[trigger] t.epics[e].stories[i],
    ) by {
        let k = s.epics[e].stories[i];
        assert(s.epics[e].stories.contains(k));
        assert(s.stories.contains_key(k));
        if gone.contains(k) {
            assert(s.epics[epic_id].stories.contains(k));
        }
    }
    assert forall|k: u32| #[trigger] t.stories.contains_key(k) implies exists|e: u32|
        #![trigger t.epics[e].stories.contains(k)]
        t.epics.contains_key(e) && t.epics[e].stories.contains(k) by {
        let e = choose|e: u32|
            #![trigger s.epics[e].stories.contains(k)]
            s.epics.contains_key(e) && s.epics[e].stories.contains(k);
        assert(!gone.contains(k));
        assert(e != epic_id);
        assert(t.epics[e] == s.epics[e]);
    }
    assert forall|e1: u32, e2: u32, k: u32|
        #![trigger t.epics[e1].stories.contains(k), t.epics[e2].stories.contains(k)]
        t.epics.contains_key(e1) && t.epics.contains_key(e2) && e1 != e2
            && t.epics[e1].stories.contains(k) implies !t.epics[e2].stories.contains(k) by {
        assert(s.epics[e1].stories.contains(k));
    }
}

/// Removing a story through the epic that lists it keeps the store's
/// invariants.
pub proof fn lemma_without_story_wf(s: StateView, epic_id: u32, story_id: u32)
    requires
        s.wf(),
        s.epics.contains_key(epic_id),
        s.epics[epic_id].stories.contains(story_id),
    ensures
        s.without_story(epic_id, story_id).wf(),
{
    let t = s.without_story(epic_id, story_id);
    let old_list = s.epics[epic_id].stories;
    let new_list = without(old_list, story_id);
    assert forall|k: u32| new_list.contains(k) <==> old_list.contains(k) && k != story_id by {
        lemma_without_contains(old_list, story_id, k);
    }
    assert forall|e: u32, i: int|
        t.epics.contains_key(e) && 0 <= i < t.epics[e].stories.len() implies t.stories.contains_key(
        #[trigger] t.epics[e].stories[i],
    ) by {
        let k = t.epics[e].stories[i];
        assert(t.epics[e].stories.contains(k));
        assert(s.epics[e].stories.contains(k));
        let j = choose|j: int| 0 <= j < s.epics[e].stories.len() && s.epics[e].stories[j] == k;
        assert(s.stories.contains_key(s.epics[e].stories[j]));
        if e != epic_id && k == story_id {
            assert(s.epics[epic_id].stories.contains(k));
        }
    }
    assert forall|e: u32| #[trigger] t.epics.contains_key(e) implies t.epics[e].stories.no_duplicates() by {
        if e == epic_id {
            lemma_without_no_duplicates(old_list, story_id);
        }
    }
    assert forall|k: u32| #[trigger] t.stories.contains_key(k) implies exists|e: u32|
        #![trigger t.epics[e].stories.contains(k)]
        t.epics.contains_key(e) && t.epics[e].stories.contains(k) by {
        let e = choose|e: u32|
            #![trigger s.epics[e].stories.contains(k)]
            s.epics.contains_key(e) && s.epics[e].stories.contains(k);
        if e == epic_id {
            assert(t.epics[e].stories.contains(k));
        } else {
            assert(t.epics[e] == s.epics[e]);
        }
    }
    assert forall|e1: u32, e2: u32, k: u32|
        #![trigger t.epics[e1].stories.contains(k), t.epics[e2].stories.contains(k)]
        t.epics.contains_key(e1) && t.epics.contains_key(e2) && e1 != e2
            && t.epics[e1].stories.contains(k) implies !t.epics[e2].stories.contains(k) by {
        assert(s.epics[e1].stories.contains(k));
        if t.epics[e2].stories.contains(k) {
            assert(s.epics[e2].stories.contains(k));
        }
    }
}

/// Changing the status of an epic or a story keeps the store's invariants.
pub proof fn lemma_status_updates_wf(s: StateView, id: u32, status: Status)
    requires
        s.wf(),
    ensures
        s.epics.contains_key(id) ==> s.with_epic_status(id, status).wf(),
        s.stories.contains_key(id) ==> s.with_story_status(id, status).wf(),
{
    if s.epics.contains_key(id) {
        let t = s.with_epic_status(id, status);
        assert forall|e: u32| #[trigger] t.epics.contains_key(e) implies t.epics[e].stories
            == s.epics[e].stories by {}
        assert forall|k: u32| #[trigger] t.stories.contains_key(k) implies exists|e: u32|
            #![trigger t.epics[e].stories.contains(k)]
            t.epics.contains_key(e) && t.epics[e].stories.contains(k) by {
            let e = choose|e: u32|
                #![trigger s.epics[e].stories.contains(k)]
                s.epics.contains_key(e) && s.epics[e].stories.contains(k);
            assert(t.epics[e].stories == s.epics[e].stories);
        }
    }
    if s.stories.contains_key(id) {
        let t = s.with_story_status(id, status);
        assert(t.stories.dom() =~= s.stories.dom());
    }
}

/// Filtering a list without duplicates leaves one without duplicates.
proof fn lemma_without_no_duplicates(s: Seq<u32>, x: u32)
    requires
        s.no_duplicates(),
    ensures
        without(s, x).no_duplicates(),
    decreases s.len(),
{
    reveal(Seq::filter);
    if s.len() > 0 {
        let init = s.drop_last();
        assert(init.no_duplicates());
        lemma_without_no_duplicates(init, x);
        let f = without(init, x);
        if s.last() != x {
            if f.contains(s.last()) {
                lemma_without_contains(init, x, s.last());
                let i = choose|i: int| 0 <= i < init.len() && init[i] == s.last();
                assert(s[i] == s[s.len() - 1]);
            }
            assert forall|i: int, j: int|
                0 <= i < f.push(s.last()).len() && 0 <= j < f.push(s.last()).len() && i != j
                implies f.push(s.last())[i] != f.push(s.last())[j] by {
                if i < f.len() && j == f.len() {
                    assert(f.contains(f[i]));
                } else if j < f.len() && i == f.len() {
                    assert(f.contains(f[j]));
                }
            }
        }
    }
}

/// What is left after filtering out `x` is what was there, but `x`.
pub proof fn lemma_without_contains(s: Seq<u32>, x: u32, k: u32)
    ensures
        without(s, x).contains(k) <==> s.contains(k) && k != x,
    decreases s.len(),
{
    reveal(Seq::filter);
    if s.len() > 0 {
        let init = s.drop_last();
        lemma_without_contains(init, x, k);
        let f = without(init, x);
        if s.contains(k) && k != x {
            let i = choose|i: int| 0 <= i < s.len() && s[i] == k;
            if i < s.len() - 1 {
                assert(init[i] == k);
                let j = choose|j: int| 0 <= j < f.len() && f[j] == k;
                assert(without(s, x)[j] == k);
            } else {
                assert(without(s, x)[f.len() as int] == k);
            }
        }
        if without(s, x).contains(k) {
            let j = choose|j: int| 0 <= j < without(s, x).len() && without(s, x)[j] == k;
            if j < f.len() {
                assert(f.contains(k));
                let i = choose|i: int| 0 <= i < init.len() && init[i] == k;
                assert(s[i] == k);
            } else {
                assert(s[s.len() - 1] == k);
            }
        }
    }
}

/// Epics created one after the other receive ids that grow by one each time,
/// starting right above the counter, and each id is the counter's value once
/// its epic is stored.
pub proof fn lemma_epic_ids_are_consecutive(s: StateView, es: Seq<EpicView>)
    requires
        s.last_item_id + es.len() <= u32::MAX,
    ensures
        forall|i: int|
            0 <= i < es.len() ==> {
                let before = #[trigger] s.with_epics(es.take(i));
                let after = s.with_epics(es.take(i + 1));
                &&& before.next_id() == s.last_item_id + i + 1
                &&& after.last_item_id == before.next_id()
                &&& after.epics[before.next_id()] == es[i]
            },
    decreases es.len(),
{
    if es.len() > 0 {
        let init = es.drop_last();
        lemma_epic_ids_are_consecutive(s, init);
        assert forall|i: int| 0 <= i < es.len() implies {
            let before = #[trigger] s.with_epics(es.take(i));
            let after = s.with_epics(es.take(i + 1));
            &&& before.next_id() == s.last_item_id + i + 1
            &&& after.last_item_id == before.next_id()
            &&& after.epics[before.next_id()] == es[i]
        } by {
            lemma_counter_after_epics(s, es.take(i));
            assert(es.take(i + 1).drop_last() =~= es.take(i));
        }
    }
}

/// After `es` is created, the counter has moved by the number of epics.
proof fn lemma_counter_after_epics(s: StateView, es: Seq<EpicView>)
    requires
        s.last_item_id + es.len() <= u32::MAX,
    ensures
        s.with_epics(es).last_item_id == s.last_item_id + es.len(),
    decreases es.len(),
{
    if es.len() > 0 {
        lemma_counter_after_epics(s, es.drop_last());
    }
}

/// Deleting an epic removes it and every story it lists, and leaves the
/// counter where it was.
pub proof fn lemma_delete_epic_removes_its_stories(s: StateView, epic_id: u32)
    requires
        s.epics.contains_key(epic_id),
    ensures
        !s.without_epic(epic_id).epics.contains_key(epic_id),
        forall|k: u32|
            s.epics[epic_id].stories.contains(k) ==> !#[trigger] s.without_epic(
                epic_id,
            ).stories.contains_key(k),
        s.without_epic(epic_id).last_item_id == s.last_item_id,
{
}

/// Deleting a story removes it from the story map and from its epic's list,
/// and touches no other epic and no other story.
pub proof fn lemma_delete_story_is_local(s: StateView, epic_id: u32, story_id: u32)
    requires
        s.epics.contains_key(epic_id),
    ensures
        ({
            let t = s.without_story(epic_id, story_id);
            &&& !t.stories.contains_key(story_id)
            &&& !t.epics[epic_id].stories.contains(story_id)
            &&& forall|k: u32|
                #![trigger t.epics[epic_id].stories.contains(k)]
                k != story_id ==> (t.epics[epic_id].stories.contains(k)
                    <==> s.epics[epic_id].stories.contains(k))
            &&& t.epics[epic_id].name == s.epics[epic_id].name
            &&& t.epics[epic_id].description == s.epics[epic_id].description
            &&& t.epics[epic_id].status == s.epics[epic_id].status
            &&& t.epics.dom() == s.epics.dom()
            &&& forall|e: u32| e != epic_id ==> #[trigger] t.epics.index_opt(e) == s.epics.index_opt(e)
            &&& forall|k: u32|
                k != story_id ==> #[trigger] t.stories.index_opt(k) == s.stories.index_opt(k)
            &&& t.last_item_id == s.last_item_id
        }),
{
    let t = s.without_story(epic_id, story_id);
    lemma_without_contains(s.epics[epic_id].stories, story_id, story_id);
    assert forall|k: u32| k != story_id implies (t.epics[epic_id].stories.contains(k)
        <==> s.epics[epic_id].stories.contains(k)) by {
        lemma_without_contains(s.epics[epic_id].stories, story_id, k);
    }
    assert(t.epics.dom() =~= s.epics.dom());
}

/// Changing a status changes nothing else: names, descriptions, story lists,
/// the other items and the counter stay as they were.
pub proof fn lemma_status_update_keeps_identity(s: StateView, id: u32, status: Status)
    ensures
        s.epics.contains_key(id) ==> {
            let t = s.with_epic_status(id, status);
            &&& t.epics[id] == (EpicView { status, ..s.epics[id] })
            &&& t.epics.dom() == s.epics.dom()
            &&& forall|e: u32| e != id ==> #[trigger] t.epics.index_opt(e) == s.epics.index_opt(e)
            &&& t.stories == s.stories
            &&& t.last_item_id == s.last_item_id
        },
        s.stories.contains_key(id) ==> {
            let t = s.with_story_status(id, status);
            &&& t.stories[id] == (StoryView { status, ..s.stories[id] })
            &&& t.stories.dom() == s.stories.dom()
            &&& forall|k: u32| k != id ==> #[trigger] t.stories.index_opt(k) == s.stories.index_opt(k)
            &&& t.epics == s.epics
            &&& t.last_item_id == s.last_item_id
        },
{
    if s.epics.contains_key(id) {
        assert(s.with_epic_status(id, status).epics.dom() =~= s.epics.dom());
    }
    if s.stories.contains_key(id) {
        assert(s.with_story_status(id, status).stories.dom() =~= s.stories.dom());
    }
}

} // verus!
