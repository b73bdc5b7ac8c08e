//! The store boundary and the repository that runs every mutation as one
//! read, check and write cycle against it.
use crate::error::DbError;
use crate::models::{DBState, Epic, StateView, Status, Story};
use vstd::prelude::*;

verus! {

/// The persistence boundary: the whole state is read and written at once.
/// An implementation may keep it in a file, in memory, or anywhere else; a
/// failure comes back as `DbError::Store`.
pub trait Database {
    fn read_db(&self) -> (r: Result<DBState, DbError>)
        ensures
            r matches Err(e) ==> e is Store,
    ;

    fn write_db(&mut self, db_state: &DBState) -> (r: Result<(), DbError>)
        ensures
            r matches Err(e) ==> e is Store,
    ;
}

/// An in-memory store that keeps the last state written to it.
pub struct MockDB {
    last_written_state: DBState,
}

impl View for MockDB {
    type V = StateView;

    closed spec fn view(&self) -> StateView {
        self.last_written_state@
    }
}

impl MockDB {
    /// A store holding the empty state.
    pub fn new() -> (r: MockDB)
        ensures
            r@ == StateView::empty(),
    {
        MockDB { last_written_state: DBState::new() }
    }
}

impl Database for MockDB {
    fn read_db(&self) -> (r: Result<DBState, DbError>)
        ensures
            r matches Ok(s) && s@ == self@,
    {
        Ok(self.last_written_state.clone())
    }

    fn write_db(&mut self, db_state: &DBState) -> (r: Result<(), DbError>)
        ensures
            r is Ok,
            final(self)@ == db_state@,
    {
        self.last_written_state = db_state.clone();
        Ok(())
    }
}

/// The in-memory store gives back what was written to it: a store that
/// `write_db` left holding `state` answers every `read_db` with a state equal
/// to it.
pub proof fn lemma_mock_round_trip(store: MockDB, state: DBState)
    requires
        store@ == state@,
    ensures
        forall|r: Result<DBState, DbError>|
            call_ensures(<MockDB as Database>::read_db, (&store,), r) ==> (r matches Ok(s) && s@
                == state@),
{
}

/// `store` can answer `read_db` with `r`.
pub open spec fn can_read<D: Database>(store: D, r: Result<DBState, DbError>) -> bool {
    call_ensures(<D as Database>::read_db, (&store,), r)
}

/// Whether an error comes from the repository's own checks rather than from
/// the store.
pub open spec fn is_rule_error(e: DbError) -> bool {
    !(e is Store)
}

/// The repository: the only component that changes the persisted state.
/// Each operation reads the state, checks it, changes it in memory and
/// writes it back; a failed check writes nothing.
pub struct JiraDatabase<D: Database> {
    pub database: Box<D>,
}

impl<D: Database> JiraDatabase<D> {
    /// A repository over `database`.
    pub fn new(database: D) -> (r: JiraDatabase<D>)
        ensures
            *r.database == database,
    {
        JiraDatabase { database: Box::new(database) }
    }

    /// Hands `state` to the store; the result and the store afterwards are
    /// what its `write_db` gives.
    fn store_state(&mut self, state: &DBState) -> (r: Result<(), DbError>)
        ensures
            r matches Err(e) ==> e is Store,
            exists|m: &mut D|
                mut_ref_current(m) == *old(self).database && mut_ref_future(m)
                    == *final(self).database && call_ensures(<D as Database>::write_db, (m, state), r),
    {
        let store: &mut D = &mut self.database;
        D::write_db(store, state)
    }

    /// The state the store holds now.
    pub fn read_db(&self) -> (r: Result<DBState, DbError>)
        ensures
            r matches Err(e) ==> e is Store,
            can_read(*self.database, r),
    {
        self.database.read_db()
    }

    /// Stores `epic` under a fresh id, see `DBState::create_epic`. Every
    /// operation of the repository is specified in the same way, over the
    /// state `s` that the store's `read_db` gave: on success the store was
    /// handed `s` changed by the operation (here the id is the next one of
    /// `s`); a refusal by the checks names the check that `s` failed and
    /// writes nothing; a store error comes from the read, or from the write
    /// of the changed state.
    pub fn create_epic(&mut self, epic: Epic) -> (r: Result<u32, DbError>)
        ensures
            r matches Ok(id) ==> exists|s: DBState|
                #[trigger] can_read(*old(self).database, Ok::<DBState, DbError>(s))
                    && s@.create_epic_error() is None && id == s@.next_id() && exists|
                    w: DBState,
                    m: &mut D,
                    done: Result<(), DbError>,
                |
                    done is Ok && w@ == s@.with_epic(epic@) && mut_ref_current(m)
                        == *old(self).database && mut_ref_future(m) == *final(self).database
                        && call_ensures(<D as Database>::write_db, (m, &w), done),
            r matches Err(e) ==> (is_rule_error(e) ==> *final(self) == *old(self) && exists|
                s: DBState,
            |
                #[trigger] can_read(*old(self).database, Ok::<DBState, DbError>(s))
                    && s@.create_epic_error() == Some(e)),
            r matches Err(e) ==> (!is_rule_error(e) ==> can_read(
                *old(self).database,
                Err::<DBState, DbError>(e),
            ) || exists|s: DBState|
                #[trigger] can_read(*old(self).database, Ok::<DBState, DbError>(s))
                    && s@.create_epic_error() is None && exists|
                    w: DBState,
                    m: &mut D,
                    done: Result<(), DbError>,
                |
                    done == Err::<(), DbError>(e) && w@ == s@.with_epic(epic@) && mut_ref_current(m)
                        == *old(self).database && call_ensures(
                        <D as Database>::write_db,
                        (m, &w),
                        done,
                    )),
    {
        let mut db_state = match self.database.read_db() {
            Ok(s) => s,
            Err(e) => return Err(e),
        };
        let ghost read = db_state;
        assert(can_read(*old(self).database, Ok::<DBState, DbError>(read)));
        let id = match db_state.create_epic(epic) {
            Ok(id) => id,
            Err(e) => return Err(e),
        };
        match self.store_state(&db_state) {
            Ok(()) => Ok(id),
            Err(e) => Err(e),
        }
    }

    /// Stores `story` under a fresh id in epic `epic_id`, see
    /// `DBState::create_story`.
    pub fn create_story(&mut self, story: Story, epic_id: u32) -> (r: Result<u32, DbError>)
        ensures
            r matches Ok(id) ==> exists|s: DBState|
                #[trigger] can_read(*old(self).database, Ok::<DBState, DbError>(s))
                    && s@.create_story_error(epic_id) is None && id == s@.next_id() && exists|
                    w: DBState,
                    m: &mut D,
                    done: Result<(), DbError>,
                |
                    done is Ok && w@ == s@.with_story(story@, epic_id) && mut_ref_current(m)
                        == *old(self).database && mut_ref_future(m) == *final(self).database
                        && call_ensures(<D as Database>::write_db, (m, &w), done),
            r matches Err(e) ==> (is_rule_error(e) ==> *final(self) == *old(self) && exists|
                s: DBState,
            |
                #[trigger] can_read(*old(self).database, Ok::<DBState, DbError>(s))
                    && s@.create_story_error(epic_id) == Some(e)),
            r matches Err(e) ==> (!is_rule_error(e) ==> can_read(
                *old(self).database,
                Err::<DBState, DbError>(e),
            ) || exists|s: DBState|
                #[trigger] can_read(*old(self).database, Ok::<DBState, DbError>(s))
                    && s@.create_story_error(epic_id) is None && exists|
                    w: DBState,
                    m: &mut D,
                    done: Result<(), DbError>,
                |
                    done == Err::<(), DbError>(e) && w@ == s@.with_story(story@, epic_id) && mut_ref_current(m)
                        == *old(self).database && call_ensures(
                        <D as Database>::write_db,
                        (m, &w),
                        done,
                    )),
    {
        let mut db_state = match self.database.read_db() {
            Ok(s) => s,
            Err(e) => return Err(e),
        };
        let ghost read = db_state;
        assert(can_read(*old(self).database, Ok::<DBState, DbError>(read)));
        let id = match db_state.create_story(story, epic_id) {
            Ok(id) => id,
            Err(e) => return Err(e),
        };
        match self.store_state(&db_state) {
            Ok(()) => Ok(id),
            Err(e) => Err(e),
        }
    }

    /// Removes epic `epic_id` and its stories, see `DBState::delete_epic`.
    pub fn delete_epic(&mut self, epic_id: u32) -> (r: Result<(), DbError>)
        ensures
            r is Ok ==> exists|s: DBState|
                #[trigger] can_read(*old(self).database, Ok::<DBState, DbError>(s))
                    && s@.delete_epic_error(epic_id) is None && exists|
                    w: DBState,
                    m: &mut D,
                    done: Result<(), DbError>,
                |
                    done is Ok && w@ == s@.without_epic(epic_id) && mut_ref_current(m)
                        == *old(self).database && mut_ref_future(m) == *final(self).database
                        && call_ensures(<D as Database>::write_db, (m, &w), done),
            r matches Err(e) ==> (is_rule_error(e) ==> *final(self) == *old(self) && exists|
                s: DBState,
            |
                #[trigger] can_read(*old(self).database, Ok::<DBState, DbError>(s))
                    && s@.delete_epic_error(epic_id) == Some(e)),
            r matches Err(e) ==> (!is_rule_error(e) ==> can_read(
                *old(self).database,
                Err::<DBState, DbError>(e),
            ) || exists|s: DBState|
                #[trigger] can_read(*old(self).database, Ok::<DBState, DbError>(s))
                    && s@.delete_epic_error(epic_id) is None && exists|
                    w: DBState,
                    m: &mut D,
                    done: Result<(), DbError>,
                |
                    done == Err::<(), DbError>(e) && w@ == s@.without_epic(epic_id) && mut_ref_current(m)
                        == *old(self).database && call_ensures(
                        <D as Database>::write_db,
                        (m, &w),
                        done,
                    )),
    {
        let mut db_state = match self.database.read_db() {
            Ok(s) => s,
            Err(e) => return Err(e),
        };
        let ghost read = db_state;
        assert(can_read(*old(self).database, Ok::<DBState, DbError>(read)));
        match db_state.delete_epic(epic_id) {
            Ok(()) => {},
            Err(e) => return Err(e),
        }
        self.store_state(&db_state)
    }

    /// Removes story `story_id` through epic `epic_id`, see
    /// `DBState::delete_story`.
    pub fn delete_story(&mut self, epic_id: u32, story_id: u32) -> (r: Result<(), DbError>)
        ensures
            r is Ok ==> exists|s: DBState|
                #[trigger] can_read(*old(self).database, Ok::<DBState, DbError>(s))
                    && s@.delete_story_error(epic_id, story_id) is None && exists|
                    w: DBState,
                    m: &mut D,
                    done: Result<(), DbError>,
                |
                    done is Ok && w@ == s@.without_story(epic_id, story_id) && mut_ref_current(m)
                        == *old(self).database && mut_ref_future(m) == *final(self).database
                        && call_ensures(<D as Database>::write_db, (m, &w), done),
            r matches Err(e) ==> (is_rule_error(e) ==> *final(self) == *old(self) && exists|
                s: DBState,
            |
                #[trigger] can_read(*old(self).database, Ok::<DBState, DbError>(s))
                    && s@.delete_story_error(epic_id, story_id) == Some(e)),
            r matches Err(e) ==> (!is_rule_error(e) ==> can_read(
                *old(self).database,
                Err::<DBState, DbError>(e),
            ) || exists|s: DBState|
                #[trigger] can_read(*old(self).database, Ok::<DBState, DbError>(s))
                    && s@.delete_story_error(epic_id, story_id) is None && exists|
                    w: DBState,
                    m: &mut D,
                    done: Result<(), DbError>,
                |
                    done == Err::<(), DbError>(e) && w@ == s@.without_story(epic_id, story_id) && mut_ref_current(m)
                        == *old(self).database && call_ensures(
                        <D as Database>::write_db,
                        (m, &w),
                        done,
                    )),
    {
        let mut db_state = match self.database.read_db() {
            Ok(s) => s,
            Err(e) => return Err(e),
        };
        let ghost read = db_state;
        assert(can_read(*old(self).database, Ok::<DBState, DbError>(read)));
        match db_state.delete_story(epic_id, story_id) {
            Ok(()) => {},
            Err(e) => return Err(e),
        }
        self.store_state(&db_state)
    }

    /// Sets the status of epic `epic_id`, see `DBState::update_epic_status`.
    pub fn update_epic_status(&mut self, epic_id: u32, status: Status) -> (r: Result<
        (),
        DbError,
    >)
        ensures
            r is Ok ==> exists|s: DBState|
                #[trigger] can_read(*old(self).database, Ok::<DBState, DbError>(s))
                    && s@.epic_status_error(epic_id) is None && exists|
                    w: DBState,
                    m: &mut D,
                    done: Result<(), DbError>,
                |
                    done is Ok && w@ == s@.with_epic_status(epic_id, status) && mut_ref_current(m)
                        == *old(self).database && mut_ref_future(m) == *final(self).database
                        && call_ensures(<D as Database>::write_db, (m, &w), done),
            r matches Err(e) ==> (is_rule_error(e) ==> *final(self) == *old(self) && exists|
                s: DBState,
            |
                #[trigger] can_read(*old(self).database, Ok::<DBState, DbError>(s))
                    && s@.epic_status_error(epic_id) == Some(e)),
            r matches Err(e) ==> (!is_rule_error(e) ==> can_read(
                *old(self).database,
                Err::<DBState, DbError>(e),
            ) || exists|s: DBState|
                #[trigger] can_read(*old(self).database, Ok::<DBState, DbError>(s))
                    && s@.epic_status_error(epic_id) is None && exists|
                    w: DBState,
                    m: &mut D,
                    done: Result<(), DbError>,
                |
                    done == Err::<(), DbError>(e) && w@ == s@.with_epic_status(epic_id, status) && mut_ref_current(m)
                        == *old(self).database && call_ensures(
                        <D as Database>::write_db,
                        (m, &w),
                        done,
                    )),
    {
        let mut db_state = match self.database.read_db() {
            Ok(s) => s,
            Err(e) => return Err(e),
        };
        let ghost read = db_state;
        assert(can_read(*old(self).database, Ok::<DBState, DbError>(read)));
        match db_state.update_epic_status(epic_id, status) {
            Ok(()) => {},
            Err(e) => return Err(e),
        }
        self.store_state(&db_state)
    }

    /// Sets the status of story `story_id`, see `DBState::update_story_status`.
    pub fn update_story_status(&mut self, story_id: u32, status: Status) -> (r: Result<
        (),
        DbError,
    >)
        ensures
            r is Ok ==> exists|s: DBState|
                #[trigger] can_read(*old(self).database, Ok::<DBState, DbError>(s))
                    && s@.story_status_error(story_id) is None && exists|
                    w: DBState,
                    m: &mut D,
                    done: Result<(), DbError>,
                |
                    done is Ok && w@ == s@.with_story_status(story_id, status) && mut_ref_current(m)
                        == *old(self).database && mut_ref_future(m) == *final(self).database
                        && call_ensures(<D as Database>::write_db, (m, &w), done),
            r matches Err(e) ==> (is_rule_error(e) ==> *final(self) == *old(self) && exists|
                s: DBState,
            |
                #[trigger] can_read(*old(self).database, Ok::<DBState, DbError>(s))
                    && s@.story_status_error(story_id) == Some(e)),
            r matches Err(e) ==> (!is_rule_error(e) ==> can_read(
                *old(self).database,
                Err::<DBState, DbError>(e),
            ) || exists|s: DBState|
                #[trigger] can_read(*old(self).database, Ok::<DBState, DbError>(s))
                    && s@.story_status_error(story_id) is None && exists|
                    w: DBState,
                    m: &mut D,
                    done: Result<(), DbError>,
                |
                    done == Err::<(), DbError>(e) && w@ == s@.with_story_status(story_id, status) && mut_ref_current(m)
                        == *old(self).database && call_ensures(
                        <D as Database>::write_db,
                        (m, &w),
                        done,
                    )),
    {
        let mut db_state = match self.database.read_db() {
            Ok(s) => s,
            Err(e) => return Err(e),
        };
        let ghost read = db_state;
        assert(can_read(*old(self).database, Ok::<DBState, DbError>(read)));
        match db_state.update_story_status(story_id, status) {
            Ok(()) => {},
            Err(e) => return Err(e),
        }
        self.store_state(&db_state)
    }
}

} // verus!
