use vstd::prelude::*;

use crate::error::DbError;

verus! {

/// An open native database session, held as the address that the native
/// `create` returned. The address is never zero.
pub struct DatabaseHandle {
    addr: usize,
}

impl DatabaseHandle {
    pub closed spec fn spec_addr(&self) -> usize {
        self.addr
    }

    pub closed spec fn wf(&self) -> bool {
        self.addr != 0
    }

    /// The address to hand to the native calls.
    pub fn addr(&self) -> (r: usize)
        ensures
            r == self.spec_addr(),
    {
        self.addr
    }
}

/// One database session of the binding. It owns its native handle until
/// `close` gives the handle back, which happens at most once.
pub struct Database {
    handle: Option<DatabaseHandle>,
}

/// The effect of one `close` on the handle a database still owns: the new
/// state, and the address to release, if any.
pub open spec fn close_effect(owned: Option<usize>) -> (Option<usize>, Option<usize>) {
    (None, owned)
}

/// What a native `set` status means.
pub open spec fn set_result(code: i32) -> Result<(), DbError> {
    if code == 0 {
        Ok(())
    } else {
        Err(DbError::OperationFailed)
    }
}

impl View for Database {
    type V = Option<usize>;

    /// The address of the native handle this database still owns.
    closed spec fn view(&self) -> Option<usize> {
        match self.handle {
            Some(h) => Some(h.spec_addr()),
            None => None,
        }
    }
}

impl Database {
    pub closed spec fn wf(&self) -> bool {
        match self.handle {
            Some(h) => h.wf(),
            None => true,
        }
    }

    /// Takes what the native `create` returned: a null address means that the
    /// database could not be created.
    pub fn from_native(addr: usize) -> (r: Result<Database, DbError>)
        ensures
            addr == 0 ==> r == Err::<Database, DbError>(DbError::CreationFailed),
            addr != 0 ==> (r matches Ok(db) && db@ == Some(addr) && db.wf()),
    {
        if addr == 0 {
            Err(DbError::CreationFailed)
        } else {
            Ok(Database { handle: Some(DatabaseHandle { addr }) })
        }
    }

    /// Whether the database still owns its native handle.
    pub fn is_open(&self) -> (r: bool)
        ensures
            r == (self@ is Some),
    {
        self.handle.is_some()
    }

    /// The address to pass to a native `set` or `get`. A closed database
    /// hands out none: a released handle must never reach the native side.
    pub fn handle(&self) -> (r: Result<usize, DbError>)
        requires
            self.wf(),
        ensures
            self@ matches Some(a) ==> (r == Ok::<usize, DbError>(a) && a != 0),
            self@ is None ==> r == Err::<usize, DbError>(DbError::InvalidArgument),
    {
        match &self.handle {
            Some(h) => Ok(h.addr()),
            None => Err(DbError::InvalidArgument),
        }
    }

    /// Maps the status of a native `set`: zero is success, anything else a
    /// failed operation.
    pub fn set_outcome(code: libc::c_int) -> (r: Result<(), DbError>)
        ensures
            r == set_result(code),
    {
        if code == 0 {
            Ok(())
        } else {
            Err(DbError::OperationFailed)
        }
    }

    /// Gives up the native handle. The first call returns its address, for
    /// the caller to release; every later call returns `None`.
    pub fn close(&mut self) -> (r: Option<usize>)
        requires
            old(self).wf(),
        ensures
            (final(self)@, r) == close_effect(old(self)@),
            final(self).wf(),
            r matches Some(a) ==> a != 0,
    {
        match self.handle.take() {
            Some(h) => Some(h.addr()),
            None => None,
        }
    }
}

/// Closing a database twice releases its handle once: the first close hands
/// out the handle it owned, the second hands out nothing.
pub proof fn lemma_close_releases_once(owned: Option<usize>)
    ensures
        close_effect(owned).1 == owned,
        close_effect(close_effect(owned).0).1 is None,
{
}

} // verus!
