//! Datastore errors and which of them are transient contention.
use vstd::prelude::*;

verus! {

/// MySQL server error number for a lock wait that timed out.
pub const ER_LOCK_WAIT_TIMEOUT: u16 = 1205;

/// MySQL server error number for a detected deadlock.
pub const ER_LOCK_DEADLOCK: u16 = 1213;

/// An error reported by the datastore, as plain values.
pub struct DbError {
    /// The five-character SQLSTATE, where the datastore gave one.
    pub sqlstate: Option<String>,
    /// The server's own error number, where the datastore gave one.
    pub number: Option<u16>,
    /// A human-readable description, kept for diagnostics.
    pub message: String,
}

/// The SQLSTATE for a serialization failure: a deadlock was detected and the
/// transaction was chosen as its victim.
pub open spec fn sqlstate_deadlock() -> Seq<char> {
    seq!['4', '0', '0', '0', '1']
}

/// The kind of a datastore error as the retry decision sees it.
pub enum ErrorClass {
    /// A lock wait timeout or a deadlock: expected to clear on retry.
    TransientContention,
    /// Anything else: surfaced to the caller, never retried.
    Fatal,
}

impl DbError {
    /// An error is transient contention when its SQLSTATE reports a deadlock
    /// or its server error number reports a lock wait timeout or a deadlock.
    pub open spec fn is_transient(&self) -> bool {
        ||| (self.sqlstate matches Some(s) && s@ == sqlstate_deadlock())
        ||| self.number == Some(ER_LOCK_WAIT_TIMEOUT)
        ||| self.number == Some(ER_LOCK_DEADLOCK)
    }

    /// Whether this error is transient contention.
    pub fn is_transient_contention(&self) -> (r: bool)
        ensures
            r == self.is_transient(),
    {
        let by_state = match &self.sqlstate {
            Some(s) => is_deadlock_sqlstate(s.as_str()),
            None => false,
        };
        let by_number = match self.number {
            Some(n) => n == ER_LOCK_WAIT_TIMEOUT || n == ER_LOCK_DEADLOCK,
            None => false,
        };
        by_state || by_number
    }

    /// The class of this error.
    pub fn classify(&self) -> (r: ErrorClass)
        ensures
            (r is TransientContention) == self.is_transient(),
    {
        if self.is_transient_contention() {
            ErrorClass::TransientContention
        } else {
            ErrorClass::Fatal
        }
    }

    /// A copy of this error, equal to it.
    pub fn duplicate(&self) -> (r: DbError)
        ensures
            r == *self,
    {
        let sqlstate = match &self.sqlstate {
            Some(s) => Some(s.clone()),
            None => None,
        };
        DbError { sqlstate, number: self.number, message: self.message.clone() }
    }
}

/// Whether `code` is the SQLSTATE of a detected deadlock.
pub fn is_deadlock_sqlstate(code: &str) -> (r: bool)
    ensures
        r == (code@ == sqlstate_deadlock()),
{
    if code.unicode_len() != 5 {
        return false;
    }
    let r = code.get_char(0) == '4' && code.get_char(1) == '0' && code.get_char(2) == '0'
        && code.get_char(3) == '0' && code.get_char(4) == '1';
    if r {
        assert(code@ =~= sqlstate_deadlock());
    }
    r
}

} // verus!
