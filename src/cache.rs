//! Decisions of the ledger that remembers which files were unpacked, so
//! that they can be removed again.

use crate::utils::SupportedDLLs;
use vstd::prelude::*;

verus! {

/// What became of one attempt to remove a file.
#[derive(Clone, Copy, Debug, PartialEq, Eq, Structural)]
pub enum RemovalOutcome {
    /// The file was removed.
    Removed,
    /// The file did not exist; there is nothing to remove.
    Missing,
    /// The file could not be removed.
    Failed,
}

/// The kind of a command as far as the ledger is concerned, with the
/// library that an unpacking selected (`None`: all of them).
#[derive(Clone, Copy, Debug, PartialEq, Eq, Structural)]
pub enum CommandKind {
    UnpackDll(Option<SupportedDLLs>),
    Clean,
    Detect,
}

impl CommandKind {
    /// Whether the command is remembered as the last one: every command but
    /// a clean-up.
    pub fn is_remembered(&self) -> (r: bool)
        ensures
            r == !(*self == CommandKind::Clean),
    {
        match self {
            CommandKind::Clean => false,
            _ => true,
        }
    }

    /// The library whose registry entries a clean-up after this command
    /// removes: the one that an unpacking selected, or all of them
    /// (`None`) after any other command.
    pub fn registry_target(&self) -> (r: Option<SupportedDLLs>)
        ensures
            r == (match *self {
                CommandKind::UnpackDll(dll) => dll,
                _ => None,
            }),
    {
        match self {
            CommandKind::UnpackDll(dll) => *dll,
            _ => None,
        }
    }
}

/// The recorded files after `extra` new ones were unpacked.
pub fn extend_recorded<P>(recorded: Option<Vec<P>>, extra: Vec<P>) -> (r: Vec<P>)
    ensures
        r@ == (match recorded {
            Some(v) => v@,
            None => Seq::<P>::empty(),
        }) + extra@,
{
    match recorded {
        Some(v) => {
            let mut all = v;
            let mut rest = extra;
            all.append(&mut rest);
            all
        },
        None => {
            let r = extra;
            assert(Seq::<P>::empty() + r@ =~= r@);
            r
        },
    }
}

/// Removal of the recorded files, newest first. A file that is missing is
/// passed over; the first failure stops the removal and keeps that file and
/// every older one on record.
pub struct DllCleanup<P> {
    pub pending: Vec<P>,
    pub failed: bool,
}

impl<P> DllCleanup<P> {
    /// A removal of the recorded files and, last recorded, of `extra`.
    pub fn new(recorded: Option<Vec<P>>, extra: P) -> (r: DllCleanup<P>)
        ensures
            r.pending@ == (match recorded {
                Some(v) => v@,
                None => Seq::<P>::empty(),
            }).push(extra),
            !r.failed,
    {
        let mut pending = match recorded {
            Some(v) => v,
            None => Vec::new(),
        };
        pending.push(extra);
        DllCleanup { pending, failed: false }
    }

    /// The file to remove next: the newest one on record, unless the
    /// removal has stopped or nothing is left.
    pub fn next(&self) -> (r: Option<&P>)
        ensures
            r.is_some() <==> (!self.failed && self.pending@.len() > 0),
            r.is_some() ==> *r->0 == self.pending@.last(),
    {
        if self.failed || self.pending.len() == 0 {
            None
        } else {
            Some(&self.pending[self.pending.len() - 1])
        }
    }

    /// Records what became of the file that [`Self::next`] named: a removed
    /// or missing file leaves the record, a failure stops the removal.
    pub fn record(&mut self, outcome: RemovalOutcome)
        requires
            !old(self).failed,
            old(self).pending@.len() > 0,
        ensures
            outcome == RemovalOutcome::Failed ==> final(self).failed && final(self).pending@
                == old(self).pending@,
            outcome != RemovalOutcome::Failed ==> !final(self).failed && final(self).pending@
                == old(self).pending@.drop_last(),
    {
        match outcome {
            RemovalOutcome::Failed => {
                self.failed = true;
            },
            _ => {
                self.pending.pop();
            },
        }
    }

    /// The files that stay on record, oldest first.
    pub fn into_remaining(self) -> (r: Vec<P>)
        ensures
            r@ == self.pending@,
    {
        self.pending
    }
}

} // verus!
