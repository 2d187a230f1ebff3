use vstd::prelude::*;
use crate::command::DockerAction;

verus! {

/// Most status messages held at once; pushing past it evicts the oldest.
pub const STATUS_CAPACITY: usize = 8;

/// How serious a status message is.
#[derive(Clone, Copy, Debug, PartialEq, Eq, Structural)]
pub enum Severity {
    Info,
    Error,
}

/// A transient, operator-visible status message.
#[derive(Debug)]
pub enum Status {
    /// The daemon could not be reached at startup.
    DockerConnect,
    /// The connection to the daemon was lost.
    ConnectionLost,
    /// Listing the containers failed once.
    UpdateFailed,
    /// `action` succeeded on the container called `name`.
    ActionDone { name: String, action: DockerAction },
    /// `action` failed on the container called `name`.
    ActionFailed { name: String, action: DockerAction },
}

/// The severity that belongs to a status.
pub open spec fn severity_of(s: Status) -> Severity {
    match s {
        Status::ActionDone { .. } => Severity::Info,
        _ => Severity::Error,
    }
}

impl Status {
    pub fn severity(&self) -> (r: Severity)
        ensures
            r == severity_of(*self),
    {
        match self {
            Status::ActionDone { .. } => Severity::Info,
            _ => Severity::Error,
        }
    }
}

/// A status message with the time (milliseconds) after which it is no
/// longer shown.
#[derive(Debug)]
pub struct StatusEntry {
    pub status: Status,
    pub expires_at: u64,
}

/// The overlay shown above the container list.
#[derive(Debug)]
pub enum Modal {
    Hidden,
    /// Asks the operator to confirm `action` on container `id`.
    Confirm { id: String, action: DockerAction },
    /// Shows the logs of container `id`.
    Logs { id: String },
    Error,
    Help,
}

/// The shared UI snapshot.
pub struct GuiState {
    /// Index of the selected container; `None` when nothing is selected.
    pub selected: Option<usize>,
    pub modal: Modal,
    /// Status messages, oldest first.
    pub status: Vec<StatusEntry>,
}

/// The cursor is a valid index of a collection of `len` containers, or the
/// sentinel when the collection is empty.
pub open spec fn cursor_ok(selected: Option<usize>, len: nat) -> bool {
    match selected {
        Some(i) => i < len,
        None => len == 0,
    }
}

/// The cursor moved into range of `len` containers: kept where it is valid,
/// moved to the last row where it is past the end, the first row where there
/// was none, and the sentinel where the collection is empty.
pub open spec fn clamped(selected: Option<usize>, len: nat) -> Option<usize> {
    if len == 0 {
        None
    } else {
        match selected {
            Some(i) => if i < len { Some(i) } else { Some((len - 1) as usize) },
            None => Some(0),
        }
    }
}

/// The cursor after moving one row down, within `len` containers; with
/// nothing selected, the first row is selected.
pub open spec fn moved_down(selected: Option<usize>, len: nat) -> Option<usize> {
    match clamped(selected, len) {
        Some(i) => if selected is Some && i + 1 < len { Some((i + 1) as usize) } else { Some(i) },
        None => None,
    }
}

/// The cursor after moving one row up, within `len` containers.
pub open spec fn moved_up(selected: Option<usize>, len: nat) -> Option<usize> {
    match clamped(selected, len) {
        Some(i) => if i > 0 { Some((i - 1) as usize) } else { Some(i) },
        None => None,
    }
}

/// The queue after appending `e` to `q`, keeping the newest
/// `STATUS_CAPACITY` entries.
pub open spec fn pushed_bounded(q: Seq<StatusEntry>, e: StatusEntry) -> Seq<StatusEntry> {
    let all = q.push(e);
    if all.len() > STATUS_CAPACITY {
        all.subrange(all.len() - STATUS_CAPACITY, all.len() as int)
    } else {
        all
    }
}

/// Every cursor movement lands in range of the collection it is made
/// against, whatever the cursor was before: a valid row, or the sentinel
/// when the collection is empty.
pub proof fn lemma_cursor_moves_in_range(selected: Option<usize>, len: nat)
    requires
        len <= usize::MAX,
    ensures
        cursor_ok(clamped(selected, len), len),
        cursor_ok(moved_up(selected, len), len),
        cursor_ok(moved_down(selected, len), len),
{
}

/// Pushing onto a queue within its capacity never takes it past the
/// capacity: on a full queue the oldest entry leaves and the new one is
/// appended; on a queue with room nothing leaves.
pub proof fn lemma_status_queue_bound(q: Seq<StatusEntry>, e: StatusEntry)
    requires
        q.len() <= STATUS_CAPACITY,
    ensures
        pushed_bounded(q, e).len() <= STATUS_CAPACITY,
        q.len() == STATUS_CAPACITY ==> pushed_bounded(q, e) == q.drop_first().push(e),
        q.len() < STATUS_CAPACITY ==> pushed_bounded(q, e) == q.push(e),
{
    if q.len() == STATUS_CAPACITY {
        assert(pushed_bounded(q, e) =~= q.drop_first().push(e));
    }
}

impl GuiState {
    /// Nothing selected, no overlay, no status.
    pub fn new() -> (r: GuiState)
        ensures
            r.selected is None,
            r.modal is Hidden,
            r.status@.len() == 0,
    {
        GuiState { selected: None, modal: Modal::Hidden, status: Vec::new() }
    }

    /// Moves the cursor into range of a collection of `len` containers.
    pub fn clamp_selection(&mut self, len: usize)
        ensures
            final(self).selected == clamped(old(self).selected, len as nat),
            cursor_ok(final(self).selected, len as nat),
            final(self).modal == old(self).modal,
            final(self).status == old(self).status,
    {
        if len == 0 {
            self.selected = None;
        } else {
            match self.selected {
                Some(i) => {
                    if i >= len {
                        self.selected = Some(len - 1);
                    }
                },
                None => {
                    self.selected = Some(0);
                },
            }
        }
    }

    /// Selects the next row of `len` containers, staying on the last one.
    pub fn next(&mut self, len: usize)
        ensures
            final(self).selected == moved_down(old(self).selected, len as nat),
            cursor_ok(final(self).selected, len as nat),
            final(self).modal == old(self).modal,
            final(self).status == old(self).status,
    {
        let had_selection = self.selected.is_some();
        self.clamp_selection(len);
        if let Some(i) = self.selected {
            if had_selection && i + 1 < len {
                self.selected = Some(i + 1);
            }
        }
    }

    /// Selects the previous row of `len` containers, staying on the first.
    pub fn previous(&mut self, len: usize)
        ensures
            final(self).selected == moved_up(old(self).selected, len as nat),
            cursor_ok(final(self).selected, len as nat),
            final(self).modal == old(self).modal,
            final(self).status == old(self).status,
    {
        self.clamp_selection(len);
        if let Some(i) = self.selected {
            if i > 0 {
                self.selected = Some(i - 1);
            }
        }
    }

    /// Appends a status message expiring at `expires_at`; where the queue
    /// would exceed its capacity, the oldest entries are evicted first.
    pub fn status_push(&mut self, status: Status, expires_at: u64)
        ensures
            final(self).status@ == pushed_bounded(old(self).status@, StatusEntry { status, expires_at }),
            final(self).status@.len() <= STATUS_CAPACITY,
            final(self).selected == old(self).selected,
            final(self).modal == old(self).modal,
    {
        let ghost target = pushed_bounded(old(self).status@, StatusEntry { status, expires_at });
        let ghost all = old(self).status@.push(StatusEntry { status, expires_at });
        self.status.push(StatusEntry { status, expires_at });
        assert(self.status@ == all);
        while self.status.len() > STATUS_CAPACITY
            invariant
                self.status@.len() >= 1,
                all.len() >= self.status@.len(),
                self.status@.len() == all.len() || self.status@.len() >= STATUS_CAPACITY,
                self.selected == old(self).selected,
                self.modal == old(self).modal,
                self.status@ == all.subrange(all.len() - self.status@.len(), all.len() as int),
            decreases self.status.len(),
        {
            let ghost before = self.status@;
            self.status.remove(0);
            assert(self.status@ == before.remove(0));
            assert(self.status@.len() == before.len() - 1);
            assert forall|i: int| 0 <= i < self.status@.len() implies #[trigger] self.status@[i]
                == all[all.len() - self.status@.len() + i] by {
                assert(self.status@[i] == before[i + 1]);
            }
            assert(self.status@ =~= all.subrange(all.len() - self.status@.len(), all.len() as int));
        }
        proof {
            if all.len() <= STATUS_CAPACITY {
                assert(self.status@ =~= all);
            } else {
                assert(self.status@ =~= target);
            }
        }
    }

    /// Drops the status messages whose expiry is at or before `now`.
    pub fn status_expire(&mut self, now: u64)
        ensures
            final(self).status@ == old(self).status@.filter(|e: StatusEntry| e.expires_at > now),
            final(self).selected == old(self).selected,
            final(self).modal == old(self).modal,
    {
        let ghost orig = old(self).status@;
        let mut kept: Vec<StatusEntry> = Vec::new();
        let mut rest: Vec<StatusEntry> = Vec::new();
        std::mem::swap(&mut rest, &mut self.status);
        let ghost n = orig.len();
        assert(orig.subrange(0, 0) =~= Seq::<StatusEntry>::empty());
        proof {
            reveal(Seq::filter);
        }
        assert(orig.subrange(0, n as int) =~= orig);
        while rest.len() > 0
            invariant
                rest@.len() <= n,
                n == orig.len(),
                rest@ == orig.subrange(n - rest@.len(), n as int),
                kept@ == orig.subrange(0, n - rest@.len()).filter(|e: StatusEntry| e.expires_at > now),
            decreases rest.len(),
        {
            let ghost k = n - rest@.len();
            let e = rest.remove(0);
            proof {
                reveal(Seq::filter);
            }
            assert(e == orig[k]);
            assert(orig.subrange(0, k + 1).drop_last() =~= orig.subrange(0, k));
            if e.expires_at > now {
                kept.push(e);
            }
            assert(rest@ =~= orig.subrange(n - rest@.len(), n as int));
        }
        self.status = kept;
    }
}

} // verus!
