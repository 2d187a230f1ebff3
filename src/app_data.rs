use vstd::prelude::*;
use crate::model::{AppError, ContainerRecord, RecordView, records_view};
use crate::reconcile::{reconciled, reconcile};

verus! {

/// The shared domain snapshot: the containers in display order and the
/// fatal error, if one was recorded.
pub struct AppData {
    pub containers: Vec<ContainerRecord>,
    pub error: Option<AppError>,
}

impl AppData {
    /// The model of the container collection.
    pub open spec fn containers_view(&self) -> Seq<RecordView> {
        records_view(self.containers@)
    }

    /// An empty snapshot with no error.
    pub fn new() -> (r: AppData)
        ensures
            r.containers_view().len() == 0,
            r.error is None,
    {
        AppData { containers: Vec::new(), error: None }
    }

    /// Records a fatal error. The first one recorded stays: at most one is
    /// active.
    pub fn set_error(&mut self, e: AppError)
        ensures
            final(self).error == (match old(self).error {
                Some(prev) => Some(prev),
                None => Some(e),
            }),
            final(self).containers == old(self).containers,
    {
        if self.error.is_none() {
            self.error = Some(e);
        }
    }

    /// The fatal error, if one was recorded.
    pub fn get_error(&self) -> (r: Option<AppError>)
        ensures
            r == self.error,
    {
        self.error
    }

    /// Number of known containers.
    pub fn len(&self) -> (r: usize)
        ensures
            r == self.containers_view().len(),
    {
        self.containers.len()
    }

    /// Reconciles the collection against a runtime listing, unless a fatal
    /// error is latched, in which case nothing changes.
    pub fn apply_listing(&mut self, listing: &Vec<ContainerRecord>)
        ensures
            final(self).error == old(self).error,
            final(self).containers_view() == (if old(self).error is Some {
                old(self).containers_view()
            } else {
                reconciled(old(self).containers_view(), records_view(listing@))
            }),
    {
        if self.error.is_none() {
            reconcile(&mut self.containers, listing);
        }
    }
}

} // verus!
