use crate::error::ControlError;
use vstd::prelude::*;

verus! {

/// One configuration domain: the last known-good value and, while a
/// mutation is in flight, a draft of the next one.
///
/// The committed value changes in `apply` and nowhere else.
pub struct Draft<T> {
    committed: T,
    draft: Option<T>,
}

/// What a `Draft` holds.
pub ghost struct DraftView<T> {
    /// The last known-good value.
    pub committed: T,
    /// The draft, where a mutation is in flight.
    pub pending: Option<T>,
}

impl<T> DraftView<T> {
    /// The draft where there is one, else the committed value.
    pub open spec fn latest(self) -> T {
        match self.pending {
            Some(value) => value,
            None => self.committed,
        }
    }

    /// The domain with `value` as its draft.
    pub open spec fn staged(self, value: T) -> Self {
        DraftView { committed: self.committed, pending: Some(value) }
    }

    /// The domain after commit: the draft, where there is one, has become
    /// the committed value.
    pub open spec fn applied(self) -> Self {
        DraftView { committed: self.latest(), pending: None }
    }

    /// The domain after rollback: the draft is gone.
    pub open spec fn discarded(self) -> Self {
        DraftView { committed: self.committed, pending: None }
    }

    /// The domain after each of `values` was staged in turn.
    pub open spec fn staged_all(self, values: Seq<T>) -> Self
        decreases values.len(),
    {
        if values.len() == 0 {
            self
        } else {
            self.staged_all(values.drop_last()).staged(values.last())
        }
    }

    /// A mutation that is rolled back leaves no trace: after any number of
    /// stagings, rollback gives back the committed value from before the
    /// first of them, and no draft.
    pub proof fn lemma_discard_restores_committed(self, values: Seq<T>)
        ensures
            self.staged_all(values).discarded() == self.discarded(),
            self.staged_all(values).discarded().committed == self.committed,
        decreases values.len(),
    {
        if values.len() > 0 {
            self.lemma_discard_restores_committed(values.drop_last());
        }
    }

    /// Until commit the committed value is what it was, however often a
    /// draft was staged.
    pub proof fn lemma_staging_keeps_committed(self, values: Seq<T>)
        ensures
            self.staged_all(values).committed == self.committed,
        decreases values.len(),
    {
        if values.len() > 0 {
            self.lemma_staging_keeps_committed(values.drop_last());
        }
    }
}

/// Turns what the write of a committed value to disk gave into a result.
///
/// A write that failed is reported and nothing more: the commit stands,
/// since the actions that led to it have been carried out, and the value
/// in memory stays the one that counts for the session.
pub fn persist_result(written: Result<(), String>) -> (r: Result<(), ControlError>)
    ensures
        match written {
            Ok(_) => r is Ok,
            Err(reason) => r == Err::<(), ControlError>(ControlError::PersistenceFailure(reason)),
        },
{
    match written {
        Ok(_) => Ok(()),
        Err(reason) => Err(ControlError::PersistenceFailure(reason)),
    }
}

impl<T> View for Draft<T> {
    type V = DraftView<T>;

    closed spec fn view(&self) -> DraftView<T> {
        DraftView { committed: self.committed, pending: self.draft }
    }
}

impl<T> Draft<T> {
    /// A domain that holds `data` and no draft.
    pub fn new(data: T) -> (r: Self)
        ensures
            r@ == (DraftView { committed: data, pending: None }),
    {
        Draft { committed: data, draft: None }
    }

    /// The committed value.
    pub fn data_ref(&self) -> (r: &T)
        ensures
            *r == self@.committed,
    {
        &self.committed
    }

    /// The draft where there is one, else the committed value.
    pub fn latest_ref(&self) -> (r: &T)
        ensures
            *r == self@.latest(),
    {
        match &self.draft {
            Some(value) => value,
            None => &self.committed,
        }
    }

    /// Whether a mutation is in flight.
    pub fn has_draft(&self) -> (r: bool)
        ensures
            r == self@.pending.is_some(),
    {
        self.draft.is_some()
    }

    /// Makes `value` the draft, in place of an earlier one if there was
    /// one. The committed value stays.
    pub fn stage(&mut self, value: T)
        ensures
            final(self)@ == old(self)@.staged(value),
    {
        self.draft = Some(value);
    }

    /// Commits: the draft becomes the committed value and is cleared.
    /// Returns the value that was committed before, or `None` where there
    /// was no draft, in which case nothing changes.
    pub fn apply(&mut self) -> (previous: Option<T>)
        ensures
            final(self)@ == old(self)@.applied(),
            previous == match old(self)@.pending {
                Some(_) => Some(old(self)@.committed),
                None => None,
            },
    {
        match self.draft.take() {
            Some(value) => {
                let mut previous = value;
                std::mem::swap(&mut self.committed, &mut previous);
                Some(previous)
            },
            None => None,
        }
    }

    /// Rolls back: the draft is cleared and returned, the committed value
    /// stays.
    pub fn discard(&mut self) -> (dropped: Option<T>)
        ensures
            final(self)@ == old(self)@.discarded(),
            dropped == old(self)@.pending,
    {
        self.draft.take()
    }
}

} // verus!
