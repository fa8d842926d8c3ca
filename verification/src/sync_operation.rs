//! Progress and cancellation of one transfer.

use crate::model::{SyncProgress, SyncProgressPhase, SyncProgressView, TransferDirection};
use crate::text;
use crate::text::clone_optional;
use vstd::prelude::*;

verus! {

/// The progress of a transfer, and the hooks that wait for its cancellation.
///
/// A hook is any value that stands for work to be done: the operation keeps it
/// until the transfer is cancelled and then hands it out to be run.
pub struct HostSyncOperation<H> {
    cancelled: bool,
    transferred: u64,
    total: u64,
    phase: SyncProgressPhase,
    transfer_id: Option<String>,
    cancel_hooks: Vec<H>,
}

/// The observer of a transfer.
pub type SyncObserver<H> = HostSyncOperation<H>;

/// The model of [`HostSyncOperation`].
#[verifier::ext_equal]
#[verifier::reject_recursive_types(H)]
pub struct SyncOperationView<H> {
    pub cancelled: bool,
    pub transferred: u64,
    pub total: u64,
    pub phase: SyncProgressPhase,
    pub transfer_id: Option<Seq<char>>,
    pub hooks: Seq<H>,
}

impl<H> SyncOperationView<H> {
    /// The state after a cancellation.
    pub open spec fn after_cancel(self) -> Self {
        SyncOperationView { cancelled: true, hooks: Seq::empty(), ..self }
    }
}

impl<H> SyncOperationView<H> {
    /// The operation with one more hook, and the hook if it is to be run at once.
    pub open spec fn with_hook(self, hook: H) -> (Self, Option<H>) {
        if self.cancelled {
            (self, Some(hook))
        } else {
            (SyncOperationView { hooks: self.hooks.push(hook), ..self }, None)
        }
    }
}

/// A cancellation hands out every hook and keeps none, so no hook is handed out
/// twice; a second cancellation changes nothing.
pub proof fn hooks_are_handed_out_once<H>(operation: SyncOperationView<H>)
    ensures
        operation.after_cancel().cancelled,
        operation.after_cancel().hooks.len() == 0,
        operation.after_cancel().after_cancel() == operation.after_cancel(),
{
}

impl<H> View for HostSyncOperation<H> {
    type V = SyncOperationView<H>;

    closed spec fn view(&self) -> SyncOperationView<H> {
        SyncOperationView {
            cancelled: self.cancelled,
            transferred: self.transferred,
            total: self.total,
            phase: self.phase,
            transfer_id: text::optional(self.transfer_id),
            hooks: self.cancel_hooks@,
        }
    }
}

impl<H> HostSyncOperation<H> {
    /// An operation that has not begun.
    pub fn new() -> (operation: Self)
        ensures
            operation@ == (SyncOperationView {
                cancelled: false,
                transferred: 0,
                total: 0,
                phase: SyncProgressPhase::Hashing,
                transfer_id: None,
                hooks: Seq::<H>::empty(),
            }),
    {
        HostSyncOperation {
            cancelled: false,
            transferred: 0,
            total: 0,
            phase: SyncProgressPhase::Hashing,
            transfer_id: None,
            cancel_hooks: Vec::new(),
        }
    }

    /// Cancels the operation. The hooks that waited for it are handed out, to be
    /// run once each in the order of their registration.
    pub fn cancel(&mut self) -> (hooks: Vec<H>)
        ensures
            hooks@ == old(self)@.hooks,
            final(self)@ == old(self)@.after_cancel(),
    {
        self.cancelled = true;
        let mut hooks: Vec<H> = Vec::new();
        std::mem::swap(&mut hooks, &mut self.cancel_hooks);
        hooks
    }

    /// Whether the operation has been cancelled.
    pub fn is_cancelled(&self) -> (cancelled: bool)
        ensures
            cancelled == self@.cancelled,
    {
        self.cancelled
    }

    /// Enters a phase with its counts.
    pub fn phase(&mut self, phase: SyncProgressPhase, transferred: u64, total: u64)
        ensures
            final(self)@ == (SyncOperationView { phase, transferred, total, ..old(self)@ }),
    {
        self.total = total;
        self.transferred = transferred;
        self.phase = phase;
    }

    /// Sets the number of bytes that have been transferred.
    pub fn transferred(&mut self, transferred: u64)
        ensures
            final(self)@ == (SyncOperationView { transferred, ..old(self)@ }),
    {
        self.transferred = transferred;
    }

    /// Notes the identifier of the transfer.
    pub fn transfer_id(&mut self, transfer_id: String)
        ensures
            final(self)@ == (SyncOperationView { transfer_id: Some(transfer_id@), ..old(self)@ }),
    {
        self.transfer_id = Some(transfer_id);
    }

    /// Registers a hook for the cancellation. After it the hook is handed back,
    /// to be run at once.
    pub fn on_cancel(&mut self, hook: H) -> (run_now: Option<H>)
        ensures
            (final(self)@, run_now) == old(self)@.with_hook(hook),
    {
        if self.cancelled {
            Some(hook)
        } else {
            self.cancel_hooks.push(hook);
            None
        }
    }

    /// The progress of the operation, for a client.
    pub fn snapshot(
        &self,
        operation_id: String,
        direction: TransferDirection,
        remote_path: String,
    ) -> (progress: SyncProgress)
        ensures
            progress@ == (SyncProgressView {
                operation_id: operation_id@,
                transfer_id: self@.transfer_id,
                direction,
                remote_path: remote_path@,
                phase: self@.phase,
                transferred: self@.transferred,
                total: self@.total,
            }),
    {
        SyncProgress {
            operation_id,
            transfer_id: clone_optional(&self.transfer_id),
            direction,
            remote_path,
            phase: self.phase,
            transferred: self.transferred,
            total: self.total,
        }
    }
}

/// A hook runs once: one that was registered in time is handed out by the cancellation,
/// behind those before it, and one that comes too late is handed back at once.
pub proof fn every_hook_runs_once<H>(operation: SyncOperationView<H>, hook: H)
    ensures
        ({
            let (kept, now) = operation.with_hook(hook);
            &&& operation.cancelled ==> now == Some(hook) && kept == operation
            &&& !operation.cancelled ==> {
                &&& now is None
                &&& kept.hooks.len() == operation.hooks.len() + 1
                &&& kept.hooks.last() == hook
                &&& kept.hooks.drop_last() == operation.hooks
                &&& !kept.cancelled
            }
            &&& kept.after_cancel().with_hook(hook).1 == Some(hook)
            &&& kept.transferred == operation.transferred
            &&& kept.phase == operation.phase
            &&& kept.transfer_id == operation.transfer_id
        }),
{
    if !operation.cancelled {
        assert(operation.with_hook(hook).0.hooks.drop_last() =~= operation.hooks);
    }
}

} // verus!
