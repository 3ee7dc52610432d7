use crate::error::OsError;
use crate::secattr::SecurityDescriptor;
use vstd::prelude::*;

verus! {

/// A system call on the way to a usable security descriptor.
#[derive(Clone, Copy, Debug, PartialEq, Eq, Structural)]
pub enum SecurityCall {
    /// Initialize the zeroed descriptor at the current revision.
    Initialize,
    /// Check that the initialized descriptor is valid.
    Validate,
    /// Allocate the security identifier of the entry with this index.
    AllocateSid(usize),
    /// Build the access-control list from all entries.
    SetEntriesInAcl,
    /// Attach the list to the descriptor as its discretionary list.
    SetDacl,
}

/// What the runtime does next while building a descriptor.
#[derive(Clone, Copy, Debug, PartialEq, Eq, Structural)]
pub enum SetupAction {
    /// Make this call and report its outcome.
    Call(SecurityCall),
    /// The descriptor is ready: free the `free_sids` identifiers allocated
    /// (the list holds copies of them); the list stays with the descriptor.
    Finish { free_sids: usize },
    /// The build failed with `error`: free the `free_sids` identifiers
    /// allocated and, where `free_acl` holds, the list.
    Abort { error: OsError, free_sids: usize, free_acl: bool },
    /// The build is over; nothing is left to do.
    Nothing,
}

#[derive(Clone, Copy, Debug, PartialEq, Eq, Structural)]
pub enum SetupPhase {
    Initializing,
    Validating,
    AllocatingSid(usize),
    SettingEntries,
    SettingDacl,
    Done,
    Failed,
}

/// The progress of building one security descriptor, and the system
/// resources held on its behalf.
#[derive(Clone, Copy, Debug, PartialEq, Eq, Structural)]
pub struct DescriptorSetup {
    /// Whether the descriptor gets a discretionary list.
    pub has_dacl: bool,
    /// The number of entries of that list.
    pub entry_count: usize,
    pub phase: SetupPhase,
    /// How many security identifiers are allocated and not yet freed.
    pub sids_held: usize,
    /// Whether an access-control list is allocated and not yet freed.
    pub acl_held: bool,
}

impl DescriptorSetup {
    /// The phases agree with the resources held: identifiers are allocated in
    /// order, the list only once all of them are, and nothing is held once the
    /// build failed.
    pub open spec fn wf(&self) -> bool {
        match self.phase {
            SetupPhase::Initializing | SetupPhase::Validating | SetupPhase::Failed =>
                self.sids_held == 0 && !self.acl_held,
            SetupPhase::AllocatingSid(i) =>
                self.has_dacl && i < self.entry_count && self.sids_held == i && !self.acl_held,
            SetupPhase::SettingEntries =>
                self.has_dacl && self.sids_held == self.entry_count && !self.acl_held,
            SetupPhase::SettingDacl =>
                self.has_dacl && self.sids_held == self.entry_count && self.acl_held,
            SetupPhase::Done => self.sids_held == 0 && self.acl_held == self.has_dacl,
        }
    }

    pub open spec fn is_over(&self) -> bool {
        self.phase is Done || self.phase is Failed
    }

    /// The first call once the descriptor is valid: the first identifier, or
    /// the list at once where it has no entries, or the end where there is no
    /// list.
    pub open spec fn after_validation(&self) -> (DescriptorSetup, SetupAction) {
        if !self.has_dacl {
            (DescriptorSetup { phase: SetupPhase::Done, ..*self }, SetupAction::Finish { free_sids: 0 })
        } else if self.entry_count == 0 {
            (
                DescriptorSetup { phase: SetupPhase::SettingEntries, ..*self },
                SetupAction::Call(SecurityCall::SetEntriesInAcl),
            )
        } else {
            (
                DescriptorSetup { phase: SetupPhase::AllocatingSid(0), ..*self },
                SetupAction::Call(SecurityCall::AllocateSid(0)),
            )
        }
    }

    /// The next state and action once the call last asked for has ended with
    /// `outcome`.
    pub open spec fn next(&self, outcome: Result<(), OsError>) -> (DescriptorSetup, SetupAction) {
        if self.is_over() {
            (*self, SetupAction::Nothing)
        } else {
            match outcome {
                Err(error) => (
                    DescriptorSetup { phase: SetupPhase::Failed, sids_held: 0, acl_held: false, ..*self },
                    SetupAction::Abort { error, free_sids: self.sids_held, free_acl: self.acl_held },
                ),
                Ok(()) => match self.phase {
                    SetupPhase::Initializing => (
                        DescriptorSetup { phase: SetupPhase::Validating, ..*self },
                        SetupAction::Call(SecurityCall::Validate),
                    ),
                    SetupPhase::Validating => self.after_validation(),
                    SetupPhase::AllocatingSid(i) => if i + 1 < self.entry_count {
                        (
                            DescriptorSetup {
                                phase: SetupPhase::AllocatingSid((i + 1) as usize),
                                sids_held: (self.sids_held + 1) as usize,
                                ..*self
                            },
                            SetupAction::Call(SecurityCall::AllocateSid((i + 1) as usize)),
                        )
                    } else {
                        (
                            DescriptorSetup {
                                phase: SetupPhase::SettingEntries,
                                sids_held: (self.sids_held + 1) as usize,
                                ..*self
                            },
                            SetupAction::Call(SecurityCall::SetEntriesInAcl),
                        )
                    },
                    SetupPhase::SettingEntries => (
                        DescriptorSetup { phase: SetupPhase::SettingDacl, acl_held: true, ..*self },
                        SetupAction::Call(SecurityCall::SetDacl),
                    ),
                    _ => (
                        DescriptorSetup { phase: SetupPhase::Done, sids_held: 0, ..*self },
                        SetupAction::Finish { free_sids: self.sids_held },
                    ),
                },
            }
        }
    }

    /// Starts building `descriptor`: the first call initializes it.
    pub fn start(descriptor: &SecurityDescriptor) -> (r: (DescriptorSetup, SetupAction))
        ensures
            r.0.wf(),
            r.0.phase == SetupPhase::Initializing,
            r.0.has_dacl == (descriptor@ is Some),
            descriptor@ matches Some(entries) ==> r.0.entry_count == entries.len(),
            r.1 == SetupAction::Call(SecurityCall::Initialize),
    {
        let (has_dacl, entry_count) = match &descriptor.dacl {
            Some(acl) => (true, acl.entries.len()),
            None => (false, 0),
        };
        (
            DescriptorSetup {
                has_dacl,
                entry_count,
                phase: SetupPhase::Initializing,
                sids_held: 0,
                acl_held: false,
            },
            SetupAction::Call(SecurityCall::Initialize),
        )
    }

    /// Takes the outcome of the call last asked for and says what to do next.
    pub fn step(&mut self, outcome: Result<(), OsError>) -> (r: SetupAction)
        requires
            old(self).wf(),
        ensures
            (*final(self), r) == old(self).next(outcome),
            final(self).wf(),
    {
        if self.phase == SetupPhase::Done || self.phase == SetupPhase::Failed {
            return SetupAction::Nothing;
        }
        match outcome {
            Err(error) => {
                let action = SetupAction::Abort { error, free_sids: self.sids_held, free_acl: self.acl_held };
                self.phase = SetupPhase::Failed;
                self.sids_held = 0;
                self.acl_held = false;
                action
            },
            Ok(()) => match self.phase {
                SetupPhase::Initializing => {
                    self.phase = SetupPhase::Validating;
                    SetupAction::Call(SecurityCall::Validate)
                },
                SetupPhase::Validating => {
                    if !self.has_dacl {
                        self.phase = SetupPhase::Done;
                        SetupAction::Finish { free_sids: 0 }
                    } else if self.entry_count == 0 {
                        self.phase = SetupPhase::SettingEntries;
                        SetupAction::Call(SecurityCall::SetEntriesInAcl)
                    } else {
                        self.phase = SetupPhase::AllocatingSid(0);
                        SetupAction::Call(SecurityCall::AllocateSid(0))
                    }
                },
                SetupPhase::AllocatingSid(i) => {
                    self.sids_held = self.sids_held + 1;
                    if i + 1 < self.entry_count {
                        self.phase = SetupPhase::AllocatingSid(i + 1);
                        SetupAction::Call(SecurityCall::AllocateSid(i + 1))
                    } else {
                        self.phase = SetupPhase::SettingEntries;
                        SetupAction::Call(SecurityCall::SetEntriesInAcl)
                    }
                },
                SetupPhase::SettingEntries => {
                    self.phase = SetupPhase::SettingDacl;
                    self.acl_held = true;
                    SetupAction::Call(SecurityCall::SetDacl)
                },
                _ => {
                    let action = SetupAction::Finish { free_sids: self.sids_held };
                    self.phase = SetupPhase::Done;
                    self.sids_held = 0;
                    action
                },
            },
        }
    }
}

/// A build that fails at any call frees every identifier and list it
/// allocated, reports that call's error, and holds nothing afterwards.
pub proof fn lemma_failure_releases_everything(s: DescriptorSetup, error: OsError)
    requires
        s.wf(),
        !s.is_over(),
    ensures
        s.next(Err(error)).1 == (SetupAction::Abort {
            error,
            free_sids: s.sids_held,
            free_acl: s.acl_held,
        }),
        s.next(Err(error)).0.phase == SetupPhase::Failed,
        s.next(Err(error)).0.sids_held == 0,
        !s.next(Err(error)).0.acl_held,
        s.next(Err(error)).0.wf(),
{
}

/// Every step keeps the resources held in agreement with the phase, so no
/// sequence of outcomes leaks an identifier or a list.
pub proof fn lemma_next_preserves_wf(s: DescriptorSetup, outcome: Result<(), OsError>)
    requires
        s.wf(),
    ensures
        s.next(outcome).0.wf(),
{
}

/// A build that succeeds frees every identifier it allocated and leaves the
/// list, if any, to the descriptor.
pub proof fn lemma_success_frees_identifiers(s: DescriptorSetup)
    requires
        s.wf(),
        s.phase == SetupPhase::SettingDacl,
    ensures
        s.next(Ok(())).1 == (SetupAction::Finish { free_sids: s.entry_count }),
        s.next(Ok(())).0.phase == SetupPhase::Done,
        s.next(Ok(())).0.sids_held == 0,
        s.next(Ok(())).0.acl_held,
{
}

} // verus!
