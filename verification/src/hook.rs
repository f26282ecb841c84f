//! The installer of the hook: the one-way life cycle of a patched entry
//! point, told step by step to the program that touches the foreign process.

use vstd::prelude::*;
use crate::abi::{spec_advance, ForeignAddress};
use crate::patch::{
    lemma_near_jump_reaches_destination, lemma_trampoline_resumes_function, near_jump,
    spec_jump_destination, spec_near_jump, spec_trampoline_code, JMP_SIZE, TRAMPOLINE_SIZE,
};

verus! {

/// The instruction window at the entry point that the hook overwrites.
#[derive(Clone, Copy, Debug, PartialEq, Eq)]
pub struct PatchRegion {
    /// Where the window starts.
    pub target: ForeignAddress,
    /// The bytes that stood in the window before the patch.
    pub original_bytes: [u8; 5],
    /// Whether the redirecting jump has been written.
    pub installed: bool,
}

/// Executable block that replays the displaced instructions and resumes the
/// patched function behind the jump.
#[derive(Clone, Copy, Debug, PartialEq, Eq)]
pub struct Trampoline {
    /// Where the block lives in the foreign process.
    pub address: ForeignAddress,
    /// What the block holds.
    pub code: [u8; 10],
}

/// What an installed hook hands to its user: the entry through which the
/// unpatched behaviour is still reachable.
#[derive(Clone, Copy, Debug, PartialEq, Eq)]
pub struct HookHandle {
    /// Address to call in place of the patched entry point.
    pub entry: ForeignAddress,
}

/// How the redirection is brought about. Either way the finished hook is
/// used alike: calls arrive at the replacement, and the unpatched function
/// is reached through the handle.
#[derive(Clone, Copy, Debug, PartialEq, Eq)]
pub enum HookStrategy {
    /// The installer lays out the jump and the trampoline itself.
    ManualPatch,
    /// The redirection is handed to a detouring primitive of the embedding
    /// program, which is given the target and the replacement and switched
    /// on once.
    ManagedDetour,
}

/// Why an installation stopped. Every one of these is fatal to the process.
#[derive(Clone, Copy, Debug, PartialEq, Eq)]
pub enum InstallError {
    /// Installation was requested for a target that was already taken.
    AlreadyInstalled,
    /// The entry point could not be made writable.
    NotWritable,
    /// No executable memory could be had for the trampoline.
    TrampolineUnavailable,
    /// The detouring primitive could not redirect the entry point.
    DetourFailed,
    /// A report arrived that the current phase does not wait for.
    Unexpected,
}

/// How far an installation has come.
#[derive(Clone, Copy, Debug, PartialEq, Eq)]
pub enum InstallPhase {
    /// Nothing has been asked yet.
    Uninstalled,
    /// Waiting for the bytes at the entry point.
    Snapshotting,
    /// Waiting for the entry point to become writable.
    Unprotecting,
    /// Waiting for the jump to be written.
    Patching,
    /// Waiting for the old protection to be put back.
    Reprotecting,
    /// Waiting for trampoline memory.
    Allocating,
    /// Waiting for the trampoline to be written.
    Filling,
    /// Waiting for the detouring primitive to redirect the entry point.
    Delegating,
    /// The hook is in place for good.
    Installed,
    /// The installation failed for good.
    Failed,
}

/// What the embedding program reports back to the installer.
#[derive(Clone, Copy, Debug, PartialEq, Eq)]
pub enum HookEvent {
    /// Redirect the entry point to `replacement`.
    Install { replacement: ForeignAddress },
    /// The bytes read at the entry point.
    Snapshot([u8; 5]),
    /// The protection that the entry point had before it was made writable, or
    /// `None` if it could not be made writable.
    Unprotected(Option<u32>),
    /// The jump now stands at the entry point.
    PatchWritten,
    /// The former protection is back in place.
    Reprotected,
    /// Where executable memory was obtained, or `None` if none could be had.
    Allocated(Option<ForeignAddress>),
    /// The trampoline now stands in its memory.
    TrampolineWritten,
    /// The detouring primitive has redirected the entry point and is switched
    /// on: the address through which it calls the unpatched function, or
    /// `None` if it failed.
    Delegated(Option<ForeignAddress>),
}

/// What the installer asks the embedding program to do next.
#[derive(Clone, Copy, Debug, PartialEq, Eq)]
pub enum HookAction {
    /// Read `JMP_SIZE` bytes at `address`.
    TakeSnapshot { address: ForeignAddress },
    /// Make `JMP_SIZE` bytes at `address` writable and executable.
    Unprotect { address: ForeignAddress },
    /// Write `code` at `address`.
    WritePatch { address: ForeignAddress, code: [u8; 5] },
    /// Give `JMP_SIZE` bytes at `address` the protection `protection`.
    Reprotect { address: ForeignAddress, protection: u32 },
    /// Obtain `size` bytes of executable memory that is never freed.
    Allocate { size: usize },
    /// Write the trampoline's code at its address.
    WriteTrampoline(Trampoline),
    /// Have the detouring primitive redirect `target` to `replacement` and
    /// switch it on.
    Delegate { target: ForeignAddress, replacement: ForeignAddress },
    /// Nothing is left to do: the unpatched function is reachable through
    /// the handle.
    Ready(HookHandle),
    /// Stop: the installation cannot go on.
    Abort(InstallError),
}

/// The installer as contracts see it.
pub struct HookState {
    pub strategy: HookStrategy,
    pub target: ForeignAddress,
    pub replacement: ForeignAddress,
    pub phase: InstallPhase,
    pub snapshot: Seq<u8>,
    pub installed: bool,
    pub protection: u32,
    pub trampoline: ForeignAddress,
}

impl HookState {
    /// The installer for `target` before anything was asked of it.
    pub open spec fn initial(target: ForeignAddress, strategy: HookStrategy) -> HookState {
        HookState {
            strategy,
            target,
            replacement: 0,
            phase: InstallPhase::Uninstalled,
            snapshot: seq![0u8, 0u8, 0u8, 0u8, 0u8],
            installed: false,
            protection: 0,
            trampoline: 0,
        }
    }

    /// What holds of every state that an installer can reach: the snapshot
    /// has the width of the jump, and the jump stands at the entry point from
    /// the moment its writing was reported.
    pub open spec fn coherent(self) -> bool {
        &&& self.snapshot.len() == JMP_SIZE
        &&& match self.phase {
            InstallPhase::Uninstalled
            | InstallPhase::Snapshotting
            | InstallPhase::Unprotecting
            | InstallPhase::Patching
            | InstallPhase::Delegating => !self.installed,
            InstallPhase::Reprotecting
            | InstallPhase::Allocating
            | InstallPhase::Filling
            | InstallPhase::Installed => self.installed,
            InstallPhase::Failed => true,
        }
    }

    /// Whether the current phase waits for `event`.
    pub open spec fn awaits(self, event: HookEvent) -> bool {
        match (self.phase, event) {
            (InstallPhase::Uninstalled, HookEvent::Install { .. }) => true,
            (InstallPhase::Snapshotting, HookEvent::Snapshot(_)) => true,
            (InstallPhase::Unprotecting, HookEvent::Unprotected(_)) => true,
            (InstallPhase::Patching, HookEvent::PatchWritten) => true,
            (InstallPhase::Reprotecting, HookEvent::Reprotected) => true,
            (InstallPhase::Allocating, HookEvent::Allocated(_)) => true,
            (InstallPhase::Filling, HookEvent::TrampolineWritten) => true,
            (InstallPhase::Delegating, HookEvent::Delegated(_)) => true,
            _ => false,
        }
    }

    /// The state that follows `event`. An event that the phase does not wait
    /// for changes nothing.
    pub open spec fn next(self, event: HookEvent) -> HookState {
        if !self.awaits(event) {
            self
        } else {
            match event {
                HookEvent::Install { replacement } => HookState {
                    replacement,
                    phase: match self.strategy {
                        HookStrategy::ManualPatch => InstallPhase::Snapshotting,
                        HookStrategy::ManagedDetour => InstallPhase::Delegating,
                    },
                    ..self
                },
                HookEvent::Snapshot(bytes) => HookState {
                    snapshot: bytes@,
                    phase: InstallPhase::Unprotecting,
                    ..self
                },
                HookEvent::Unprotected(Some(protection)) => HookState {
                    protection,
                    phase: InstallPhase::Patching,
                    ..self
                },
                HookEvent::Unprotected(None) => HookState { phase: InstallPhase::Failed, ..self },
                HookEvent::PatchWritten => HookState {
                    installed: true,
                    phase: InstallPhase::Reprotecting,
                    ..self
                },
                HookEvent::Reprotected => HookState { phase: InstallPhase::Allocating, ..self },
                HookEvent::Allocated(Some(address)) => HookState {
                    trampoline: address,
                    phase: InstallPhase::Filling,
                    ..self
                },
                HookEvent::Allocated(None) => HookState { phase: InstallPhase::Failed, ..self },
                HookEvent::TrampolineWritten => HookState {
                    phase: InstallPhase::Installed,
                    ..self
                },
                HookEvent::Delegated(Some(entry)) => HookState {
                    installed: true,
                    trampoline: entry,
                    phase: InstallPhase::Installed,
                    ..self
                },
                HookEvent::Delegated(None) => HookState { phase: InstallPhase::Failed, ..self },
            }
        }
    }

    /// Whether `action` is the answer to `event` in this state.
    pub open spec fn answers(self, event: HookEvent, action: HookAction) -> bool {
        if !self.awaits(event) {
            action == HookAction::Abort(
                if event is Install {
                    InstallError::AlreadyInstalled
                } else {
                    InstallError::Unexpected
                },
            )
        } else {
            match event {
                HookEvent::Install { replacement } => match self.strategy {
                    HookStrategy::ManualPatch => action == (HookAction::TakeSnapshot {
                        address: self.target,
                    }),
                    HookStrategy::ManagedDetour => action == (HookAction::Delegate {
                        target: self.target,
                        replacement,
                    }),
                },
                HookEvent::Snapshot(_) => action == (HookAction::Unprotect {
                    address: self.target,
                }),
                HookEvent::Unprotected(Some(_)) => {
                    &&& action matches HookAction::WritePatch { address, code }
                    &&& address == self.target
                    &&& code@ == spec_near_jump(self.target, self.replacement)
                },
                HookEvent::Unprotected(None) => action == HookAction::Abort(
                    InstallError::NotWritable,
                ),
                HookEvent::PatchWritten => action == (HookAction::Reprotect {
                    address: self.target,
                    protection: self.protection,
                }),
                HookEvent::Reprotected => action == (HookAction::Allocate {
                    size: TRAMPOLINE_SIZE,
                }),
                HookEvent::Allocated(Some(at)) => {
                    &&& action matches HookAction::WriteTrampoline(trampoline)
                    &&& trampoline.address == at
                    &&& trampoline.code@ == spec_trampoline_code(self.snapshot, self.target, at)
                },
                HookEvent::Allocated(None) => action == HookAction::Abort(
                    InstallError::TrampolineUnavailable,
                ),
                HookEvent::TrampolineWritten => action == HookAction::Ready(
                    HookHandle { entry: self.trampoline },
                ),
                HookEvent::Delegated(Some(entry)) => action == HookAction::Ready(
                    HookHandle { entry },
                ),
                HookEvent::Delegated(None) => action == HookAction::Abort(
                    InstallError::DetourFailed,
                ),
            }
        }
    }
}

impl Trampoline {
    /// Lays out the trampoline for `region` in memory obtained at `at`.
    pub fn build(region: &PatchRegion, at: ForeignAddress) -> (trampoline: Trampoline)
        ensures
            trampoline.address == at,
            trampoline.code@ == spec_trampoline_code(region.original_bytes@, region.target, at),
    {
        let back = near_jump(at.wrapping_add(5), region.target.wrapping_add(5));
        assert(back@ == spec_near_jump(spec_advance(at, 5), spec_advance(region.target, 5)));
        let displaced = &region.original_bytes;
        let code = [
            displaced[0],
            displaced[1],
            displaced[2],
            displaced[3],
            displaced[4],
            back[0],
            back[1],
            back[2],
            back[3],
            back[4],
        ];
        assert(code@ =~= region.original_bytes@ + back@);
        Trampoline { address: at, code }
    }
}

/// Installs the redirection at one entry point, step by step: each report
/// from the embedding program is answered with the next thing to do.
#[derive(Debug)]
pub struct HookInstaller {
    strategy: HookStrategy,
    region: PatchRegion,
    replacement: ForeignAddress,
    phase: InstallPhase,
    protection: u32,
    trampoline: ForeignAddress,
}

impl View for HookInstaller {
    type V = HookState;

    closed spec fn view(&self) -> HookState {
        HookState {
            strategy: self.strategy,
            target: self.region.target,
            replacement: self.replacement,
            phase: self.phase,
            snapshot: self.region.original_bytes@,
            installed: self.region.installed,
            protection: self.protection,
            trampoline: self.trampoline,
        }
    }
}

impl HookInstaller {
    #[verifier::type_invariant]
    spec fn coherent(self) -> bool {
        self@.coherent()
    }

    /// An installer for the entry point at `target`, with nothing installed.
    pub fn new(target: ForeignAddress, strategy: HookStrategy) -> (installer: HookInstaller)
        ensures
            installer@ == HookState::initial(target, strategy),
    {
        let installer = HookInstaller {
            strategy,
            region: PatchRegion { target, original_bytes: [0, 0, 0, 0, 0], installed: false },
            replacement: 0,
            phase: InstallPhase::Uninstalled,
            protection: 0,
            trampoline: 0,
        };
        assert(installer@.snapshot =~= HookState::initial(target, strategy).snapshot);
        installer
    }

    /// The patched window as it stands.
    pub fn region(&self) -> (region: PatchRegion)
        ensures
            region.target == self@.target,
            region.original_bytes@ == self@.snapshot,
            region.installed == self@.installed,
            self@.coherent(),
    {
        proof {
            use_type_invariant(self);
        }
        self.region
    }

    /// How far the installation has come.
    pub fn phase(&self) -> (phase: InstallPhase)
        ensures
            phase == self@.phase,
            self@.coherent(),
    {
        proof {
            use_type_invariant(self);
        }
        self.phase
    }

    /// The handle of the finished installation, if it has finished.
    pub fn handle(&self) -> (handle: Option<HookHandle>)
        ensures
            handle is Some <==> self@.phase == InstallPhase::Installed,
            handle is Some ==> handle->0.entry == self@.trampoline,
    {
        match self.phase {
            InstallPhase::Installed => Some(HookHandle { entry: self.trampoline }),
            _ => None,
        }
    }

    /// Takes one report from the embedding program and answers with what to
    /// do next.
    pub fn step(&mut self, event: HookEvent) -> (action: HookAction)
        ensures
            final(self)@ == old(self)@.next(event),
            old(self)@.answers(event, action),
    {
        proof {
            use_type_invariant(&*self);
        }
        match (self.phase, event) {
            (InstallPhase::Uninstalled, HookEvent::Install { replacement }) => {
                self.replacement = replacement;
                match self.strategy {
                    HookStrategy::ManualPatch => {
                        self.phase = InstallPhase::Snapshotting;
                        HookAction::TakeSnapshot { address: self.region.target }
                    },
                    HookStrategy::ManagedDetour => {
                        self.phase = InstallPhase::Delegating;
                        HookAction::Delegate { target: self.region.target, replacement }
                    },
                }
            },
            (InstallPhase::Snapshotting, HookEvent::Snapshot(bytes)) => {
                self.region.original_bytes = bytes;
                self.phase = InstallPhase::Unprotecting;
                HookAction::Unprotect { address: self.region.target }
            },
            (InstallPhase::Unprotecting, HookEvent::Unprotected(Some(protection))) => {
                self.protection = protection;
                self.phase = InstallPhase::Patching;
                HookAction::WritePatch {
                    address: self.region.target,
                    code: near_jump(self.region.target, self.replacement),
                }
            },
            (InstallPhase::Unprotecting, HookEvent::Unprotected(None)) => {
                self.phase = InstallPhase::Failed;
                HookAction::Abort(InstallError::NotWritable)
            },
            (InstallPhase::Patching, HookEvent::PatchWritten) => {
                *self = HookInstaller {
                    strategy: self.strategy,
                    region: PatchRegion {
                        target: self.region.target,
                        original_bytes: self.region.original_bytes,
                        installed: true,
                    },
                    replacement: self.replacement,
                    phase: InstallPhase::Reprotecting,
                    protection: self.protection,
                    trampoline: self.trampoline,
                };
                HookAction::Reprotect { address: self.region.target, protection: self.protection }
            },
            (InstallPhase::Reprotecting, HookEvent::Reprotected) => {
                self.phase = InstallPhase::Allocating;
                HookAction::Allocate { size: TRAMPOLINE_SIZE }
            },
            (InstallPhase::Allocating, HookEvent::Allocated(Some(at))) => {
                self.trampoline = at;
                self.phase = InstallPhase::Filling;
                HookAction::WriteTrampoline(Trampoline::build(&self.region, at))
            },
            (InstallPhase::Allocating, HookEvent::Allocated(None)) => {
                self.phase = InstallPhase::Failed;
                HookAction::Abort(InstallError::TrampolineUnavailable)
            },
            (InstallPhase::Filling, HookEvent::TrampolineWritten) => {
                self.phase = InstallPhase::Installed;
                HookAction::Ready(HookHandle { entry: self.trampoline })
            },
            (InstallPhase::Delegating, HookEvent::Delegated(Some(entry))) => {
                *self = HookInstaller {
                    strategy: self.strategy,
                    region: PatchRegion {
                        target: self.region.target,
                        original_bytes: self.region.original_bytes,
                        installed: true,
                    },
                    replacement: self.replacement,
                    phase: InstallPhase::Installed,
                    protection: self.protection,
                    trampoline: entry,
                };
                HookAction::Ready(HookHandle { entry })
            },
            (InstallPhase::Delegating, HookEvent::Delegated(None)) => {
                self.phase = InstallPhase::Failed;
                HookAction::Abort(InstallError::DetourFailed)
            },
            (_, HookEvent::Install { .. }) => HookAction::Abort(InstallError::AlreadyInstalled),
            _ => HookAction::Abort(InstallError::Unexpected),
        }
    }
}

/// Every state that an installer can reach is coherent: a fresh installer
/// is, and no report makes a coherent state incoherent.
pub proof fn lemma_coherence_is_kept(
    target: ForeignAddress,
    strategy: HookStrategy,
    state: HookState,
    event: HookEvent,
)
    ensures
        HookState::initial(target, strategy).coherent(),
        state.coherent() ==> state.next(event).coherent(),
{
}

/// A target is taken at most once: as soon as an installation has begun,
/// every further request to install is refused and changes nothing.
pub proof fn lemma_second_install_is_refused(state: HookState, replacement: ForeignAddress)
    requires
        state.phase != InstallPhase::Uninstalled,
    ensures
        state.next(HookEvent::Install { replacement }) == state,
        state.answers(
            HookEvent::Install { replacement },
            HookAction::Abort(InstallError::AlreadyInstalled),
        ),
{
}

/// No report takes the jump away again, and a finished or failed installation
/// stays as it is whatever is reported.
pub proof fn lemma_installation_is_permanent(state: HookState, event: HookEvent)
    ensures
        state.installed ==> state.next(event).installed,
        state.phase == InstallPhase::Installed || state.phase == InstallPhase::Failed
            ==> state.next(event) == state,
        state.next(event).target == state.target,
        state.next(event).strategy == state.strategy,
{
}

/// The reports of an undisturbed manual installation lead from a fresh
/// installer to an installed hook that remembers the snapshot, with the
/// trampoline as its entry.
pub proof fn lemma_undisturbed_installation_completes(
    target: ForeignAddress,
    replacement: ForeignAddress,
    snapshot: [u8; 5],
    protection: u32,
    at: ForeignAddress,
)
    ensures
        ({
            let end = HookState::initial(target, HookStrategy::ManualPatch).next(
                HookEvent::Install { replacement },
            ).next(HookEvent::Snapshot(snapshot)).next(HookEvent::Unprotected(Some(protection))).next(HookEvent::PatchWritten).next(
                HookEvent::Reprotected,
            ).next(HookEvent::Allocated(Some(at)));
            &&& end.next(HookEvent::TrampolineWritten) == HookState {
                strategy: HookStrategy::ManualPatch,
                target,
                replacement,
                phase: InstallPhase::Installed,
                snapshot: snapshot@,
                installed: true,
                protection,
                trampoline: at,
            }
            &&& end.answers(HookEvent::TrampolineWritten, HookAction::Ready(HookHandle { entry: at }))
        }),
{
}

/// The code that the installer asks to be written over the entry point
/// carries every call that arrives there to the replacement.
pub proof fn lemma_patch_redirects_to_replacement(
    state: HookState,
    protection: u32,
    action: HookAction,
)
    requires
        state.phase == InstallPhase::Unprotecting,
        state.answers(HookEvent::Unprotected(Some(protection)), action),
    ensures
        action is WritePatch,
        action->WritePatch_address == state.target,
        spec_jump_destination(state.target, action->WritePatch_code@) == Some(state.replacement),
{
    lemma_near_jump_reaches_destination(state.target, state.replacement);
}

/// The trampoline that the installer asks to be written replays the
/// snapshot taken at the entry point and then resumes the function at the
/// first byte behind the patch. A call that enters it therefore runs what
/// the function ran before it was patched.
pub proof fn lemma_trampoline_runs_unpatched_function(
    state: HookState,
    at: ForeignAddress,
    action: HookAction,
)
    requires
        state.coherent(),
        state.phase == InstallPhase::Allocating,
        state.answers(HookEvent::Allocated(Some(at)), action),
    ensures
        action is WriteTrampoline,
        action->WriteTrampoline_0.address == at,
        action->WriteTrampoline_0.code@.subrange(0, 5) == state.snapshot,
        spec_jump_destination(spec_advance(at, 5), action->WriteTrampoline_0.code@.subrange(5, 10))
            == Some(spec_advance(state.target, 5)),
{
    lemma_trampoline_resumes_function(state.snapshot, state.target, at);
}

/// A delegated installation that succeeds ends as a manual one does: the
/// hook is installed for good, and the unpatched function is reached through
/// the address that the detouring primitive gave.
pub proof fn lemma_delegated_installation_completes(
    target: ForeignAddress,
    replacement: ForeignAddress,
    entry: ForeignAddress,
)
    ensures
        ({
            let begun = HookState::initial(target, HookStrategy::ManagedDetour).next(
                HookEvent::Install { replacement },
            );
            let end = begun.next(HookEvent::Delegated(Some(entry)));
            &&& HookState::initial(target, HookStrategy::ManagedDetour).answers(
                HookEvent::Install { replacement },
                HookAction::Delegate { target, replacement },
            )
            &&& begun.answers(
                HookEvent::Delegated(Some(entry)),
                HookAction::Ready(HookHandle { entry }),
            )
            &&& end.phase == InstallPhase::Installed
            &&& end.installed
            &&& end.trampoline == entry
            &&& end.target == target
            &&& end.replacement == replacement
        }),
{
}

} // verus!
