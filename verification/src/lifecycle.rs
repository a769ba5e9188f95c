//! The library-wide lifecycle: initialization hints, the process-wide
//! initialization lock, the shared teardown guard, window creation, monitor
//! enumeration and the polling entry points.
//!
//! The native boundary performs the actual work; this module is the state
//! machine the shell must follow.  Native outcomes (a rejected hint, a
//! failed call, a created handle, a pending error) enter as plain values,
//! and every transition — who may initialize, which hint failed, when the
//! one native teardown fires — is decided and proved here.

use vstd::prelude::*;

use crate::callbacks::{set_handler, unset_handler, HandlerSlot};
use crate::codec::Platform;
use crate::monitor::{Monitor, MonitorId};
use crate::window::{Window, WindowId};
use crate::{Error, NO_ERROR};

verus! {

/// The native error code for a value rejected as invalid, used when a wait
/// timeout is not positive.
pub const INVALID_VALUE: i32 = 0x00010004;

/// The process-wide initialization lock.
#[derive(Debug, Copy, Clone, PartialEq, Eq, Structural)]
pub enum LockState {
    /// Nobody holds the lock; initialization may proceed.
    Free,
    /// An initialization succeeded and its owners still hold the guard.
    Held,
    /// A holder panicked; every later initialization attempt fails.
    Poisoned,
}

/// The process-wide lifecycle state of the native library.
///
/// `owners` counts the live holders of the initialization guard: the
/// top-level handle plus every live window and monitor.  The guard is
/// released — and the native library torn down, exactly once — when the
/// count drops to zero.
#[derive(Debug, Copy, Clone, PartialEq, Eq, Structural)]
pub struct Lifecycle {
    pub lock: LockState,
    pub initialized: bool,
    pub owners: u64,
    /// How many native teardown calls have been issued.
    pub teardown_count: u64,
    /// How many native window-destroy calls have been issued.
    pub window_destroy_count: u64,
}

impl Lifecycle {
    /// The state invariant: the library is initialized exactly while the
    /// guard has live owners, and the lock is held exactly while the
    /// library is initialized.
    pub open spec fn wf(self) -> bool {
        &&& self.initialized <==> self.owners >= 1
        &&& self.initialized <==> self.lock is Held
    }

    /// The fresh, uninitialized state.
    pub fn new() -> (r: Lifecycle)
        ensures
            r == (Lifecycle {
                lock: LockState::Free,
                initialized: false,
                owners: 0,
                teardown_count: 0,
                window_destroy_count: 0,
            }),
            r.wf(),
    {
        Lifecycle {
            lock: LockState::Free,
            initialized: false,
            owners: 0,
            teardown_count: 0,
            window_destroy_count: 0,
        }
    }

    /// Release one share of the initialization guard; the last release
    /// frees the lock and issues the one native teardown.
    pub(crate) fn release_owner(&mut self)
        requires
            old(self).wf(),
            old(self).initialized,
            old(self).teardown_count < u64::MAX,
        ensures
            release_post(*old(self), *final(self)),
            final(self).wf(),
    {
        if self.owners == 1 {
            self.owners = 0;
            self.initialized = false;
            self.lock = LockState::Free;
            self.teardown_count = self.teardown_count + 1;
        } else {
            self.owners = self.owners - 1;
        }
    }
}

/// How releasing one share of the initialization guard changes the state:
/// the last owner's release frees the lock, leaves the library
/// uninitialized and issues exactly one native teardown; any other release
/// only decrements the owner count.
pub open spec fn release_step(pre: Lifecycle) -> Lifecycle {
    if pre.owners == 1 {
        Lifecycle {
            lock: LockState::Free,
            initialized: false,
            owners: 0,
            teardown_count: (pre.teardown_count + 1) as u64,
            ..pre
        }
    } else {
        Lifecycle { owners: (pre.owners - 1) as u64, ..pre }
    }
}

/// Relates the states before and after one release of a guard share.
pub open spec fn release_post(pre: Lifecycle, post: Lifecycle) -> bool {
    post == release_step(pre)
}

/// The state after releasing `n` guard shares, one at a time.
pub open spec fn release_all(pre: Lifecycle, n: nat) -> Lifecycle
    decreases n,
{
    if n == 0 {
        pre
    } else {
        release_all(release_step(pre), (n - 1) as nat)
    }
}

/// Releasing every owner of one initialization, in any order and one at a
/// time, issues exactly one native teardown over the whole sequence and
/// leaves the library uninitialized with the lock free.
pub proof fn lemma_one_teardown_for_the_group(pre: Lifecycle)
    requires
        pre.wf(),
        pre.initialized,
        pre.teardown_count < u64::MAX,
    ensures
        release_all(pre, pre.owners as nat).teardown_count == pre.teardown_count + 1,
        !release_all(pre, pre.owners as nat).initialized,
        release_all(pre, pre.owners as nat).lock is Free,
    decreases pre.owners,
{
    let stepped = release_step(pre);
    assert(release_all(pre, pre.owners as nat) == release_all(stepped, (pre.owners - 1) as nat));
    if pre.owners == 1 {
        assert(release_all(stepped, 0) == stepped);
    } else {
        lemma_one_teardown_for_the_group(stepped);
        assert(stepped.owners as nat == (pre.owners - 1) as nat);
    }
}

/// Destroying the last live owner — window, monitor or top-level handle —
/// triggers exactly one native teardown and leaves the library
/// uninitialized with the lock free; destroying a non-last owner triggers
/// no teardown and the library stays initialized.
pub proof fn lemma_teardown_on_last_release(pre: Lifecycle, post: Lifecycle)
    requires
        pre.wf(),
        pre.initialized,
        pre.teardown_count < u64::MAX,
        release_post(pre, post),
    ensures
        pre.owners == 1 ==> post.teardown_count == pre.teardown_count + 1 && !post.initialized
            && post.lock is Free,
        pre.owners > 1 ==> post.teardown_count == pre.teardown_count && post.initialized
            && post.lock is Held,
{
}

/// Which display backend the native library may select.
#[derive(Debug, Copy, Clone, PartialEq, Eq, Structural)]
pub enum WaylandLibDecor {
    Prefer,
    Disable,
}

/// Which rendering backend an ANGLE-based context should target.
#[derive(Debug, Copy, Clone, PartialEq, Eq, Structural)]
pub enum AnglePlatformType {
    NoBackend,
    OpenGl,
    OpenGlEs,
    D3D9,
    D3D11,
    Vulkan,
    Metal,
}

/// A configuration hint applied before native initialization.
#[derive(Debug, Copy, Clone, PartialEq, Eq, Structural)]
pub enum InitHint {
    Platform(Platform),
    JoystickHatButtons(bool),
    CocoaChdirResources(bool),
    CocoaMenubar(bool),
    WaylandLibDecor(WaylandLibDecor),
    X11XcbVulkanSurface(bool),
    AnglePlatformType(AnglePlatformType),
}

impl InitHint {
    /// No caller hints: initialization runs on the library defaults alone.
    pub fn none() -> (r: Vec<InitHint>)
        ensures
            r@ == Seq::<InitHint>::empty(),
    {
        Vec::new()
    }
}

/// The library's default initialization hints, applied before any caller
/// hints so that caller values win on conflict.
pub open spec fn default_init_hints() -> Seq<InitHint> {
    seq![
        InitHint::Platform(Platform::Any),
        InitHint::JoystickHatButtons(true),
        InitHint::AnglePlatformType(AnglePlatformType::NoBackend),
        InitHint::CocoaChdirResources(true),
        InitHint::CocoaMenubar(true),
        InitHint::WaylandLibDecor(WaylandLibDecor::Prefer),
        InitHint::X11XcbVulkanSurface(true),
    ]
}

/// The ordered sequence of hints one initialization applies: the library
/// defaults first, then the caller's hints, in order, without
/// de-duplication — a later hint overrides an earlier one for the same
/// setting.
pub fn plan_init_hints(hints: &Vec<InitHint>) -> (r: Vec<InitHint>)
    ensures
        r@ == default_init_hints() + hints@,
{
    let mut plan: Vec<InitHint> = Vec::new();
    plan.push(InitHint::Platform(Platform::Any));
    plan.push(InitHint::JoystickHatButtons(true));
    plan.push(InitHint::AnglePlatformType(AnglePlatformType::NoBackend));
    plan.push(InitHint::CocoaChdirResources(true));
    plan.push(InitHint::CocoaMenubar(true));
    plan.push(InitHint::WaylandLibDecor(WaylandLibDecor::Prefer));
    plan.push(InitHint::X11XcbVulkanSurface(true));
    proof {
        assert(plan@ =~= default_init_hints());
    }
    let mut i: usize = 0;
    while i < hints.len()
        invariant
            i <= hints@.len(),
            plan@ == default_init_hints() + hints@.take(i as int),
        decreases hints@.len() - i,
    {
        plan.push(hints[i]);
        proof {
            assert(default_init_hints() + hints@.take(i + 1) =~= (default_init_hints()
                + hints@.take(i as int)).push(hints@[i as int]));
        }
        i = i + 1;
    }
    proof {
        assert(hints@.take(hints@.len() as int) =~= hints@);
    }
    plan
}

/// Why an initialization attempt failed.
#[derive(Debug, Clone, PartialEq)]
pub enum InitError {
    /// The native library rejected this hint of the applied sequence.
    Hint(InitHint, Error),
    /// The native initialization call itself failed.
    Init(Error),
    /// A previous holder of the initialization lock panicked.
    Poisoned,
}

/// Why a non-blocking initialization attempt failed.
#[derive(Debug, Clone, PartialEq)]
pub enum TryInitError {
    InitError(InitError),
    /// Another initialization currently holds the lock.
    WouldBlock,
}

/// What the native boundary did when the shell drove one initialization:
/// which call of the sequence failed, or that all succeeded.
#[derive(Debug, Clone, PartialEq)]
pub enum InitOutcome {
    /// Applying the hint at `index` of the planned sequence left a native
    /// error pending.
    HintRejected { index: usize, error: Error },
    /// The native initialization call failed, with the pending native
    /// error if one was available.
    InitFailed { pending: Option<Error> },
    /// Initialization succeeded but installing the library-wide callbacks
    /// failed; the native library was torn down again.
    CallbacksFailed { error: Error },
    /// Initialization succeeded and the library-wide callbacks are
    /// installed.
    Success,
}

/// What one initialization attempt over a free lock does to the state and
/// returns, given the native outcome.  On success the lock is held, the
/// library initialized and the returned handle is the guard's first owner;
/// on failure the state is unchanged, except that a failure after native
/// initialization (callback installation) tears the library down again.
pub open spec fn init_attempt_post(
    pre: Lifecycle,
    plan: Seq<InitHint>,
    outcome: InitOutcome,
    post: Lifecycle,
    r: Result<Glfw, InitError>,
) -> bool {
    match outcome {
        InitOutcome::HintRejected { index, error } => post == pre && r == Err::<Glfw, InitError>(
            InitError::Hint(plan[index as int], error),
        ),
        InitOutcome::InitFailed { pending: opt } => post == pre && match opt {
            Some(e) => r == Err::<Glfw, InitError>(InitError::Init(e)),
            None => r matches Err(InitError::Init(e)) && e.code == -1 && e.desc@
                == "Unknown error"@,
        },
        InitOutcome::CallbacksFailed { error } => post == (Lifecycle {
            teardown_count: (pre.teardown_count + 1) as u64,
            ..pre
        }) && r == Err::<Glfw, InitError>(InitError::Init(error)),
        InitOutcome::Success => init_success_post(pre, post) && r is Ok,
    }
}

/// The state change of a successful initialization: the lock becomes held
/// and the returned handle is the guard's only owner.
pub open spec fn init_success_post(pre: Lifecycle, post: Lifecycle) -> bool {
    post == (Lifecycle { lock: LockState::Held, initialized: true, owners: 1, ..pre })
}

/// Initialization is mutually exclusive: after one initialization succeeds
/// the lock is held, so a blocking `init` cannot satisfy its precondition
/// and `try_init` reports `WouldBlock`, until the guard's last owner
/// releases it.  Two initializations can never both hold distinct,
/// uncoordinated guards.
pub proof fn lemma_init_mutual_exclusion(pre: Lifecycle, post: Lifecycle)
    requires
        pre.wf(),
        pre.lock is Free,
        init_success_post(pre, post),
    ensures
        post.lock is Held,
        post.wf(),
        post.initialized,
        post.owners == 1,
{
}

/// The inner initialization result a non-blocking attempt wraps.  (The
/// `WouldBlock` arm is arbitrary: it is only applied to results that are
/// not `WouldBlock`.)
pub open spec fn try_init_inner(r: Result<Glfw, TryInitError>) -> Result<Glfw, InitError> {
    match r {
        Ok(g) => Ok(g),
        Err(TryInitError::InitError(e)) => Err(e),
        Err(TryInitError::WouldBlock) => Err(InitError::Poisoned),
    }
}

/// The top-level library handle: the first owner of the shared
/// initialization guard.
#[derive(Debug)]
pub struct Glfw {}

impl Glfw {
    /// Translate the native boundary's last-error query into a structured
    /// result: the reserved no-error code means success, anything else is
    /// an error carrying the native code and description.
    pub fn get_error(code: i32, desc: String) -> (r: Result<(), Error>)
        ensures
            code == NO_ERROR ==> r == Ok::<(), Error>(()),
            code != NO_ERROR ==> r == Err::<(), Error>((Error { code, desc })),
    {
        if code == NO_ERROR {
            Ok(())
        } else {
            Err(Error { code, desc })
        }
    }

    /// Initialize the library, blocking until the initialization lock is
    /// free (stated here as the precondition that it is not held).  The
    /// hint sequence applied is the library defaults followed by `hints`,
    /// and `outcome` is how the native boundary answered.
    pub fn init(state: &mut Lifecycle, hints: &Vec<InitHint>, outcome: InitOutcome) -> (r: Result<
        Glfw,
        InitError,
    >)
        requires
            old(state).wf(),
            !(old(state).lock is Held),
            old(state).teardown_count < u64::MAX,
            (outcome matches InitOutcome::HintRejected { index, .. } ==> index
                < default_init_hints().len() + hints@.len()),
        ensures
            final(state).wf(),
            old(state).lock is Poisoned ==> *final(state) == *old(state) && r == Err::<
                Glfw,
                InitError,
            >(InitError::Poisoned),
            old(state).lock is Free ==> init_attempt_post(
                *old(state),
                default_init_hints() + hints@,
                outcome,
                *final(state),
                r,
            ),
    {
        match state.lock {
            LockState::Poisoned => Err(InitError::Poisoned),
            LockState::Held => vstd::pervasive::unreached(),
            LockState::Free => {
                match outcome {
                    InitOutcome::HintRejected { index, error } => {
                        let plan = plan_init_hints(hints);
                        Err(InitError::Hint(plan[index], error))
                    },
                    InitOutcome::InitFailed { pending } => {
                        match pending {
                            Some(e) => Err(InitError::Init(e)),
                            None => Err(InitError::Init(crate::unknown_error())),
                        }
                    },
                    InitOutcome::CallbacksFailed { error } => {
                        state.teardown_count = state.teardown_count + 1;
                        Err(InitError::Init(error))
                    },
                    InitOutcome::Success => {
                        state.lock = LockState::Held;
                        state.initialized = true;
                        state.owners = 1;
                        Ok(Glfw {  })
                    },
                }
            },
        }
    }

    /// Initialize the library without blocking: if the lock is currently
    /// held by another initialization's owners, fail fast with
    /// `WouldBlock` instead of waiting.
    pub fn try_init(state: &mut Lifecycle, hints: &Vec<InitHint>, outcome: InitOutcome) -> (r:
        Result<Glfw, TryInitError>)
        requires
            old(state).wf(),
            old(state).teardown_count < u64::MAX,
            (outcome matches InitOutcome::HintRejected { index, .. } ==> index
                < default_init_hints().len() + hints@.len()),
        ensures
            final(state).wf(),
            old(state).lock is Held ==> *final(state) == *old(state) && r == Err::<
                Glfw,
                TryInitError,
            >(TryInitError::WouldBlock),
            old(state).lock is Poisoned ==> *final(state) == *old(state) && r == Err::<
                Glfw,
                TryInitError,
            >(TryInitError::InitError(InitError::Poisoned)),
            old(state).lock is Free ==> !(r matches Err(TryInitError::WouldBlock))
                && init_attempt_post(
                *old(state),
                default_init_hints() + hints@,
                outcome,
                *final(state),
                try_init_inner(r),
            ),
    {
        match state.lock {
            LockState::Held => Err(TryInitError::WouldBlock),
            _ => {
                match Glfw::init(state, hints, outcome) {
                    Ok(g) => Ok(g),
                    Err(e) => Err(TryInitError::InitError(e)),
                }
            },
        }
    }

    /// Which platform the native boundary reports as selected; an
    /// unexpected code falls back to `Any`.
    pub fn get_platform(&self, native: i32) -> (r: Platform)
        ensures
            r == platform_from_native(native),
    {
        match native {
            0x00060001 => Platform::Win32,
            0x00060002 => Platform::Cocoa,
            0x00060003 => Platform::Wayland,
            0x00060004 => Platform::X11,
            0x00060005 => Platform::Null,
            _ => Platform::Any,
        }
    }

    /// Release the top-level handle's share of the initialization guard;
    /// if windows or monitors are still live the library stays up until
    /// the last of them goes.
    pub fn shutdown(self, state: &mut Lifecycle)
        requires
            old(state).wf(),
            old(state).initialized,
            old(state).teardown_count < u64::MAX,
        ensures
            release_post(*old(state), *final(state)),
            final(state).wf(),
    {
        let Glfw {  } = self;
        state.release_owner();
    }
}

/// The platform the native boundary reports for a given native code.
pub open spec fn platform_from_native(v: i32) -> Platform {
    if v == 0x00060001 {
        Platform::Win32
    } else if v == 0x00060002 {
        Platform::Cocoa
    } else if v == 0x00060003 {
        Platform::Wayland
    } else if v == 0x00060004 {
        Platform::X11
    } else if v == 0x00060005 {
        Platform::Null
    } else {
        Platform::Any
    }
}

/// Which client API a created window's context should use.
#[derive(Debug, Clone, Copy, PartialEq, Eq, Structural)]
pub enum ClientApi {
    OpenGl,
    OpenGlEs,
    NoApi,
}

impl ClientApi {
    /// Encode this client API as its native integer code.
    pub fn code(&self) -> (r: i32)
        ensures
            r == client_api_code(*self),
    {
        match self {
            ClientApi::OpenGl => 0x00030001,
            ClientApi::OpenGlEs => 0x00030002,
            ClientApi::NoApi => 0,
        }
    }
}

/// The native integer code of a client API.
pub open spec fn client_api_code(c: ClientApi) -> i32 {
    match c {
        ClientApi::OpenGl => 0x00030001,
        ClientApi::OpenGlEs => 0x00030002,
        ClientApi::NoApi => 0,
    }
}

/// How a created window's context should be created.
#[derive(Debug, Clone, Copy, PartialEq, Eq, Structural)]
pub enum ContextCreationApi {
    Native,
    Egl,
    OsMesa,
}

/// How robust a created window's context should be against resets.
#[derive(Debug, Clone, Copy, PartialEq, Eq, Structural)]
pub enum ContextRobustness {
    NoRobustness,
    NoResetNotification,
    LoseContextOnReset,
}

/// What a created window's context does on release.
#[derive(Debug, Clone, Copy, PartialEq, Eq, Structural)]
pub enum ContextReleaseBehavior {
    Any,
    Flush,
    NoRelease,
}

/// A configuration hint applied before window creation.  Hints are applied
/// in the order given, after a reset to the library defaults; duplicates
/// are not removed, so a later entry overrides an earlier one.
#[derive(Debug, Clone, Copy, PartialEq, Eq, Structural)]
pub enum WindowHint {
    Resizable(bool),
    Visible(bool),
    Decorated(bool),
    Focused(bool),
    AutoIconify(bool),
    Floating(bool),
    Maximized(bool),
    CenterCursor(bool),
    TransparentFramebuffer(bool),
    FocusOnShow(bool),
    ScaleToMonitor(bool),
    ScaleFramebuffer(bool),
    MousePassthrough(bool),
    PositionX(i32),
    PositionY(i32),
    RedBits(i32),
    GreenBits(i32),
    BlueBits(i32),
    AlphaBits(i32),
    StencilBits(i32),
    AccumRedBits(i32),
    AccumGreenBits(i32),
    AccumBlueBits(i32),
    AccumAlphaBits(i32),
    AuxBuffers(i32),
    Samples(i32),
    RefreshRate(i32),
    Stereo(bool),
    SrgbCapable(bool),
    Doublebuffer(bool),
    ClientApi(ClientApi),
    ContextCreationApi(ContextCreationApi),
    ContextVersionMajor(i32),
    ContextVersionMinor(i32),
    ContextRobustness(ContextRobustness),
    ContextReleaseBehavior(ContextReleaseBehavior),
}

impl WindowHint {
    /// No caller hints: the window is created on the library defaults
    /// alone.
    pub fn none() -> (r: Vec<WindowHint>)
        ensures
            r@ == Seq::<WindowHint>::empty(),
    {
        Vec::new()
    }
}

/// Why a window creation attempt failed.
#[derive(Debug, Clone, PartialEq)]
pub enum CreateWindowError {
    /// The native library rejected this hint of the applied sequence.
    Hint(WindowHint, Error),
    /// The native window-creation call itself failed.
    CreateWindow(Error),
}

/// What the native boundary did when the shell drove one window creation.
#[derive(Debug, Clone, PartialEq)]
pub enum CreateOutcome {
    /// Applying the hint at `index` of the caller's sequence left a native
    /// error pending.
    HintRejected { index: usize, error: Error },
    /// The native window-creation call failed.
    CreateFailed { error: Error },
    /// A window was created, with this native handle identity; its
    /// per-window callbacks are installed.
    Created { id: usize },
}

impl Glfw {
    /// Create a window: reset to the default window hints, apply the
    /// caller's hints in order, then issue the native creation call;
    /// `outcome` is how the native boundary answered.  A created window
    /// becomes one more owner of the shared initialization guard.
    #[allow(unused_variables)]
    pub fn create_window(
        &self,
        state: &mut Lifecycle,
        hints: &Vec<WindowHint>,
        width: i32,
        height: i32,
        title: &str,
        monitor: Option<&Monitor>,
        share: Option<&Window>,
        outcome: CreateOutcome,
    ) -> (r: Result<Window, CreateWindowError>)
        requires
            old(state).wf(),
            old(state).initialized,
            old(state).owners < u64::MAX,
            (outcome matches CreateOutcome::HintRejected { index, .. } ==> index < hints@.len()),
        ensures
            final(state).wf(),
            (match outcome {
                CreateOutcome::HintRejected { index, error } => *final(state) == *old(state) && r
                    == Err::<Window, CreateWindowError>(
                    CreateWindowError::Hint(hints@[index as int], error),
                ),
                CreateOutcome::CreateFailed { error } => *final(state) == *old(state) && r == Err::<
                    Window,
                    CreateWindowError,
                >(CreateWindowError::CreateWindow(error)),
                CreateOutcome::Created { id } => *final(state) == (Lifecycle {
                    owners: (old(state).owners + 1) as u64,
                    ..*old(state)
                }) && r == Ok::<Window, CreateWindowError>((Window { id: WindowId(id) })),
            }),
    {
        match outcome {
            CreateOutcome::HintRejected { index, error } => {
                Err(CreateWindowError::Hint(hints[index], error))
            },
            CreateOutcome::CreateFailed { error } => Err(CreateWindowError::CreateWindow(error)),
            CreateOutcome::Created { id } => {
                state.owners = state.owners + 1;
                Ok(Window { id: WindowId(id) })
            },
        }
    }

    /// Capture the monitors live at call time, from the native handle
    /// identities the boundary enumerated.  Each returned monitor is one
    /// more owner of the shared initialization guard.
    pub fn get_monitors(&self, state: &mut Lifecycle, native_ids: &Vec<usize>) -> (r: Vec<Monitor>)
        requires
            old(state).wf(),
            old(state).initialized,
            old(state).owners + native_ids@.len() <= u64::MAX,
        ensures
            final(state).wf(),
            r@.len() == native_ids@.len(),
            forall|i: int| 0 <= i < r@.len() ==> r@[i].id == MonitorId(native_ids@[i]),
            *final(state) == (Lifecycle {
                owners: (old(state).owners + native_ids@.len()) as u64,
                ..*old(state)
            }),
    {
        let mut monitors: Vec<Monitor> = Vec::new();
        let mut i: usize = 0;
        while i < native_ids.len()
            invariant
                i <= native_ids@.len(),
                monitors@.len() == i,
                forall|j: int| 0 <= j < i ==> monitors@[j].id == MonitorId(native_ids@[j]),
            decreases native_ids@.len() - i,
        {
            monitors.push(Monitor { id: MonitorId(native_ids[i]) });
            i = i + 1;
        }
        state.owners = state.owners + (native_ids.len() as u64);
        monitors
    }

    /// The primary monitor, if the native boundary reports one.  A
    /// returned monitor is one more owner of the shared initialization
    /// guard.
    pub fn get_primary_monitor(&self, state: &mut Lifecycle, native_id: Option<usize>) -> (r:
        Option<Monitor>)
        requires
            old(state).wf(),
            old(state).initialized,
            old(state).owners < u64::MAX,
        ensures
            final(state).wf(),
            (match native_id {
                Some(id) => r == Some(Monitor { id: MonitorId(id) }) && *final(state) == (Lifecycle {
                    owners: (old(state).owners + 1) as u64,
                    ..*old(state)
                }),
                None => r is None && *final(state) == *old(state),
            }),
    {
        match native_id {
            Some(id) => {
                state.owners = state.owners + 1;
                Some(Monitor { id: MonitorId(id) })
            },
            None => None,
        }
    }

    /// Process pending events without blocking: the handler is installed
    /// for the duration of the native poll and the slot is cleared again
    /// on every exit path; a pending native error is returned after the
    /// slot is cleared.
    pub fn poll_events(
        &self,
        state: &Lifecycle,
        slot: &mut HandlerSlot,
        native_err: Option<Error>,
    ) -> (r: Result<(), Error>)
        requires
            state.wf(),
            state.initialized,
            !old(slot).active,
        ensures
            !final(slot).active,
            (r == match native_err {
                Some(e) => Err::<(), Error>(e),
                None => Ok::<(), Error>(()),
            }),
    {
        let guard = set_handler(slot);
        let r = match native_err {
            Some(e) => Err(e),
            None => Ok(()),
        };
        unset_handler(slot, guard);
        r
    }

    /// Wait for at least one event, then process pending events: as
    /// [`Self::poll_events`], over the blocking native wait.
    pub fn wait_events(
        &self,
        state: &Lifecycle,
        slot: &mut HandlerSlot,
        native_err: Option<Error>,
    ) -> (r: Result<(), Error>)
        requires
            state.wf(),
            state.initialized,
            !old(slot).active,
        ensures
            !final(slot).active,
            (r == match native_err {
                Some(e) => Err::<(), Error>(e),
                None => Ok::<(), Error>(()),
            }),
    {
        let guard = set_handler(slot);
        let r = match native_err {
            Some(e) => Err(e),
            None => Ok(()),
        };
        unset_handler(slot, guard);
        r
    }

    /// Whether a wait timeout is acceptable: a zero or negative duration
    /// is rejected with an error before any native wait could begin, so a
    /// wait with such a timeout never blocks.
    pub fn check_wait_timeout(timeout_nanos: i64) -> (r: Result<(), Error>)
        ensures
            timeout_nanos > 0 <==> r is Ok,
            (r matches Err(e) ==> e.code == INVALID_VALUE && e.desc@ == "Invalid timeout value"@),
    {
        if timeout_nanos > 0 {
            Ok(())
        } else {
            Err(Error { code: INVALID_VALUE, desc: String::from_str("Invalid timeout value") })
        }
    }

    /// Wait up to `timeout_nanos` nanoseconds for an event, then process
    /// pending events.  A zero or negative timeout yields an error and no
    /// native wait happens; otherwise as [`Self::poll_events`].  The slot
    /// is cleared again on every exit path, the error one included.
    pub fn wait_events_timeout(
        &self,
        state: &Lifecycle,
        slot: &mut HandlerSlot,
        timeout_nanos: i64,
        native_err: Option<Error>,
    ) -> (r: Result<(), Error>)
        requires
            state.wf(),
            state.initialized,
            !old(slot).active,
        ensures
            !final(slot).active,
            timeout_nanos <= 0 ==> (r matches Err(e) && e.code == INVALID_VALUE && e.desc@
                == "Invalid timeout value"@),
            timeout_nanos > 0 ==> (r == match native_err {
                Some(e) => Err::<(), Error>(e),
                None => Ok::<(), Error>(()),
            }),
    {
        let guard = set_handler(slot);
        let r = match Glfw::check_wait_timeout(timeout_nanos) {
            Err(e) => Err(e),
            Ok(()) => match native_err {
                Some(e) => Err(e),
                None => Ok(()),
            },
        };
        unset_handler(slot, guard);
        r
    }
}

} // verus!
