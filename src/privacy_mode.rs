use vstd::prelude::*;
use crate::overlay::OverlayController;
use crate::conf_text::str_equal;

verus! {

/// Connection id that stands for "no connection"; as a `turn_off` argument it
/// forces the mode off whoever holds it.
pub const INVALID_PRIVACY_MODE_CONN_ID: i32 = -1;

/// Registered key of the full-screen black overlay back-end.
pub const PRIVACY_MODE_IMPL_WIN_DIRECT_OVERLAY: &'static str = "privacy_mode_impl_direct_overlay";

/// Registered key of the animated overlay back-end.
pub const PRIVACY_MODE_IMPL_WIN_GIF_OVERLAY: &'static str = "privacy_mode_impl_gif_overlay";

/// Registered key of the isolated-desktop back-end.
pub const PRIVACY_MODE_IMPL_WIN_SEPARATE_DESKTOP: &'static str = "privacy_mode_impl_separate_desktop";

/// How long the session layer is given to take a published state, in milliseconds.
pub const STATE_PUBLISH_DEADLINE_MS: u64 = 1000;

/// State published to the session layer after a transition.
#[derive(Clone, Copy, Debug, PartialEq, Eq, Structural)]
pub enum PrivacyModeState {
    Off,
    OffSucceeded,
    OffByPeer,
    OffFailed,
    OffUnknown,
    On,
    OnFailed,
}

/// The three back-ends.
#[derive(Clone, Copy, Debug, PartialEq, Eq, Structural)]
pub enum PrivacyModeKind {
    DirectOverlay,
    GifOverlay,
    SeparateDesktop,
}

/// Why a privacy-mode operation failed.
#[derive(Clone, Copy, Debug, PartialEq, Eq, Structural)]
pub enum PrivacyError {
    /// Another connection already holds the privacy mode.
    ExceedMaxConnections,
    /// `turn_off` came from a connection other than the one holding the mode.
    WrongConnection,
    /// A different back-end is active.
    AnotherModeActive,
    /// The overlay worker thread has not reported ready.
    WorkerNotReady,
    /// Posting a command to the worker failed, with the OS error code.
    PostFailed(u32),
    /// Registering the class or creating the overlay window failed.
    WindowCreation(u32),
    /// Installing a low-level input hook failed.
    HookInstall(u32),
    /// Creating the isolated desktop failed.
    DesktopCreate(u32),
    /// Launching the shell on the isolated desktop failed.
    ShellLaunch(u32),
    /// Attaching the calling thread to a desktop failed.
    DesktopSwitch(u32),
    /// The isolated desktop does not exist.
    DesktopMissing,
}

/// The key each back-end is registered under.
pub open spec fn impl_key_of(kind: PrivacyModeKind) -> Seq<char> {
    match kind {
        PrivacyModeKind::DirectOverlay => PRIVACY_MODE_IMPL_WIN_DIRECT_OVERLAY@,
        PrivacyModeKind::GifOverlay => PRIVACY_MODE_IMPL_WIN_GIF_OVERLAY@,
        PrivacyModeKind::SeparateDesktop => PRIVACY_MODE_IMPL_WIN_SEPARATE_DESKTOP@,
    }
}

/// The back-end registered under `key`, if any.
pub open spec fn kind_of_key(key: Seq<char>) -> Option<PrivacyModeKind> {
    if key == impl_key_of(PrivacyModeKind::DirectOverlay) {
        Some(PrivacyModeKind::DirectOverlay)
    } else if key == impl_key_of(PrivacyModeKind::GifOverlay) {
        Some(PrivacyModeKind::GifOverlay)
    } else if key == impl_key_of(PrivacyModeKind::SeparateDesktop) {
        Some(PrivacyModeKind::SeparateDesktop)
    } else {
        None
    }
}

impl PrivacyModeKind {
    /// The key this back-end is registered under.
    pub fn impl_key(&self) -> (r: &'static str)
        ensures
            r@ == impl_key_of(*self),
    {
        match self {
            PrivacyModeKind::DirectOverlay => PRIVACY_MODE_IMPL_WIN_DIRECT_OVERLAY,
            PrivacyModeKind::GifOverlay => PRIVACY_MODE_IMPL_WIN_GIF_OVERLAY,
            PrivacyModeKind::SeparateDesktop => PRIVACY_MODE_IMPL_WIN_SEPARATE_DESKTOP,
        }
    }
}

/// The back-end registered under `key`; `None` for an unknown key.
pub fn kind_from_impl_key(key: &str) -> (r: Option<PrivacyModeKind>)
    ensures
        r == kind_of_key(key@),
{
    if str_equal(key, PRIVACY_MODE_IMPL_WIN_DIRECT_OVERLAY) {
        Some(PrivacyModeKind::DirectOverlay)
    } else if str_equal(key, PRIVACY_MODE_IMPL_WIN_GIF_OVERLAY) {
        Some(PrivacyModeKind::GifOverlay)
    } else if str_equal(key, PRIVACY_MODE_IMPL_WIN_SEPARATE_DESKTOP) {
        Some(PrivacyModeKind::SeparateDesktop)
    } else {
        None
    }
}

/// Outcome of the turn-on check: `Ok(true)` when `conn_id` already holds the
/// mode, `Ok(false)` when the mode is free, an error when another connection
/// holds it.
pub open spec fn on_check(pre_conn_id: i32, conn_id: i32) -> Result<bool, PrivacyError> {
    if pre_conn_id == conn_id {
        Ok(true)
    } else if pre_conn_id != INVALID_PRIVACY_MODE_CONN_ID {
        Err(PrivacyError::ExceedMaxConnections)
    } else {
        Ok(false)
    }
}

/// Whether `conn_id` may turn off a mode held by `pre_conn_id`: the mode is
/// free, the caller forces it with the invalid id, or the caller holds it.
pub open spec fn off_allowed(pre_conn_id: i32, conn_id: i32) -> bool {
    pre_conn_id == INVALID_PRIVACY_MODE_CONN_ID || conn_id == INVALID_PRIVACY_MODE_CONN_ID
        || pre_conn_id == conn_id
}

/// Checks a turn-on request by `conn_id` against the holder `pre_conn_id`.
pub fn check_on_conn_id(pre_conn_id: i32, conn_id: i32) -> (r: Result<bool, PrivacyError>)
    ensures
        r == on_check(pre_conn_id, conn_id),
{
    if pre_conn_id == conn_id {
        Ok(true)
    } else if pre_conn_id != INVALID_PRIVACY_MODE_CONN_ID {
        Err(PrivacyError::ExceedMaxConnections)
    } else {
        Ok(false)
    }
}

/// Checks a turn-off request by `conn_id` against the holder `pre_conn_id`.
pub fn check_off_conn_id(pre_conn_id: i32, conn_id: i32) -> (r: Result<(), PrivacyError>)
    ensures
        r is Ok <==> off_allowed(pre_conn_id, conn_id),
        r is Err ==> r == Err::<(), PrivacyError>(PrivacyError::WrongConnection),
{
    if pre_conn_id != INVALID_PRIVACY_MODE_CONN_ID && conn_id != INVALID_PRIVACY_MODE_CONN_ID
        && pre_conn_id != conn_id {
        Err(PrivacyError::WrongConnection)
    } else {
        Ok(())
    }
}

/// A state transition to hand to the session layer.
#[derive(Clone, Copy, Debug, PartialEq, Eq, Structural)]
pub struct StatePublication {
    pub conn_id: i32,
    pub state: PrivacyModeState,
    pub kind: PrivacyModeKind,
    pub deadline_ms: u64,
}

/// The publication owed after `conn_id` turned a back-end off with `state`.
pub open spec fn publication_of(
    kind: PrivacyModeKind,
    conn_id: i32,
    state: Option<PrivacyModeState>,
) -> Option<StatePublication> {
    match state {
        Some(s) => Some(
            StatePublication { conn_id, state: s, kind, deadline_ms: STATE_PUBLISH_DEADLINE_MS },
        ),
        None => None,
    }
}

/// Builds the publication owed after `conn_id` turned a back-end off with `state`.
pub fn make_publication(
    kind: PrivacyModeKind,
    conn_id: i32,
    state: Option<PrivacyModeState>,
) -> (r: Option<StatePublication>)
    ensures
        r == publication_of(kind, conn_id, state),
{
    match state {
        Some(s) => Some(
            StatePublication { conn_id, state: s, kind, deadline_ms: STATE_PUBLISH_DEADLINE_MS },
        ),
        None => None,
    }
}

/// What a back-end's state amounts to: which it is, the connection holding
/// it (`INVALID_PRIVACY_MODE_CONN_ID`: none), and the overlay worker it has
/// shown through.
pub struct ModeView {
    pub kind: PrivacyModeKind,
    pub conn_id: i32,
    pub controller: Option<OverlayController>,
}

/// A back-end of `kind` that nobody holds.
pub open spec fn fresh_mode(kind: PrivacyModeKind) -> ModeView {
    ModeView { kind, conn_id: INVALID_PRIVACY_MODE_CONN_ID, controller: None }
}

/// Whether `m` is held by a connection.
pub open spec fn mode_active(m: ModeView) -> bool {
    m.conn_id != INVALID_PRIVACY_MODE_CONN_ID
}

/// Turning `m` on for `conn_id`, where `activation` is the outcome of the OS
/// work (for an overlay, the worker that took SHOW). The holder gets
/// `Ok(true)` with nothing done; another connection's request fails; on a
/// free mode the outcome decides.
pub open spec fn mode_turn_on(
    m: ModeView,
    conn_id: i32,
    activation: Result<OverlayController, PrivacyError>,
) -> (ModeView, Result<bool, PrivacyError>) {
    match on_check(m.conn_id, conn_id) {
        Err(e) => (m, Err(e)),
        Ok(true) => (m, Ok(true)),
        Ok(false) => match activation {
            Err(e) => (m, Err(e)),
            Ok(c) => (
                ModeView {
                    conn_id,
                    controller: if m.kind == PrivacyModeKind::SeparateDesktop {
                        None
                    } else {
                        Some(c)
                    },
                    ..m
                },
                Ok(true),
            ),
        },
    }
}

/// OS work owed after a back-end was turned off.
#[derive(Clone, Copy, Debug, PartialEq, Eq, Structural)]
pub struct TurnOffPlan {
    /// Worker thread to post HIDE to.
    pub hide_worker: Option<u32>,
    /// Switch the capture thread back to the default desktop and destroy the
    /// isolated one.
    pub leave_desktop: bool,
    /// State to publish to the session layer.
    pub publish: Option<StatePublication>,
}

/// The OS work owed when `conn_id` turns off, with `state`, a back-end of
/// `kind` held through `controller`.
pub open spec fn turn_off_plan(
    kind: PrivacyModeKind,
    controller: Option<OverlayController>,
    conn_id: i32,
    state: Option<PrivacyModeState>,
) -> TurnOffPlan {
    TurnOffPlan {
        hide_worker: match controller {
            Some(c) => match c.state {
                Some(s) => Some(s.thread_id),
                None => None,
            },
            None => None,
        },
        leave_desktop: kind == PrivacyModeKind::SeparateDesktop,
        publish: publication_of(kind, conn_id, state),
    }
}

/// Turning `m` off for `conn_id`: refused to a connection other than the
/// holder unless forced; else the mode is free afterwards.
pub open spec fn mode_turn_off(m: ModeView, conn_id: i32, state: Option<PrivacyModeState>) -> (
    ModeView,
    Result<TurnOffPlan, PrivacyError>,
) {
    if off_allowed(m.conn_id, conn_id) {
        (
            ModeView { conn_id: INVALID_PRIVACY_MODE_CONN_ID, controller: None, ..m },
            Ok(turn_off_plan(m.kind, m.controller, conn_id, state)),
        )
    } else {
        (m, Err(PrivacyError::WrongConnection))
    }
}

/// Builds the turn-off plan for a back-end of `kind` held through `controller`.
pub fn make_turn_off_plan(
    kind: PrivacyModeKind,
    controller: Option<OverlayController>,
    conn_id: i32,
    state: Option<PrivacyModeState>,
) -> (r: TurnOffPlan)
    ensures
        r == turn_off_plan(kind, controller, conn_id, state),
{
    let hide_worker = match controller {
        Some(c) => c.thread_id(),
        None => None,
    };
    let leave_desktop = match kind {
        PrivacyModeKind::SeparateDesktop => true,
        _ => false,
    };
    TurnOffPlan { hide_worker, leave_desktop, publish: make_publication(kind, conn_id, state) }
}

} // verus!
