use vstd::prelude::*;
use crate::overlay::OverlayController;
use crate::privacy_mode::{
    fresh_mode, kind_from_impl_key, kind_of_key, mode_active, mode_turn_off, mode_turn_on,
    on_check, ModeView, PrivacyError, PrivacyModeKind, PrivacyModeState,
    TurnOffPlan, INVALID_PRIVACY_MODE_CONN_ID,
};
use crate::win_direct_overlay::DirectOverlayPrivacyMode;
use crate::win_gif_overlay::GifOverlayPrivacyMode;
use crate::win_separate_desktop::SeparateDesktopPrivacyMode;

verus! {

/// One back-end, whichever it is.
pub enum PrivacyModeBackend {
    DirectOverlay(DirectOverlayPrivacyMode),
    GifOverlay(GifOverlayPrivacyMode),
    SeparateDesktop(SeparateDesktopPrivacyMode),
}

impl PrivacyModeBackend {
    /// The state of the back-end.
    pub open spec fn mode_view(&self) -> ModeView {
        match self {
            PrivacyModeBackend::DirectOverlay(m) => m.mode_view(),
            PrivacyModeBackend::GifOverlay(m) => m.mode_view(),
            PrivacyModeBackend::SeparateDesktop(m) => m.mode_view(),
        }
    }

    /// A back-end of `kind`, under its registered key, that nobody holds.
    pub fn create(kind: PrivacyModeKind) -> (r: Self)
        ensures
            r.mode_view() == fresh_mode(kind),
    {
        match kind {
            PrivacyModeKind::DirectOverlay => PrivacyModeBackend::DirectOverlay(
                DirectOverlayPrivacyMode::new(kind.impl_key()),
            ),
            PrivacyModeKind::GifOverlay => PrivacyModeBackend::GifOverlay(
                GifOverlayPrivacyMode::new(kind.impl_key()),
            ),
            PrivacyModeKind::SeparateDesktop => PrivacyModeBackend::SeparateDesktop(
                SeparateDesktopPrivacyMode::new(kind.impl_key()),
            ),
        }
    }

    /// Which back-end this is.
    pub fn kind(&self) -> (r: PrivacyModeKind)
        ensures
            r == self.mode_view().kind,
    {
        match self {
            PrivacyModeBackend::DirectOverlay(_) => PrivacyModeKind::DirectOverlay,
            PrivacyModeBackend::GifOverlay(_) => PrivacyModeKind::GifOverlay,
            PrivacyModeBackend::SeparateDesktop(_) => PrivacyModeKind::SeparateDesktop,
        }
    }

    /// The connection holding the back-end, or `INVALID_PRIVACY_MODE_CONN_ID`.
    pub fn pre_conn_id(&self) -> (r: i32)
        ensures
            r == self.mode_view().conn_id,
    {
        match self {
            PrivacyModeBackend::DirectOverlay(m) => m.pre_conn_id(),
            PrivacyModeBackend::GifOverlay(m) => m.pre_conn_id(),
            PrivacyModeBackend::SeparateDesktop(m) => m.pre_conn_id(),
        }
    }

    /// Turns the back-end on for `conn_id` (see `mode_turn_on`).
    pub fn turn_on_privacy(
        &mut self,
        conn_id: i32,
        activation: Result<OverlayController, PrivacyError>,
    ) -> (r: Result<bool, PrivacyError>)
        ensures
            (final(self).mode_view(), r) == mode_turn_on(old(self).mode_view(), conn_id, activation),
    {
        match self {
            PrivacyModeBackend::DirectOverlay(m) => m.turn_on_privacy(conn_id, activation),
            PrivacyModeBackend::GifOverlay(m) => m.turn_on_privacy(conn_id, activation),
            PrivacyModeBackend::SeparateDesktop(m) => {
                let a = match activation {
                    Ok(_) => Ok(()),
                    Err(e) => Err(e),
                };
                m.turn_on_privacy(conn_id, a)
            },
        }
    }

    /// Turns the back-end off for `conn_id` (see `mode_turn_off`).
    pub fn turn_off_privacy(&mut self, conn_id: i32, state: Option<PrivacyModeState>) -> (r: Result<
        TurnOffPlan,
        PrivacyError,
    >)
        ensures
            (final(self).mode_view(), r) == mode_turn_off(old(self).mode_view(), conn_id, state),
    {
        match self {
            PrivacyModeBackend::DirectOverlay(m) => m.turn_off_privacy(conn_id, state),
            PrivacyModeBackend::GifOverlay(m) => m.turn_off_privacy(conn_id, state),
            PrivacyModeBackend::SeparateDesktop(m) => m.turn_off_privacy(conn_id, state),
        }
    }
}

/// What `turn_on` asks of the caller before it can be completed.
#[derive(Clone, Copy, Debug, PartialEq, Eq, Structural)]
pub enum TurnOnStep {
    /// The request fails with this error; nothing is to be done.
    Refused(PrivacyError),
    /// Tear down the back-end in `retire` (one of another kind that nobody
    /// holds, being replaced), then do the OS work to turn on `activate`
    /// (`None`: the caller already holds the mode).
    Proceed { retire: Option<PrivacyModeKind>, activate: Option<PrivacyModeKind> },
}

/// The back-end a request for `kind` works on: the one in the slot if it is
/// of that kind, else a fresh one.
pub open spec fn base_mode(slot: Option<ModeView>, kind: PrivacyModeKind) -> ModeView {
    match slot {
        Some(m) => if m.kind == kind {
            m
        } else {
            fresh_mode(kind)
        },
        None => fresh_mode(kind),
    }
}

/// Whether the slot holds an active back-end of a kind other than `kind`.
pub open spec fn other_mode_active(slot: Option<ModeView>, kind: PrivacyModeKind) -> bool {
    match slot {
        Some(m) => mode_active(m) && m.kind != kind,
        None => false,
    }
}

/// What turning on `key` for `conn_id` asks of the caller; `None` for an
/// unregistered key.
pub open spec fn turn_on_step(slot: Option<ModeView>, key: Seq<char>, conn_id: i32) -> Option<
    TurnOnStep,
> {
    match kind_of_key(key) {
        None => None,
        Some(k) => Some(
            if other_mode_active(slot, k) {
                TurnOnStep::Refused(PrivacyError::AnotherModeActive)
            } else {
                match on_check(base_mode(slot, k).conn_id, conn_id) {
                    Err(e) => TurnOnStep::Refused(e),
                    Ok(held) => TurnOnStep::Proceed {
                        retire: match slot {
                            Some(m) => if m.kind != k {
                                Some(m.kind)
                            } else {
                                None
                            },
                            None => None,
                        },
                        activate: if held {
                            None
                        } else {
                            Some(k)
                        },
                    },
                }
            },
        ),
    }
}

/// Turning on `key` for `conn_id`, where `activation` is the outcome of the
/// OS work `turn_on_step` asked for: the new slot and the answer (`None` for
/// an unregistered key). Another active back-end refuses; a back-end of
/// another kind that nobody holds is replaced by a fresh one.
pub open spec fn registry_turn_on(
    slot: Option<ModeView>,
    key: Seq<char>,
    conn_id: i32,
    activation: Result<OverlayController, PrivacyError>,
) -> (Option<ModeView>, Option<Result<bool, PrivacyError>>) {
    match kind_of_key(key) {
        None => (slot, None),
        Some(k) => if other_mode_active(slot, k) {
            (slot, Some(Err(PrivacyError::AnotherModeActive)))
        } else {
            let (m, r) = mode_turn_on(base_mode(slot, k), conn_id, activation);
            (Some(m), Some(r))
        },
    }
}

/// Turning off for `conn_id` with `state`: the new slot and the answer
/// (`None` when no back-end was ever turned on).
pub open spec fn registry_turn_off(
    slot: Option<ModeView>,
    conn_id: i32,
    state: Option<PrivacyModeState>,
) -> (Option<ModeView>, Option<Result<TurnOffPlan, PrivacyError>>) {
    match slot {
        None => (None, None),
        Some(m) => {
            let (m2, r) = mode_turn_off(m, conn_id, state);
            (Some(m2), Some(r))
        },
    }
}

/// The active back-end and the connection holding it.
pub open spec fn active_of(slot: Option<ModeView>) -> Option<(PrivacyModeKind, i32)> {
    match slot {
        Some(m) => if mode_active(m) {
            Some((m.kind, m.conn_id))
        } else {
            None
        },
        None => None,
    }
}

/// The single slot for the back-end in use; at most one is ever active.
pub struct PrivacyModeRegistry {
    pub slot: Option<PrivacyModeBackend>,
}

impl PrivacyModeRegistry {
    /// The state of the slot.
    pub open spec fn slot_view(&self) -> Option<ModeView> {
        match self.slot {
            Some(b) => Some(b.mode_view()),
            None => None,
        }
    }

    /// An empty slot.
    pub fn new() -> (r: Self)
        ensures
            r.slot_view() is None,
    {
        PrivacyModeRegistry { slot: None }
    }

    /// The active back-end and the connection holding it, if any.
    pub fn query_active(&self) -> (r: Option<(PrivacyModeKind, i32)>)
        ensures
            r == active_of(self.slot_view()),
    {
        match &self.slot {
            Some(b) => {
                let c = b.pre_conn_id();
                if c != INVALID_PRIVACY_MODE_CONN_ID {
                    Some((b.kind(), c))
                } else {
                    None
                }
            },
            None => None,
        }
    }

    /// What turning on `impl_key` for `conn_id` asks of the caller; `None`
    /// for an unregistered key.
    pub fn plan_turn_on(&self, impl_key: &str, conn_id: i32) -> (r: Option<TurnOnStep>)
        ensures
            r == turn_on_step(self.slot_view(), impl_key@, conn_id),
    {
        let k = match kind_from_impl_key(impl_key) {
            Some(k) => k,
            None => return None,
        };
        let (base_conn, retire) = match &self.slot {
            Some(b) => {
                let bk = b.kind();
                if bk == k {
                    (b.pre_conn_id(), None)
                } else if b.pre_conn_id() != INVALID_PRIVACY_MODE_CONN_ID {
                    return Some(TurnOnStep::Refused(PrivacyError::AnotherModeActive));
                } else {
                    (INVALID_PRIVACY_MODE_CONN_ID, Some(bk))
                }
            },
            None => (INVALID_PRIVACY_MODE_CONN_ID, None),
        };
        if base_conn == conn_id {
            Some(TurnOnStep::Proceed { retire, activate: None })
        } else if base_conn != INVALID_PRIVACY_MODE_CONN_ID {
            Some(TurnOnStep::Refused(PrivacyError::ExceedMaxConnections))
        } else {
            Some(TurnOnStep::Proceed { retire, activate: Some(k) })
        }
    }

    /// Turns on `impl_key` for `conn_id`; `activation` is the outcome of the
    /// OS work `plan_turn_on` asked for, consulted only where it asked for
    /// some. `None` for an unregistered key.
    pub fn turn_on_privacy(
        &mut self,
        impl_key: &str,
        conn_id: i32,
        activation: Result<OverlayController, PrivacyError>,
    ) -> (r: Option<Result<bool, PrivacyError>>)
        ensures
            (final(self).slot_view(), r) == registry_turn_on(
                old(self).slot_view(),
                impl_key@,
                conn_id,
                activation,
            ),
    {
        let k = match kind_from_impl_key(impl_key) {
            Some(k) => k,
            None => return None,
        };
        let replace = match &self.slot {
            Some(b) => {
                if b.kind() == k {
                    false
                } else if b.pre_conn_id() != INVALID_PRIVACY_MODE_CONN_ID {
                    return Some(Err(PrivacyError::AnotherModeActive));
                } else {
                    true
                }
            },
            None => true,
        };
        let mut backend = if replace {
            PrivacyModeBackend::create(k)
        } else {
            match self.slot.take() {
                Some(b) => b,
                None => PrivacyModeBackend::create(k),
            }
        };
        let r = backend.turn_on_privacy(conn_id, activation);
        self.slot = Some(backend);
        Some(r)
    }

    /// Turns off for `conn_id` with `state`; `None` when no back-end was ever
    /// turned on. On success returns the OS work owed.
    pub fn turn_off_privacy(&mut self, conn_id: i32, state: Option<PrivacyModeState>) -> (r: Option<
        Result<TurnOffPlan, PrivacyError>,
    >)
        ensures
            (final(self).slot_view(), r) == registry_turn_off(old(self).slot_view(), conn_id, state),
    {
        match &mut self.slot {
            Some(b) => Some(b.turn_off_privacy(conn_id, state)),
            None => None,
        }
    }
}

/// Turning on twice with the same key and connection: once the first call
/// succeeded, the second answers `Ok(true)`, changes nothing and asks for no
/// OS work, whatever its activation outcome.
pub proof fn turn_on_is_idempotent(
    slot: Option<ModeView>,
    key: Seq<char>,
    conn_id: i32,
    first: Result<OverlayController, PrivacyError>,
    second: Result<OverlayController, PrivacyError>,
)
    requires
        registry_turn_on(slot, key, conn_id, first).1 == Some(Ok::<bool, PrivacyError>(true)),
    ensures
        ({
            let s1 = registry_turn_on(slot, key, conn_id, first).0;
            &&& registry_turn_on(s1, key, conn_id, second) == (s1, Some(
                Ok::<bool, PrivacyError>(true),
            ))
            &&& turn_on_step(s1, key, conn_id) == Some(
                TurnOnStep::Proceed { retire: None, activate: None },
            )
        }),
{
}

/// A connection other than the holder cannot turn an active mode off: the
/// request fails and the slot is left as it was.
pub proof fn turn_off_needs_holder(
    slot: Option<ModeView>,
    conn_id: i32,
    state: Option<PrivacyModeState>,
)
    requires
        slot is Some,
        mode_active(slot->Some_0),
        conn_id != INVALID_PRIVACY_MODE_CONN_ID,
        conn_id != slot->Some_0.conn_id,
    ensures
        registry_turn_off(slot, conn_id, state) == (slot, Some(
            Err::<TurnOffPlan, PrivacyError>(PrivacyError::WrongConnection),
        )),
{
}

/// After a successful turn-off nothing is active, and turning any
/// registered back-end on for any connection then succeeds once its OS work
/// succeeds.
pub proof fn turn_on_after_turn_off_succeeds(
    slot: Option<ModeView>,
    conn_id: i32,
    state: Option<PrivacyModeState>,
    key: Seq<char>,
    next_conn_id: i32,
    activation: Result<OverlayController, PrivacyError>,
)
    requires
        registry_turn_off(slot, conn_id, state).1 matches Some(Ok(_)),
        kind_of_key(key) is Some,
        activation is Ok,
    ensures
        active_of(registry_turn_off(slot, conn_id, state).0) is None,
        registry_turn_on(registry_turn_off(slot, conn_id, state).0, key, next_conn_id, activation).1
            == Some(Ok::<bool, PrivacyError>(true)),
{
}

/// While one back-end is active, asking for another fails and changes nothing.
pub proof fn only_one_mode_active(
    slot: Option<ModeView>,
    key: Seq<char>,
    conn_id: i32,
    activation: Result<OverlayController, PrivacyError>,
)
    requires
        slot is Some,
        mode_active(slot->Some_0),
        kind_of_key(key) is Some,
        kind_of_key(key)->Some_0 != slot->Some_0.kind,
    ensures
        registry_turn_on(slot, key, conn_id, activation) == (slot, Some(
            Err::<bool, PrivacyError>(PrivacyError::AnotherModeActive),
        )),
        turn_on_step(slot, key, conn_id) == Some(TurnOnStep::Refused(PrivacyError::AnotherModeActive)),
{
}

} // verus!
