use vstd::prelude::*;
use crate::overlay::{
    cleanup_actions, flags_clear, flags_wf, OverlayAction, OverlayController, OverlayFlags,
};
use crate::privacy_mode::{
    check_off_conn_id, check_on_conn_id, fresh_mode, make_turn_off_plan, mode_turn_off,
    mode_turn_on, ModeView, PrivacyError, PrivacyModeKind, PrivacyModeState, TurnOffPlan,
    INVALID_PRIVACY_MODE_CONN_ID,
};

verus! {

/// Window class of the black overlay, stable so that diagnostic tools can find it.
pub const PRIVACY_WINDOW_CLASS: &'static str = "CloudyDeskDirectPrivacyWindow";

/// Title of the black overlay window.
pub const PRIVACY_WINDOW_TITLE: &'static str = "CloudyDesk Privacy Overlay";

/// Privacy mode through a full-screen black top-most window, excluded from
/// capture, with input hooks that let only synthetic input through.
pub struct DirectOverlayPrivacyMode {
    pub impl_key: String,
    pub conn_id: i32,
    pub controller: Option<OverlayController>,
}

impl DirectOverlayPrivacyMode {
    /// The state of this back-end.
    pub open spec fn mode_view(&self) -> ModeView {
        ModeView {
            kind: PrivacyModeKind::DirectOverlay,
            conn_id: self.conn_id,
            controller: self.controller,
        }
    }

    /// A back-end registered under `impl_key` that nobody holds.
    pub fn new(impl_key: &str) -> (r: Self)
        ensures
            r.impl_key@ == impl_key@,
            r.mode_view() == fresh_mode(PrivacyModeKind::DirectOverlay),
    {
        DirectOverlayPrivacyMode {
            impl_key: String::from_str(impl_key),
            conn_id: INVALID_PRIVACY_MODE_CONN_ID,
            controller: None,
        }
    }

    /// This back-end works on every supported system.
    pub fn is_available() -> (r: bool)
        ensures
            r,
    {
        true
    }

    /// Turning on completes before the call returns.
    pub fn is_async_privacy_mode(&self) -> (r: bool)
        ensures
            !r,
    {
        false
    }

    /// The connection holding the mode, or `INVALID_PRIVACY_MODE_CONN_ID`.
    pub fn pre_conn_id(&self) -> (r: i32)
        ensures
            r == self.conn_id,
    {
        self.conn_id
    }

    /// The key this back-end was created under.
    pub fn get_impl_key(&self) -> (r: &str)
        ensures
            r@ == self.impl_key@,
    {
        self.impl_key.as_str()
    }

    /// Turns the mode on for `conn_id`. `activation` is the worker that took
    /// SHOW, or why starting it or posting failed; it is only consulted when
    /// the mode is free (`check_on_conn_id` gives `Ok(false)`).
    pub fn turn_on_privacy(
        &mut self,
        conn_id: i32,
        activation: Result<OverlayController, PrivacyError>,
    ) -> (r: Result<bool, PrivacyError>)
        ensures
            (final(self).mode_view(), r) == mode_turn_on(old(self).mode_view(), conn_id, activation),
            final(self).impl_key == old(self).impl_key,
    {
        match check_on_conn_id(self.conn_id, conn_id) {
            Err(e) => Err(e),
            Ok(true) => Ok(true),
            Ok(false) => match activation {
                Err(e) => Err(e),
                Ok(c) => {
                    self.controller = Some(c);
                    self.conn_id = conn_id;
                    Ok(true)
                },
            },
        }
    }

    /// Turns the mode off for `conn_id`, publishing `state` if given; returns
    /// the OS work owed (HIDE to the worker).
    pub fn turn_off_privacy(&mut self, conn_id: i32, state: Option<PrivacyModeState>) -> (r: Result<
        TurnOffPlan,
        PrivacyError,
    >)
        ensures
            (final(self).mode_view(), r) == mode_turn_off(old(self).mode_view(), conn_id, state),
            final(self).impl_key == old(self).impl_key,
    {
        check_off_conn_id(self.conn_id, conn_id)?;
        let plan = make_turn_off_plan(
            PrivacyModeKind::DirectOverlay,
            self.controller,
            conn_id,
            state,
        );
        self.conn_id = INVALID_PRIVACY_MODE_CONN_ID;
        self.controller = None;
        Ok(plan)
    }

    /// Turns the mode off on behalf of its holder, publishing nothing.
    pub fn clear(&mut self) -> (r: TurnOffPlan)
        ensures
            (final(self).mode_view(), Ok::<TurnOffPlan, PrivacyError>(r)) == mode_turn_off(
                old(self).mode_view(),
                old(self).conn_id,
                None,
            ),
            final(self).impl_key == old(self).impl_key,
    {
        let conn_id = self.conn_id;
        let plan = make_turn_off_plan(PrivacyModeKind::DirectOverlay, self.controller, conn_id, None);
        self.conn_id = INVALID_PRIVACY_MODE_CONN_ID;
        self.controller = None;
        plan
    }
}

/// The black overlay works on every supported system.
pub fn is_supported() -> (r: bool)
    ensures
        r,
{
    true
}

/// Teardown when the session closes: the worker to send SHUTDOWN to and
/// join, if one was started, and the steps that leave no hook, no replaced
/// system cursor and no hidden cursor behind. Every flag is clear afterwards
/// and the worker is forgotten.
pub fn cleanup_on_session_close(
    flags: &mut OverlayFlags,
    controller: &mut Option<OverlayController>,
) -> (r: (Option<u32>, Vec<OverlayAction>))
    requires
        flags_wf(*old(flags)),
    ensures
        r.0 == (match *old(controller) {
            Some(c) => match c.state {
                Some(s) => Some(s.thread_id),
                None => None,
            },
            None => None,
        }),
        r.1@ == cleanup_actions(*old(flags)),
        flags_clear(*final(flags)),
        flags_wf(*final(flags)),
        *final(controller) is None,
{
    let worker = match controller {
        Some(c) => c.thread_id(),
        None => None,
    };
    *controller = None;
    let actions = flags.cleanup();
    (worker, actions)
}

/// Start-up teardown, whatever an earlier session left; the same as
/// `cleanup_on_session_close`.
pub fn init_cleanup(
    flags: &mut OverlayFlags,
    controller: &mut Option<OverlayController>,
) -> (r: (Option<u32>, Vec<OverlayAction>))
    requires
        flags_wf(*old(flags)),
    ensures
        r.0 == (match *old(controller) {
            Some(c) => match c.state {
                Some(s) => Some(s.thread_id),
                None => None,
            },
            None => None,
        }),
        r.1@ == cleanup_actions(*old(flags)),
        flags_clear(*final(flags)),
        flags_wf(*final(flags)),
        *final(controller) is None,
{
    cleanup_on_session_close(flags, controller)
}

/// Teardown on demand, whatever state the overlay is in; the same as
/// `cleanup_on_session_close`.
pub fn emergency_cleanup(
    flags: &mut OverlayFlags,
    controller: &mut Option<OverlayController>,
) -> (r: (Option<u32>, Vec<OverlayAction>))
    requires
        flags_wf(*old(flags)),
    ensures
        r.0 == (match *old(controller) {
            Some(c) => match c.state {
                Some(s) => Some(s.thread_id),
                None => None,
            },
            None => None,
        }),
        r.1@ == cleanup_actions(*old(flags)),
        flags_clear(*final(flags)),
        flags_wf(*final(flags)),
        *final(controller) is None,
{
    cleanup_on_session_close(flags, controller)
}

} // verus!
