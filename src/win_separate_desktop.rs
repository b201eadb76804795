use vstd::prelude::*;
use crate::overlay::OverlayController;
use crate::privacy_mode::{
    check_off_conn_id, check_on_conn_id, fresh_mode, make_turn_off_plan, mode_turn_off,
    mode_turn_on, ModeView, PrivacyError, PrivacyModeKind, PrivacyModeState, TurnOffPlan,
    INVALID_PRIVACY_MODE_CONN_ID,
};

verus! {

/// Name of the isolated desktop the remote agent works on.
pub const AGENT_DESKTOP_NAME: &'static str = "CloudyDeskAgent";

/// Name of the console user's desktop.
pub const DEFAULT_DESKTOP_NAME: &'static str = "Default";

/// Prefix that places a desktop name in the interactive window station.
pub const WINDOW_STATION_PREFIX: &'static str = "winsta0\\";

/// How long the shell is given to start on a new desktop, in milliseconds.
pub const SHELL_STARTUP_WAIT_MS: u64 = 2000;

/// The isolated desktop and the shell launched on it.
pub struct DesktopInfo {
    pub desktop_name: String,
    pub explorer_pid: Option<u32>,
}

/// The process-wide record of the isolated desktop; at most one exists.
pub struct AgentDesktopRegistry {
    pub info: Option<DesktopInfo>,
}

/// Whether `reg` records a desktop made by `create_agent_desktop`: the agent
/// desktop, with the pid of the shell started on it.
pub open spec fn holds_agent_desktop(reg: AgentDesktopRegistry) -> bool {
    &&& reg.info is Some
    &&& reg.info->Some_0.desktop_name@ == AGENT_DESKTOP_NAME@
    &&& reg.info->Some_0.explorer_pid is Some
}

/// `name` placed in the interactive window station.
pub open spec fn station_path(name: Seq<char>) -> Seq<char> {
    WINDOW_STATION_PREFIX@ + name
}

/// `name` placed in the interactive window station, as the shell's start-up
/// information names its desktop.
pub fn desktop_path(name: &str) -> (r: String)
    ensures
        r@ == station_path(name@),
{
    let prefix = String::from_str(WINDOW_STATION_PREFIX);
    prefix.concat(name)
}

impl AgentDesktopRegistry {
    /// A record with no desktop.
    pub fn new() -> (r: Self)
        ensures
            r.info is None,
    {
        AgentDesktopRegistry { info: None }
    }

    /// Whether a desktop has to be made: none is recorded.
    pub fn needs_creation(&self) -> (r: bool)
        ensures
            r == self.info is None,
    {
        self.info.is_none()
    }

    /// Records the agent desktop once the OS work is done. `launched` is the
    /// pid of the shell started on it, or why creating the desktop or
    /// launching the shell failed (the partial desktop closed). Creating
    /// again while one is recorded changes nothing.
    pub fn create_agent_desktop(&mut self, launched: Result<u32, PrivacyError>) -> (r: Result<
        (),
        PrivacyError,
    >)
        ensures
            old(self).info is Some ==> r is Ok && final(self).info == old(self).info,
            old(self).info is None ==> match launched {
                Ok(pid) => r is Ok && holds_agent_desktop(*final(self))
                    && final(self).info->Some_0.explorer_pid == Some(pid),
                Err(e) => r == Err::<(), PrivacyError>(e) && final(self).info is None,
            },
    {
        if self.info.is_some() {
            return Ok(());
        }
        match launched {
            Ok(pid) => {
                self.info = Some(
                    DesktopInfo {
                        desktop_name: String::from_str(AGENT_DESKTOP_NAME),
                        explorer_pid: Some(pid),
                    },
                );
                Ok(())
            },
            Err(e) => Err(e),
        }
    }

    /// Forgets the desktop and hands it back, so that its shell is
    /// terminated and the desktop closed. Afterwards none is recorded.
    pub fn destroy_agent_desktop(&mut self) -> (r: Option<DesktopInfo>)
        ensures
            r == old(self).info,
            final(self).info is None,
    {
        self.info.take()
    }

    /// The desktop the capture thread is to attach to: the recorded one; an
    /// error when none is.
    pub fn switch_to_agent_desktop(&self) -> (r: Result<String, PrivacyError>)
        ensures
            self.info is Some ==> r is Ok && r->Ok_0@ == self.info->Some_0.desktop_name@,
            self.info is None ==> r == Err::<String, PrivacyError>(PrivacyError::DesktopMissing),
            holds_agent_desktop(*self) ==> r is Ok && r->Ok_0@ == AGENT_DESKTOP_NAME@,
    {
        match &self.info {
            Some(info) => Ok(info.desktop_name.clone()),
            None => Err(PrivacyError::DesktopMissing),
        }
    }

    /// The recorded desktop in the interactive window station, for launching
    /// processes on it; an error when none is recorded.
    pub fn get_agent_desktop_name(&self) -> (r: Result<String, PrivacyError>)
        ensures
            self.info is Some ==> r is Ok && r->Ok_0@ == station_path(
                self.info->Some_0.desktop_name@,
            ),
            self.info is None ==> r == Err::<String, PrivacyError>(PrivacyError::DesktopMissing),
    {
        match &self.info {
            Some(info) => Ok(desktop_path(info.desktop_name.as_str())),
            None => Err(PrivacyError::DesktopMissing),
        }
    }
}

/// The desktop a thread goes back to when it leaves the agent desktop.
pub fn switch_to_original_desktop() -> (r: &'static str)
    ensures
        r@ == DEFAULT_DESKTOP_NAME@,
{
    DEFAULT_DESKTOP_NAME
}

/// The isolated desktop works on every supported system.
pub fn is_supported() -> (r: bool)
    ensures
        r,
{
    true
}

/// Start-up cleanup: a desktop left behind by an earlier run is handed back
/// for teardown.
pub fn init_cleanup(reg: &mut AgentDesktopRegistry) -> (r: Option<DesktopInfo>)
    ensures
        r == old(reg).info,
        final(reg).info is None,
{
    reg.destroy_agent_desktop()
}

/// Teardown on demand: the recorded desktop is handed back for teardown and
/// none is left recorded.
pub fn emergency_cleanup(reg: &mut AgentDesktopRegistry) -> (r: Option<DesktopInfo>)
    ensures
        r == old(reg).info,
        final(reg).info is None,
{
    reg.destroy_agent_desktop()
}

/// Privacy mode through an isolated desktop: the capture thread works on it
/// while the console user's desktop is left as it is.
pub struct SeparateDesktopPrivacyMode {
    pub impl_key: String,
    pub conn_id: i32,
}

impl SeparateDesktopPrivacyMode {
    /// The state of this back-end.
    pub open spec fn mode_view(&self) -> ModeView {
        ModeView { kind: PrivacyModeKind::SeparateDesktop, conn_id: self.conn_id, controller: None }
    }

    /// A back-end registered under `impl_key` that nobody holds.
    pub fn new(impl_key: &str) -> (r: Self)
        ensures
            r.impl_key@ == impl_key@,
            r.mode_view() == fresh_mode(PrivacyModeKind::SeparateDesktop),
    {
        SeparateDesktopPrivacyMode {
            impl_key: String::from_str(impl_key),
            conn_id: INVALID_PRIVACY_MODE_CONN_ID,
        }
    }

    /// This back-end works on every supported system.
    pub fn is_available() -> (r: bool)
        ensures
            r,
    {
        true
    }

    /// Turning on completes before the call returns.
    pub fn is_async_privacy_mode(&self) -> (r: bool)
        ensures
            !r,
    {
        false
    }

    /// The connection holding the mode, or `INVALID_PRIVACY_MODE_CONN_ID`.
    pub fn pre_conn_id(&self) -> (r: i32)
        ensures
            r == self.conn_id,
    {
        self.conn_id
    }

    /// The key this back-end was created under.
    pub fn get_impl_key(&self) -> (r: &str)
        ensures
            r@ == self.impl_key@,
    {
        self.impl_key.as_str()
    }

    /// Turns the mode on for `conn_id`. `activation` is `Ok` once the agent
    /// desktop exists and the capture thread is on it, or why that failed; it
    /// is only consulted when the mode is free (`check_on_conn_id` gives
    /// `Ok(false)`).
    pub fn turn_on_privacy(
        &mut self,
        conn_id: i32,
        activation: Result<(), PrivacyError>,
    ) -> (r: Result<bool, PrivacyError>)
        ensures
            (final(self).mode_view(), r) == mode_turn_on(
                old(self).mode_view(),
                conn_id,
                match activation {
                    Ok(_) => Ok(OverlayController { state: None }),
                    Err(e) => Err(e),
                },
            ),
            final(self).impl_key == old(self).impl_key,
    {
        match check_on_conn_id(self.conn_id, conn_id) {
            Err(e) => Err(e),
            Ok(true) => Ok(true),
            Ok(false) => match activation {
                Err(e) => Err(e),
                Ok(()) => {
                    self.conn_id = conn_id;
                    Ok(true)
                },
            },
        }
    }

    /// Turns the mode off for `conn_id`, publishing `state` if given; returns
    /// the OS work owed (back to the default desktop, destroy the agent one).
    pub fn turn_off_privacy(&mut self, conn_id: i32, state: Option<PrivacyModeState>) -> (r: Result<
        TurnOffPlan,
        PrivacyError,
    >)
        ensures
            (final(self).mode_view(), r) == mode_turn_off(old(self).mode_view(), conn_id, state),
            final(self).impl_key == old(self).impl_key,
    {
        check_off_conn_id(self.conn_id, conn_id)?;
        let plan = make_turn_off_plan(PrivacyModeKind::SeparateDesktop, None, conn_id, state);
        self.conn_id = INVALID_PRIVACY_MODE_CONN_ID;
        Ok(plan)
    }

    /// Turns the mode off on behalf of its holder, publishing nothing.
    pub fn clear(&mut self) -> (r: TurnOffPlan)
        ensures
            (final(self).mode_view(), Ok::<TurnOffPlan, PrivacyError>(r)) == mode_turn_off(
                old(self).mode_view(),
                old(self).conn_id,
                None,
            ),
            final(self).impl_key == old(self).impl_key,
    {
        let conn_id = self.conn_id;
        let plan = make_turn_off_plan(PrivacyModeKind::SeparateDesktop, None, conn_id, None);
        self.conn_id = INVALID_PRIVACY_MODE_CONN_ID;
        plan
    }
}

} // verus!
