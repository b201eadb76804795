use vstd::prelude::*;
use crate::privacy_mode::PrivacyError;

verus! {

/// `dwExtraInfo` value that the input-injection side (enigo's `EVENT_MARKER`)
/// stamps on every event it synthesises.
pub const SYNTHETIC_INPUT_EXTRA_INFO: usize = 100;

/// Hook code under which the event structure is valid (`HC_ACTION`).
pub const HC_ACTION: i32 = 0;

/// Event flag bits that mark an event as injected (`LLKHF_INJECTED`,
/// `LLKHF_LOWER_IL_INJECTED`; the mouse flags have the same values).
pub const INJECTED_FLAG: u32 = 0x01;
pub const LOWER_IL_INJECTED_FLAG: u32 = 0x02;

/// Extended window style bits of the overlay.
pub const WS_EX_TOPMOST: u32 = 0x0000_0008;
pub const WS_EX_TRANSPARENT: u32 = 0x0000_0020;
pub const WS_EX_TOOLWINDOW: u32 = 0x0000_0080;
pub const WS_EX_LAYERED: u32 = 0x0008_0000;
pub const WS_EX_NOACTIVATE: u32 = 0x0800_0000;

/// `SetWindowPos` flags that forbid a move or a resize.
pub const SWP_NOSIZE: u32 = 0x0001;
pub const SWP_NOMOVE: u32 = 0x0002;

/// Side of the red feedback squares painted in the corners of the black overlay.
pub const CORNER_SIZE: i32 = 100;

/// Period of the cursor enforcer, in milliseconds.
pub const CURSOR_ENFORCER_INTERVAL_MS: u64 = 50;

/// The system cursor ids that get a blank image while privacy mode is on: arrow,
/// I-beam, cross, hand, help, no-drop, size-all, the four sizing cursors, up
/// arrow and wait.
pub const BLANK_CURSOR_IDS: [u32; 13] = [
    32512, 32513, 32515, 32649, 32651, 32648, 32646, 32643, 32645, 32642, 32644, 32516, 32514,
];

/// Identity of the overlay worker thread, once it has reported ready.
#[derive(Clone, Copy, Debug, PartialEq, Eq, Structural)]
pub struct OverlayThreadState {
    pub thread_id: u32,
}

/// Handle on the overlay worker thread: commands are posted to its thread id.
#[derive(Clone, Copy, Debug, PartialEq, Eq, Structural)]
pub struct OverlayController {
    pub state: Option<OverlayThreadState>,
}

impl OverlayController {
    /// A controller whose worker has not reported ready.
    pub fn new() -> (r: Self)
        ensures
            r.state is None,
    {
        OverlayController { state: None }
    }

    /// Records the worker's ready report.
    pub fn set_state(&mut self, state: OverlayThreadState)
        ensures
            final(self).state == Some(state),
    {
        self.state = Some(state);
    }

    /// Forgets the worker, which has left its message loop.
    pub fn clear_state(&mut self)
        ensures
            final(self).state is None,
    {
        self.state = None;
    }

    /// The worker's thread id, if it is ready.
    pub fn thread_id(&self) -> (r: Option<u32>)
        ensures
            r == (match self.state {
                Some(s) => Some(s.thread_id),
                None => None,
            }),
    {
        match self.state {
            Some(s) => Some(s.thread_id),
            None => None,
        }
    }

    /// The thread a command must be posted to; an error while the worker is not ready.
    pub fn post_target(&self) -> (r: Result<u32, PrivacyError>)
        ensures
            self.state is Some ==> r == Ok::<u32, PrivacyError>(self.state->Some_0.thread_id),
            self.state is None ==> r == Err::<u32, PrivacyError>(PrivacyError::WorkerNotReady),
    {
        match self.state {
            Some(s) => Ok(s.thread_id),
            None => Err(PrivacyError::WorkerNotReady),
        }
    }
}

/// What a low-level hook does with one event.
#[derive(Clone, Copy, Debug, PartialEq, Eq, Structural)]
pub enum HookVerdict {
    /// Hand the event to the next hook (`CallNextHookEx`): it reaches its target.
    PassToNext,
    /// Swallow the event by returning a non-zero value.
    Block,
}

/// Whether an event was synthesised by the agent: it carries the marker, or
/// its flags say it was injected.
pub open spec fn is_synthetic(extra_info: usize, flags: u32) -> bool {
    extra_info == SYNTHETIC_INPUT_EXTRA_INFO || flags & (INJECTED_FLAG | LOWER_IL_INJECTED_FLAG)
        != 0
}

/// The filter both hooks apply: an event under any code but `HC_ACTION` passes,
/// a synthetic one passes, any other one is blocked.
pub open spec fn verdict_of(code: i32, extra_info: usize, flags: u32) -> HookVerdict {
    if code != HC_ACTION || is_synthetic(extra_info, flags) {
        HookVerdict::PassToNext
    } else {
        HookVerdict::Block
    }
}

impl HookVerdict {
    /// The value the hook procedure returns for a blocked event; a passed one
    /// returns what the next hook returns.
    pub fn block_code(&self) -> (r: Option<isize>)
        ensures
            *self == HookVerdict::Block ==> r == Some(1isize),
            *self == HookVerdict::PassToNext ==> r is None,
    {
        match self {
            HookVerdict::Block => Some(1),
            HookVerdict::PassToNext => None,
        }
    }
}

fn synthetic_event(extra_info: usize, flags: u32) -> (r: bool)
    ensures
        r == is_synthetic(extra_info, flags),
{
    extra_info == SYNTHETIC_INPUT_EXTRA_INFO || flags & (INJECTED_FLAG | LOWER_IL_INJECTED_FLAG)
        != 0
}

/// Decision of the low-level keyboard hook on one event.
pub fn keyboard_hook_proc(code: i32, extra_info: usize, flags: u32) -> (r: HookVerdict)
    ensures
        r == verdict_of(code, extra_info, flags),
{
    if code == HC_ACTION && !synthetic_event(extra_info, flags) {
        HookVerdict::Block
    } else {
        HookVerdict::PassToNext
    }
}

/// Decision of the low-level mouse hook on one event, and whether the cursor
/// is to be forced to none first (on every event under `HC_ACTION`).
pub fn mouse_hook_proc(code: i32, extra_info: usize, flags: u32) -> (r: (HookVerdict, bool))
    ensures
        r.0 == verdict_of(code, extra_info, flags),
        r.1 == (code == HC_ACTION),
{
    if code == HC_ACTION {
        if synthetic_event(extra_info, flags) {
            (HookVerdict::PassToNext, true)
        } else {
            (HookVerdict::Block, true)
        }
    } else {
        (HookVerdict::PassToNext, false)
    }
}

/// The extended style bits the overlay must carry.
pub open spec fn overlay_style_bits() -> u32 {
    WS_EX_LAYERED | WS_EX_TOOLWINDOW | WS_EX_TOPMOST | WS_EX_NOACTIVATE | WS_EX_TRANSPARENT
}

/// The overlay's extended style made from its current one: every bit kept,
/// and layered, tool-window, top-most, no-activate and transparent added.
pub fn overlay_ex_style(current: u32) -> (r: u32)
    ensures
        r == current | overlay_style_bits(),
        r & WS_EX_LAYERED == WS_EX_LAYERED,
        r & WS_EX_TOOLWINDOW == WS_EX_TOOLWINDOW,
        r & WS_EX_TOPMOST == WS_EX_TOPMOST,
        r & WS_EX_NOACTIVATE == WS_EX_NOACTIVATE,
        r & WS_EX_TRANSPARENT == WS_EX_TRANSPARENT,
        r & current == current,
{
    let r = current | (WS_EX_LAYERED | WS_EX_TOOLWINDOW | WS_EX_TOPMOST | WS_EX_NOACTIVATE
        | WS_EX_TRANSPARENT);
    assert(r & 0x0008_0000u32 == 0x0008_0000u32) by (bit_vector)
        requires
            r == current | (0x0008_0000u32 | 0x0000_0080u32 | 0x0000_0008u32 | 0x0800_0000u32
                | 0x0000_0020u32),
    ;
    assert(r & 0x0000_0080u32 == 0x0000_0080u32) by (bit_vector)
        requires
            r == current | (0x0008_0000u32 | 0x0000_0080u32 | 0x0000_0008u32 | 0x0800_0000u32
                | 0x0000_0020u32),
    ;
    assert(r & 0x0000_0008u32 == 0x0000_0008u32) by (bit_vector)
        requires
            r == current | (0x0008_0000u32 | 0x0000_0080u32 | 0x0000_0008u32 | 0x0800_0000u32
                | 0x0000_0020u32),
    ;
    assert(r & 0x0800_0000u32 == 0x0800_0000u32) by (bit_vector)
        requires
            r == current | (0x0008_0000u32 | 0x0000_0080u32 | 0x0000_0008u32 | 0x0800_0000u32
                | 0x0000_0020u32),
    ;
    assert(r & 0x0000_0020u32 == 0x0000_0020u32) by (bit_vector)
        requires
            r == current | (0x0008_0000u32 | 0x0000_0080u32 | 0x0000_0008u32 | 0x0800_0000u32
                | 0x0000_0020u32),
    ;
    assert(r & current == current) by (bit_vector)
        requires
            r == current | (0x0008_0000u32 | 0x0000_0080u32 | 0x0000_0008u32 | 0x0800_0000u32
                | 0x0000_0020u32),
    ;
    r
}

/// A rectangle in screen or client coordinates.
#[derive(Clone, Copy, Debug, PartialEq, Eq, Structural)]
pub struct Rect {
    pub left: i32,
    pub top: i32,
    pub right: i32,
    pub bottom: i32,
}

/// Whether the corner arithmetic on `r` stays within `i32`.
pub open spec fn corners_fit(r: Rect) -> bool {
    r.left + CORNER_SIZE <= i32::MAX && r.top + CORNER_SIZE <= i32::MAX && r.right
        - CORNER_SIZE >= i32::MIN && r.bottom - CORNER_SIZE >= i32::MIN
}

/// The four red squares of side `CORNER_SIZE` in the corners of the client
/// rectangle: top-left, top-right, bottom-left, bottom-right.
pub fn corner_squares(r: Rect) -> (c: [Rect; 4])
    requires
        corners_fit(r),
    ensures
        c@[0] == (Rect {
            left: r.left,
            top: r.top,
            right: (r.left + CORNER_SIZE) as i32,
            bottom: (r.top + CORNER_SIZE) as i32,
        }),
        c@[1] == (Rect {
            left: (r.right - CORNER_SIZE) as i32,
            top: r.top,
            right: r.right,
            bottom: (r.top + CORNER_SIZE) as i32,
        }),
        c@[2] == (Rect {
            left: r.left,
            top: (r.bottom - CORNER_SIZE) as i32,
            right: (r.left + CORNER_SIZE) as i32,
            bottom: r.bottom,
        }),
        c@[3] == (Rect {
            left: (r.right - CORNER_SIZE) as i32,
            top: (r.bottom - CORNER_SIZE) as i32,
            right: r.right,
            bottom: r.bottom,
        }),
{
    let l2 = r.left + CORNER_SIZE;
    let t2 = r.top + CORNER_SIZE;
    let r2 = r.right - CORNER_SIZE;
    let b2 = r.bottom - CORNER_SIZE;
    [
        Rect { left: r.left, top: r.top, right: l2, bottom: t2 },
        Rect { left: r2, top: r.top, right: r.right, bottom: t2 },
        Rect { left: r.left, top: b2, right: l2, bottom: r.bottom },
        Rect { left: r2, top: b2, right: r.right, bottom: r.bottom },
    ]
}

/// Flags of a `WINDOWPOSCHANGING` request on the black overlay: it may
/// neither move nor resize.
pub fn pinned_pos_flags(flags: u32) -> (r: u32)
    ensures
        r == flags | SWP_NOMOVE | SWP_NOSIZE,
{
    flags | SWP_NOMOVE | SWP_NOSIZE
}

/// Flags of a `WINDOWPOSCHANGING` request on the animated overlay, whose
/// position and size are rewritten to the virtual screen: moving and sizing
/// are let through.
pub fn full_screen_pos_flags(flags: u32) -> (r: u32)
    ensures
        r == flags & !(SWP_NOMOVE | SWP_NOSIZE),
{
    flags & !(SWP_NOMOVE | SWP_NOSIZE)
}

/// One step of OS work for the overlay worker to perform, in order.
#[derive(Clone, Copy, Debug, PartialEq, Eq, Structural)]
pub enum OverlayAction {
    /// Set or clear the DWM cloak attribute.
    Cloak(bool),
    /// Invalidate the whole client area so that it is painted again.
    Repaint,
    /// Exclude the window from capture, or include it again.
    SetCaptureExclusion(bool),
    /// Null the cursor and lower its show count below zero.
    HideCursor,
    /// Replace the common system cursors with blank ones.
    ApplyBlankSystemCursors,
    /// Start the task that re-hides the cursor every `CURSOR_ENFORCER_INTERVAL_MS`.
    StartCursorEnforcer,
    /// Start the task that keeps the window full-screen and top-most.
    StartZOrderEnforcer,
    /// Start the task that posts the animation tick.
    StartAnimationTimer,
    /// Install the keyboard and mouse low-level hooks, then report the handles.
    InstallHooks,
    /// Remove the hooks with these handles (0: none of that kind).
    RemoveHooks { keyboard: usize, mouse: usize },
    /// Reload the default system cursors.
    RestoreSystemCursors,
    /// Raise the cursor's show count to zero, load the arrow, and move the
    /// cursor to where it is so that it is drawn.
    RestoreCursor,
    /// Show the window and paint it now.
    ShowWindow,
    /// Hide the window.
    HideWindow,
    /// Destroy the window, which ends the worker's message loop.
    DestroyWindow,
}

/// The process-wide flags of one overlay back-end, with the hook handles.
#[derive(Clone, Copy, Debug, PartialEq, Eq, Structural)]
pub struct OverlayFlags {
    pub privacy_active: bool,
    pub cursor_hidden: bool,
    pub cursor_enforcer_running: bool,
    pub hooks_installed: bool,
    pub cursor_system_replaced: bool,
    pub zorder_enforcer_running: bool,
    pub keyboard_hook: usize,
    pub mouse_hook: usize,
}

/// The hooks are recorded exactly when both are installed.
pub open spec fn flags_wf(f: OverlayFlags) -> bool {
    &&& f.hooks_installed ==> f.keyboard_hook != 0 && f.mouse_hook != 0
    &&& !f.hooks_installed ==> f.keyboard_hook == 0 && f.mouse_hook == 0
}

/// Nothing of privacy mode is left: no hooks, system cursors restored, the
/// cursor shown, the window hidden, no enforcer asked to run.
pub open spec fn flags_clear(f: OverlayFlags) -> bool {
    &&& !f.privacy_active
    &&& !f.cursor_hidden
    &&& !f.cursor_enforcer_running
    &&& !f.hooks_installed
    &&& !f.cursor_system_replaced
    &&& !f.zorder_enforcer_running
    &&& f.keyboard_hook == 0
    &&& f.mouse_hook == 0
}

/// What SHOW asks of the worker from flags `f`: nothing when privacy is
/// already active; else uncloak, repaint, exclude from capture, hide the
/// cursor, blank the system cursors, start the enforcers (and, animated, the
/// z-order watchdog and frame timer), install the hooks, show the window. A
/// step whose flag is already set is left out.
pub open spec fn show_actions(f: OverlayFlags, animated: bool) -> Seq<OverlayAction> {
    if f.privacy_active {
        seq![]
    } else {
        seq![OverlayAction::Cloak(false), OverlayAction::Repaint, OverlayAction::SetCaptureExclusion(true)]
            + (if f.cursor_hidden { seq![] } else { seq![OverlayAction::HideCursor] })
            + (if f.cursor_system_replaced { seq![] } else { seq![OverlayAction::ApplyBlankSystemCursors] })
            + (if f.cursor_enforcer_running { seq![] } else { seq![OverlayAction::StartCursorEnforcer] })
            + (if animated && !f.zorder_enforcer_running { seq![OverlayAction::StartZOrderEnforcer] } else { seq![] })
            + (if animated { seq![OverlayAction::StartAnimationTimer] } else { seq![] })
            + (if f.hooks_installed { seq![] } else { seq![OverlayAction::InstallHooks] })
            + seq![OverlayAction::ShowWindow]
    }
}

/// The flags after SHOW.
pub open spec fn flags_after_show(f: OverlayFlags, animated: bool) -> OverlayFlags {
    if f.privacy_active {
        f
    } else {
        OverlayFlags {
            privacy_active: true,
            cursor_hidden: true,
            cursor_enforcer_running: true,
            cursor_system_replaced: true,
            zorder_enforcer_running: f.zorder_enforcer_running || animated,
            ..f
        }
    }
}

/// What HIDE asks of the worker from flags `f`: nothing when privacy is not
/// active; else hide, cloak, include in capture again, remove the hooks that
/// are installed, restore the system cursors if they were replaced, and show
/// the cursor.
pub open spec fn hide_actions(f: OverlayFlags) -> Seq<OverlayAction> {
    if !f.privacy_active {
        seq![]
    } else {
        seq![OverlayAction::HideWindow, OverlayAction::Cloak(true), OverlayAction::SetCaptureExclusion(false)]
            + (if f.hooks_installed {
                seq![OverlayAction::RemoveHooks { keyboard: f.keyboard_hook, mouse: f.mouse_hook }]
            } else {
                seq![]
            })
            + (if f.cursor_system_replaced { seq![OverlayAction::RestoreSystemCursors] } else { seq![] })
            + seq![OverlayAction::RestoreCursor]
    }
}

/// The flags after HIDE.
pub open spec fn flags_after_hide(f: OverlayFlags) -> OverlayFlags {
    if !f.privacy_active {
        f
    } else {
        OverlayFlags {
            privacy_active: false,
            cursor_hidden: false,
            cursor_enforcer_running: false,
            hooks_installed: false,
            cursor_system_replaced: false,
            zorder_enforcer_running: false,
            keyboard_hook: 0,
            mouse_hook: 0,
        }
    }
}

/// Flags with nothing set.
pub open spec fn cleared_flags() -> OverlayFlags {
    OverlayFlags {
        privacy_active: false,
        cursor_hidden: false,
        cursor_enforcer_running: false,
        hooks_installed: false,
        cursor_system_replaced: false,
        zorder_enforcer_running: false,
        keyboard_hook: 0,
        mouse_hook: 0,
    }
}

/// What a full teardown asks from flags `f`: remove the hooks that are
/// installed, restore the system cursors if they were replaced, show the cursor.
pub open spec fn cleanup_actions(f: OverlayFlags) -> Seq<OverlayAction> {
    (if f.hooks_installed {
        seq![OverlayAction::RemoveHooks { keyboard: f.keyboard_hook, mouse: f.mouse_hook }]
    } else {
        seq![]
    }) + (if f.cursor_system_replaced { seq![OverlayAction::RestoreSystemCursors] } else { seq![] })
        + seq![OverlayAction::RestoreCursor]
}

/// Appends `a` to `v` when `cond` holds.
fn push_if(v: &mut Vec<OverlayAction>, cond: bool, a: OverlayAction)
    ensures
        final(v)@ == old(v)@ + (if cond { seq![a] } else { seq![] }),
{
    if cond {
        v.push(a);
    }
    assert(final(v)@ =~= old(v)@ + (if cond { seq![a] } else { seq![] }));
}

impl OverlayFlags {
    /// Flags with nothing set.
    pub fn new() -> (r: Self)
        ensures
            r == cleared_flags(),
            flags_wf(r),
    {
        OverlayFlags {
            privacy_active: false,
            cursor_hidden: false,
            cursor_enforcer_running: false,
            hooks_installed: false,
            cursor_system_replaced: false,
            zorder_enforcer_running: false,
            keyboard_hook: 0,
            mouse_hook: 0,
        }
    }

    /// Handles SHOW: sets the flags and returns the steps to perform. A second
    /// SHOW while active does nothing.
    pub fn show_overlay(&mut self, animated: bool) -> (r: Vec<OverlayAction>)
        requires
            flags_wf(*old(self)),
        ensures
            r@ == show_actions(*old(self), animated),
            *final(self) == flags_after_show(*old(self), animated),
            flags_wf(*final(self)),
    {
        let f = *self;
        let mut v: Vec<OverlayAction> = Vec::new();
        if f.privacy_active {
            assert(v@ =~= show_actions(f, animated));
            return v;
        }
        self.privacy_active = true;
        v.push(OverlayAction::Cloak(false));
        v.push(OverlayAction::Repaint);
        v.push(OverlayAction::SetCaptureExclusion(true));
        push_if(&mut v, !f.cursor_hidden, OverlayAction::HideCursor);
        self.cursor_hidden = true;
        push_if(&mut v, !f.cursor_system_replaced, OverlayAction::ApplyBlankSystemCursors);
        self.cursor_system_replaced = true;
        push_if(&mut v, !f.cursor_enforcer_running, OverlayAction::StartCursorEnforcer);
        self.cursor_enforcer_running = true;
        push_if(&mut v, animated && !f.zorder_enforcer_running, OverlayAction::StartZOrderEnforcer);
        self.zorder_enforcer_running = f.zorder_enforcer_running || animated;
        push_if(&mut v, animated, OverlayAction::StartAnimationTimer);
        push_if(&mut v, !f.hooks_installed, OverlayAction::InstallHooks);
        v.push(OverlayAction::ShowWindow);
        assert(v@ =~= show_actions(f, animated));
        v
    }

    /// Takes the outcome of `InstallHooks`: the keyboard hook handle, and the
    /// mouse hook handle if the keyboard one was installed (0: the install
    /// failed, with `error`). Both installed: they are recorded. Else the
    /// keyboard hook is rolled back, the overlay is hidden again and the
    /// error is returned with the steps to perform.
    pub fn hooks_installed_result(&mut self, keyboard: usize, mouse: usize, error: u32) -> (r:
        Result<(), (PrivacyError, Vec<OverlayAction>)>)
        requires
            flags_wf(*old(self)),
            !old(self).hooks_installed,
        ensures
            flags_wf(*final(self)),
            keyboard != 0 && mouse != 0 ==> r is Ok && *final(self) == (OverlayFlags {
                hooks_installed: true,
                keyboard_hook: keyboard,
                mouse_hook: mouse,
                ..*old(self)
            }),
            keyboard == 0 || mouse == 0 ==> r is Err && r->Err_0.0 == PrivacyError::HookInstall(
                error,
            ) && r->Err_0.1@ == (if keyboard != 0 {
                seq![OverlayAction::RemoveHooks { keyboard, mouse: 0 }]
            } else {
                seq![]
            }) + hide_actions(*old(self)) && *final(self) == flags_after_hide(*old(self)),
    {
        if keyboard != 0 && mouse != 0 {
            self.hooks_installed = true;
            self.keyboard_hook = keyboard;
            self.mouse_hook = mouse;
            return Ok(());
        }
        let mut v: Vec<OverlayAction> = Vec::new();
        push_if(&mut v, keyboard != 0, OverlayAction::RemoveHooks { keyboard, mouse: 0 });
        let mut rest = self.hide_overlay();
        v.append(&mut rest);
        Err((PrivacyError::HookInstall(error), v))
    }

    /// Handles HIDE: clears the flags and returns the steps to perform. HIDE
    /// while not active does nothing.
    pub fn hide_overlay(&mut self) -> (r: Vec<OverlayAction>)
        requires
            flags_wf(*old(self)),
        ensures
            r@ == hide_actions(*old(self)),
            *final(self) == flags_after_hide(*old(self)),
            old(self).privacy_active ==> flags_clear(*final(self)),
            flags_wf(*final(self)),
    {
        let f = *self;
        let mut v: Vec<OverlayAction> = Vec::new();
        if !f.privacy_active {
            assert(v@ =~= hide_actions(f));
            return v;
        }
        v.push(OverlayAction::HideWindow);
        v.push(OverlayAction::Cloak(true));
        v.push(OverlayAction::SetCaptureExclusion(false));
        push_if(
            &mut v,
            f.hooks_installed,
            OverlayAction::RemoveHooks { keyboard: f.keyboard_hook, mouse: f.mouse_hook },
        );
        push_if(&mut v, f.cursor_system_replaced, OverlayAction::RestoreSystemCursors);
        v.push(OverlayAction::RestoreCursor);
        *self = OverlayFlags::new();
        assert(v@ =~= hide_actions(f));
        v
    }

    /// Handles SHUTDOWN: HIDE, then uncloak, include in capture, and destroy
    /// the window. Afterwards every flag is clear.
    pub fn shutdown_overlay(&mut self) -> (r: Vec<OverlayAction>)
        requires
            flags_wf(*old(self)),
        ensures
            r@ == hide_actions(*old(self)) + seq![
                OverlayAction::Cloak(false),
                OverlayAction::SetCaptureExclusion(false),
                OverlayAction::DestroyWindow,
            ],
            flags_clear(*final(self)),
            flags_wf(*final(self)),
    {
        let mut v = self.hide_overlay();
        v.push(OverlayAction::Cloak(false));
        v.push(OverlayAction::SetCaptureExclusion(false));
        v.push(OverlayAction::DestroyWindow);
        *self = OverlayFlags::new();
        v
    }

    /// Full teardown, whatever the state: removes the hooks, restores the
    /// system cursors, shows the cursor, and clears every flag.
    pub fn cleanup(&mut self) -> (r: Vec<OverlayAction>)
        requires
            flags_wf(*old(self)),
        ensures
            r@ == cleanup_actions(*old(self)),
            flags_clear(*final(self)),
            flags_wf(*final(self)),
    {
        let f = *self;
        let mut v: Vec<OverlayAction> = Vec::new();
        push_if(
            &mut v,
            f.hooks_installed,
            OverlayAction::RemoveHooks { keyboard: f.keyboard_hook, mouse: f.mouse_hook },
        );
        push_if(&mut v, f.cursor_system_replaced, OverlayAction::RestoreSystemCursors);
        v.push(OverlayAction::RestoreCursor);
        *self = OverlayFlags::new();
        assert(v@ =~= cleanup_actions(f));
        v
    }
}

/// Hiding an active overlay leaves nothing of privacy mode behind: the
/// window is hidden and cloaked, the recorded hooks are removed, replaced
/// system cursors are restored, the cursor is shown, and every flag is clear.
pub proof fn hide_leaves_nothing_behind(f: OverlayFlags)
    requires
        flags_wf(f),
        f.privacy_active,
    ensures
        flags_clear(flags_after_hide(f)),
        hide_actions(f).contains(OverlayAction::HideWindow),
        hide_actions(f).contains(OverlayAction::Cloak(true)),
        hide_actions(f).contains(OverlayAction::RestoreCursor),
        f.hooks_installed ==> hide_actions(f).contains(
            OverlayAction::RemoveHooks { keyboard: f.keyboard_hook, mouse: f.mouse_hook },
        ),
        f.cursor_system_replaced ==> hide_actions(f).contains(OverlayAction::RestoreSystemCursors),
{
    let a = hide_actions(f);
    assert(a[0] == OverlayAction::HideWindow);
    assert(a[1] == OverlayAction::Cloak(true));
    assert(a[a.len() - 1] == OverlayAction::RestoreCursor);
    if f.hooks_installed {
        assert(a[3] == OverlayAction::RemoveHooks { keyboard: f.keyboard_hook, mouse: f.mouse_hook });
    }
    if f.cursor_system_replaced {
        let k: int = if f.hooks_installed { 4 } else { 3 };
        assert(a[k] == OverlayAction::RestoreSystemCursors);
    }
}

/// A full teardown leaves nothing of privacy mode behind, whatever the
/// state: the recorded hooks are removed, replaced system cursors are
/// restored, the cursor is shown.
pub proof fn cleanup_leaves_nothing_behind(f: OverlayFlags)
    requires
        flags_wf(f),
    ensures
        cleanup_actions(f).contains(OverlayAction::RestoreCursor),
        f.hooks_installed ==> cleanup_actions(f).contains(
            OverlayAction::RemoveHooks { keyboard: f.keyboard_hook, mouse: f.mouse_hook },
        ),
        f.cursor_system_replaced ==> cleanup_actions(f).contains(
            OverlayAction::RestoreSystemCursors,
        ),
{
    let a = cleanup_actions(f);
    assert(a[a.len() - 1] == OverlayAction::RestoreCursor);
    if f.hooks_installed {
        assert(a[0] == OverlayAction::RemoveHooks { keyboard: f.keyboard_hook, mouse: f.mouse_hook });
    }
    if f.cursor_system_replaced {
        let k: int = if f.hooks_installed { 1 } else { 0 };
        assert(a[k] == OverlayAction::RestoreSystemCursors);
    }
}

/// After HIDE, or after a full teardown, SHOW brings the overlay up again
/// with its hooks: privacy mode can always be turned on once more.
pub proof fn show_after_teardown_shows_again(f: OverlayFlags, animated: bool)
    requires
        flags_wf(f),
    ensures
        show_actions(flags_after_hide(f), animated).contains(OverlayAction::ShowWindow),
        f.privacy_active ==> show_actions(flags_after_hide(f), animated).contains(
            OverlayAction::InstallHooks,
        ),
        show_actions(cleared_flags(), animated).contains(OverlayAction::ShowWindow),
        show_actions(cleared_flags(), animated).contains(OverlayAction::InstallHooks),
{
    let a = show_actions(flags_after_hide(f), animated);
    assert(a[a.len() - 1] == OverlayAction::ShowWindow);
    let c = show_actions(cleared_flags(), animated);
    assert(c[c.len() - 1] == OverlayAction::ShowWindow);
    assert(c[c.len() - 2] == OverlayAction::InstallHooks);
    if f.privacy_active {
        assert(flags_after_hide(f) == cleared_flags());
    }
}

} // verus!
