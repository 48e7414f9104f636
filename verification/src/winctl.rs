//! Showing and hiding the launcher window. The Win32 calls (ShowWindowAsync,
//! SetWindowPos, SetForegroundWindow...) are made by the caller; this type
//! keeps the visibility that the hotkey and tray threads publish, and decides
//! which native call each request needs.
//!
//! This is deliberate: while the window is hidden Windows delivers no
//! WM_PAINT, so the UI's update never runs and a request sent from a
//! background thread through the UI would never be processed.
use vstd::prelude::*;

verus! {

/// How long after a show request the window is still being activated.
pub const ACTIVATION_MS: u64 = 750;

/// The native call a request needs.
#[derive(PartialEq, Eq, Debug, Clone, Copy)]
pub enum NativeCall {
    /// Nothing to do (no window yet).
    Nothing,
    /// Show the window, put it on top and give it the focus.
    Show,
    /// Hide the window.
    Hide,
}

pub struct WindowCtl {
    hwnd: isize,
    visible: bool,
    /// When the last show request came (milliseconds on a monotonic clock),
    /// until the window is hidden.
    activation: Option<u64>,
}

/// A request that changes the window's visibility.
pub enum Request {
    /// Show request at the given time.
    Show(u64),
    /// Hide request.
    Hide,
    /// Toggle request at the given time.
    Toggle(u64),
}

impl WindowCtl {
    pub closed spec fn handle(&self) -> isize {
        self.hwnd
    }

    pub closed spec fn shown(&self) -> bool {
        self.visible
    }

    pub closed spec fn activated_at(&self) -> Option<u64> {
        self.activation
    }

    /// An activation is only under way while the window counts as visible.
    #[verifier::type_invariant]
    closed spec fn activation_only_while_shown(self) -> bool {
        self.activation is Some ==> self.visible
    }

    /// Activation is in progress at time `now`: a show request came less than
    /// `ACTIVATION_MS` ago (and the window was not hidden since).
    pub open spec fn activating_at(&self, now: u64) -> bool {
        self.activated_at() matches Some(at) && now >= at && now - at < ACTIVATION_MS
    }

    /// The controller after `req`: without a window nothing changes; a show
    /// makes the window visible with an activation starting at its time; a
    /// hide makes it hidden with no activation; a toggle hides a visible
    /// window and shows a hidden one.
    pub open spec fn after(self, req: Request) -> (Self, NativeCall) {
        (
            WindowCtl::spec_after(self, req),
            if self.handle() == 0 {
                NativeCall::Nothing
            } else {
                match req {
                    Request::Show(_) => NativeCall::Show,
                    Request::Hide => NativeCall::Hide,
                    Request::Toggle(_) => if self.shown() {
                        NativeCall::Hide
                    } else {
                        NativeCall::Show
                    },
                }
            },
        )
    }

    /// The new state after `req` (see `after`).
    pub closed spec fn spec_after(self, req: Request) -> Self {
        if self.hwnd == 0 {
            self
        } else {
            match req {
                Request::Show(t) => WindowCtl { hwnd: self.hwnd, visible: true, activation: Some(t) },
                Request::Hide => WindowCtl { hwnd: self.hwnd, visible: false, activation: None },
                Request::Toggle(t) => if self.visible {
                    WindowCtl { hwnd: self.hwnd, visible: false, activation: None }
                } else {
                    WindowCtl { hwnd: self.hwnd, visible: true, activation: Some(t) }
                },
            }
        }
    }

    /// What `spec_after` does, told through the controller's views.
    pub broadcast proof fn lemma_after(self, req: Request)
        ensures
            #![trigger WindowCtl::spec_after(self, req)]
            WindowCtl::spec_after(self, req).handle() == self.handle(),
            self.handle() == 0 ==> WindowCtl::spec_after(self, req) == self,
            self.handle() != 0 ==> match req {
                Request::Show(t) => WindowCtl::spec_after(self, req).shown() && WindowCtl::spec_after(
                    self,
                    req,
                ).activated_at() == Some(t),
                Request::Hide => !WindowCtl::spec_after(self, req).shown() && WindowCtl::spec_after(
                    self,
                    req,
                ).activated_at() is None,
                Request::Toggle(t) => if self.shown() {
                    !WindowCtl::spec_after(self, req).shown() && WindowCtl::spec_after(self, req).activated_at() is None
                } else {
                    WindowCtl::spec_after(self, req).shown() && WindowCtl::spec_after(self, req).activated_at()
                        == Some(t)
                },
            },
            (self.activated_at() is Some ==> self.shown()) ==> (WindowCtl::spec_after(self, req).activated_at() is Some
                ==> WindowCtl::spec_after(self, req).shown()),
    {
    }

    /// A controller for window `hwnd` (0: no window), initially `visible` or not.
    pub fn new(hwnd: isize, visible: bool) -> (r: Self)
        ensures
            r.handle() == hwnd,
            r.shown() == visible,
            r.activated_at() is None,
    {
        WindowCtl { hwnd, visible, activation: None }
    }

    pub fn is_visible(&self) -> (r: bool)
        ensures
            r == self.shown(),
    {
        self.visible
    }

    /// Show request at time `now`: publishes the intent before Windows can
    /// deliver paint/focus messages, then the window must be shown.
    pub fn show(&mut self, now: u64) -> (r: NativeCall)
        ensures
            (*final(self), r) == old(self).after(Request::Show(now)),
            old(self).handle() == 0 ==> r == NativeCall::Nothing && *final(self) == *old(self),
            old(self).handle() != 0 ==> r == NativeCall::Show && final(self).shown() && final(self).activated_at()
                == Some(now) && final(self).handle() == old(self).handle(),
    {
        if self.hwnd == 0 {
            return NativeCall::Nothing;
        }
        *self = WindowCtl { hwnd: self.hwnd, visible: true, activation: Some(now) };
        NativeCall::Show
    }

    /// Whether the window is still being activated at time `now` (which is
    /// only ever so while it counts as visible).
    pub fn is_activating(&self, now: u64) -> (r: bool)
        ensures
            r == self.activating_at(now),
            r ==> self.shown(),
    {
        proof {
            use_type_invariant(self);
        }
        match self.activation {
            Some(at) => now >= at && now - at < ACTIVATION_MS,
            None => false,
        }
    }

    /// Whether a pending show must be repeated at time `now`, given what
    /// Windows reports of the window: it is meant to be visible and is still
    /// being activated, but it is not visible, is minimized, or is not in the
    /// foreground.
    pub fn retry_show(&self, now: u64, window_visible: bool, iconic: bool, foreground: bool) -> (r: bool)
        ensures
            r == (self.shown() && self.activating_at(now) && self.handle() != 0 && (!window_visible || iconic
                || !foreground)),
    {
        if !self.visible || !self.is_activating(now) {
            return false;
        }
        if self.hwnd == 0 {
            return false;
        }
        !window_visible || iconic || !foreground
    }

    /// Hide request.
    pub fn hide_window(&mut self) -> (r: NativeCall)
        ensures
            (*final(self), r) == old(self).after(Request::Hide),
            old(self).handle() == 0 ==> r == NativeCall::Nothing && *final(self) == *old(self),
            old(self).handle() != 0 ==> r == NativeCall::Hide && !final(self).shown() && final(self).activated_at() is None
                && final(self).handle() == old(self).handle(),
    {
        if self.hwnd == 0 {
            return NativeCall::Nothing;
        }
        *self = WindowCtl { hwnd: self.hwnd, visible: false, activation: None };
        NativeCall::Hide
    }

    /// Whether the window must be hidden again because Windows shows it while
    /// we consider it hidden (eframe makes the window visible itself after the
    /// first frame, even for a `--hidden` start).
    pub fn enforce_hidden(&self, window_visible: bool) -> (r: bool)
        ensures
            r == (!self.shown() && self.handle() != 0 && window_visible),
    {
        if self.visible {
            return false;
        }
        if self.hwnd == 0 {
            return false;
        }
        window_visible
    }

    /// Toggle request at time `now`: hide when visible, else show.
    pub fn toggle(&mut self, now: u64) -> (r: NativeCall)
        ensures
            (*final(self), r) == old(self).after(Request::Toggle(now)),
            final(self).handle() == old(self).handle(),
            old(self).handle() == 0 ==> r == NativeCall::Nothing && *final(self) == *old(self),
            old(self).handle() != 0 && old(self).shown() ==> r == NativeCall::Hide && !final(self).shown()
                && final(self).activated_at() is None,
            old(self).handle() != 0 && !old(self).shown() ==> r == NativeCall::Show && final(self).shown()
                && final(self).activated_at() == Some(now),
    {
        if self.is_visible() {
            self.hide_window()
        } else {
            self.show(now)
        }
    }
}

/// The controller after the requests `reqs`, in order.
pub open spec fn replay(c: WindowCtl, reqs: Seq<Request>) -> WindowCtl
    decreases reqs.len(),
{
    if reqs.len() == 0 {
        c
    } else {
        replay(c, reqs.drop_last()).after(reqs.last()).0
    }
}

/// Toggling twice returns the window to the visibility it had; a toggle of a
/// real window flips its visibility, shows it as being activated when it
/// becomes visible and ends any activation when it becomes hidden.
pub proof fn law_toggle_twice_restores(s: WindowCtl, t1: u64, t2: u64)
    ensures
        s.after(Request::Toggle(t1)).0.after(Request::Toggle(t2)).0.shown() == s.shown(),
        s.handle() != 0 ==> s.after(Request::Toggle(t1)).0.shown() == !s.shown(),
        s.handle() != 0 && !s.shown() ==> s.after(Request::Toggle(t1)).0.activating_at(t1),
        s.handle() != 0 && s.shown() ==> s.after(Request::Toggle(t1)).0.activated_at() is None,
        s.handle() == 0 ==> s.after(Request::Toggle(t1)).0 == s,
{
    broadcast use WindowCtl::lemma_after;
}

/// The activation window over any sequence of requests, for a real window
/// starting with no activation (as `new` makes it): every request either
/// starts an activation (a show, or a toggle of a hidden window) or ends one
/// (a hide, or a toggle of a visible window). So the window is being activated
/// at `now` exactly when the last request started an activation at a time `t`
/// with `now - t` under `ACTIVATION_MS` (never before any request, never right
/// after a hide), and only while it counts as visible.
pub proof fn law_activation_window(c: WindowCtl, reqs: Seq<Request>, now: u64)
    requires
        c.handle() != 0,
        c.activated_at() is None,
    ensures
        replay(c, reqs).activating_at(now) == (reqs.len() > 0 && match reqs.last() {
            Request::Show(t) => now >= t && now - t < ACTIVATION_MS,
            Request::Hide => false,
            Request::Toggle(t) => !replay(c, reqs.drop_last()).shown() && now >= t && now - t < ACTIVATION_MS,
        }),
        replay(c, reqs).activating_at(now) ==> replay(c, reqs).shown(),
{
    broadcast use WindowCtl::lemma_after;
    lemma_replay_keeps(c, reqs);
    if reqs.len() > 0 {
        lemma_replay_keeps(c, reqs.drop_last());
    }
}

/// Requests keep the window and the rule that an activation is only under
/// way while the window is visible.
proof fn lemma_replay_keeps(c: WindowCtl, reqs: Seq<Request>)
    requires
        c.activated_at() is Some ==> c.shown(),
    ensures
        replay(c, reqs).handle() == c.handle(),
        replay(c, reqs).activated_at() is Some ==> replay(c, reqs).shown(),
    decreases reqs.len(),
{
    broadcast use WindowCtl::lemma_after;
    if reqs.len() > 0 {
        lemma_replay_keeps(c, reqs.drop_last());
    }
}

} // verus!
