//! The dock icon follows the windows: it shows while any window of the
//! application is visible and goes away with the last one.

use vstd::prelude::*;

verus! {

/// How the application presents itself to the system.
#[derive(Clone, Copy, PartialEq, Eq, Structural, Debug)]
pub enum ActivationPolicy {
    /// An ordinary application, with an icon in the dock.
    Regular,
    /// An accessory, without an icon in the dock.
    Accessory,
}

impl ActivationPolicy {
    /// The number by which the system knows the policy.
    pub open spec fn spec_code(self) -> int {
        match self {
            ActivationPolicy::Regular => 0,
            ActivationPolicy::Accessory => 1,
        }
    }

    /// The number by which the system knows the policy.
    pub fn code(self) -> (code: i64)
        ensures
            code == self.spec_code(),
    {
        match self {
            ActivationPolicy::Regular => 0,
            ActivationPolicy::Accessory => 1,
        }
    }

    /// Whether the policy shows an icon in the dock.
    pub fn shows_icon(self) -> (shown: bool)
        ensures
            shown == (self == ActivationPolicy::Regular),
    {
        match self {
            ActivationPolicy::Regular => true,
            ActivationPolicy::Accessory => false,
        }
    }
}

/// What is known of one window.
#[derive(Clone, Copy, PartialEq, Eq, Structural, Debug)]
pub enum WindowStatus {
    /// There is no such window.
    Missing,
    /// The window exists, but it did not tell whether it is visible.
    Unknown,
    /// The window exists and is hidden.
    Hidden,
    /// The window exists and is visible.
    Visible,
}

impl WindowStatus {
    /// Whether the window counts as visible: only one that is known to be.
    pub open spec fn counts_as_visible(self) -> bool {
        self == WindowStatus::Visible
    }

    /// Tells whether the window counts as visible.
    pub fn is_visible(self) -> (visible: bool)
        ensures
            visible == self.counts_as_visible(),
    {
        match self {
            WindowStatus::Visible => true,
            _ => false,
        }
    }
}

/// The policy that shows the dock icon, or takes it away.
pub open spec fn policy_for(visible: bool) -> ActivationPolicy {
    if visible {
        ActivationPolicy::Regular
    } else {
        ActivationPolicy::Accessory
    }
}

/// Chooses the activation policy that makes the dock icon visible or not.
pub fn set_dock_icon_visible(visible: bool) -> (policy: ActivationPolicy)
    ensures
        policy == policy_for(visible),
{
    if visible {
        ActivationPolicy::Regular
    } else {
        ActivationPolicy::Accessory
    }
}

/// Chooses the activation policy from the indicator window and the
/// dashboard window: the dock icon shows exactly while one of them is
/// visible.
pub fn update_dock_icon_for_app(main: WindowStatus, dashboard: WindowStatus) -> (policy:
    ActivationPolicy)
    ensures
        policy == policy_for(main.counts_as_visible() || dashboard.counts_as_visible()),
{
    let any_window_visible = main.is_visible() || dashboard.is_visible();
    set_dock_icon_visible(any_window_visible)
}

} // verus!
