//! Deciding whether a Linux GUI launch should check its Wayland session first,
//! whether the advertised Wayland globals are good enough, and what to do when
//! they are not.
use vstd::prelude::*;
use crate::text::{
    ascii_lower, chars_of, contains, contains_seq, owned, push_str, str_eq, to_ascii_lower,
    u32_to_decimal, decimal,
};

verus! {

/// Lowest `wl_compositor` version the GUI works with.
pub const WL_COMPOSITOR_MIN_VERSION: u32 = 3;

/// Lowest `wl_shm` version the GUI works with.
pub const WL_SHM_MIN_VERSION: u32 = 1;

/// Lowest `wl_seat` version the GUI works with.
pub const WL_SEAT_MIN_VERSION: u32 = 5;

/// Lowest `wl_output` version the GUI works with.
pub const WL_OUTPUT_MIN_VERSION: u32 = 2;

/// Lowest `xdg_wm_base` version the GUI works with.
pub const XDG_WM_BASE_MIN_VERSION: u32 = 1;

/// Set on the relaunched process so that it does not relaunch again.
pub const LINUX_X11_RELAUNCH_ENV: &'static str = "GITCOMET_SKIP_LINUX_X11_RELAUNCH";

/// When set, a broken Wayland session is never replaced by X11.
pub const LINUX_X11_FALLBACK_DISABLE_ENV: &'static str = "GITCOMET_DISABLE_LINUX_X11_FALLBACK";

/// What the launching process knows about its graphical session.
#[derive(Clone, Copy, Debug, PartialEq, Eq, Structural)]
pub struct LinuxGuiLaunchEnvironment {
    pub is_wsl: bool,
    pub has_wayland_display: bool,
    pub has_x11_display: bool,
    pub skip_x11_relaunch: bool,
    pub disable_x11_fallback: bool,
}

/// What to do once the Wayland session turned out to be unusable.
#[derive(Clone, Copy, Debug, PartialEq, Eq, Structural)]
pub enum LinuxWaylandFallbackAction {
    RelaunchUnderX11,
    ExitWithError,
}

impl Default for LinuxGuiLaunchEnvironment {
    fn default() -> (r: Self)
        ensures
            !r.is_wsl && !r.has_wayland_display && !r.has_x11_display && !r.skip_x11_relaunch
                && !r.disable_x11_fallback,
    {
        LinuxGuiLaunchEnvironment {
            is_wsl: false,
            has_wayland_display: false,
            has_x11_display: false,
            skip_x11_relaunch: false,
            disable_x11_fallback: false,
        }
    }
}

/// Whether a launch in `env` checks its Wayland session before starting the GUI.
pub open spec fn should_preflight_spec(env: LinuxGuiLaunchEnvironment, mode_uses_gpui: bool) -> bool {
    mode_uses_gpui && env.has_wayland_display && !env.skip_x11_relaunch && !env.disable_x11_fallback
}

impl LinuxGuiLaunchEnvironment {
    /// An environment made of the given observations.
    pub fn from_sources(
        is_wsl: bool,
        has_wayland_display: bool,
        has_x11_display: bool,
        skip_x11_relaunch: bool,
        disable_x11_fallback: bool,
    ) -> (r: Self)
        ensures
            r.is_wsl == is_wsl,
            r.has_wayland_display == has_wayland_display,
            r.has_x11_display == has_x11_display,
            r.skip_x11_relaunch == skip_x11_relaunch,
            r.disable_x11_fallback == disable_x11_fallback,
    {
        LinuxGuiLaunchEnvironment {
            is_wsl,
            has_wayland_display,
            has_x11_display,
            skip_x11_relaunch,
            disable_x11_fallback,
        }
    }

    /// The environment as the process's variables and kernel release describe it:
    /// whether `WSL_DISTRO_NAME`, `WSL_INTEROP`, `WAYLAND_DISPLAY` and `DISPLAY` are
    /// set and non-empty, the kernel's release text where it could be read, and
    /// whether the relaunch and fallback-disable variables are present.
    pub fn from_probes(
        wsl_distro_name_set: bool,
        wsl_interop_set: bool,
        osrelease: Option<&str>,
        wayland_display_set: bool,
        x11_display_set: bool,
        relaunch_marker_present: bool,
        fallback_disable_present: bool,
    ) -> (r: Self)
        ensures
            r.is_wsl == detect_is_wsl_spec(wsl_distro_name_set, wsl_interop_set, osrelease),
            r.has_wayland_display == wayland_display_set,
            r.has_x11_display == x11_display_set,
            r.skip_x11_relaunch == relaunch_marker_present,
            r.disable_x11_fallback == fallback_disable_present,
    {
        LinuxGuiLaunchEnvironment {
            is_wsl: detect_is_wsl(wsl_distro_name_set, wsl_interop_set, osrelease),
            has_wayland_display: wayland_display_set,
            has_x11_display: x11_display_set,
            skip_x11_relaunch: relaunch_marker_present,
            disable_x11_fallback: fallback_disable_present,
        }
    }

    /// Whether to check the Wayland session before starting the GUI: only for
    /// modes that open a window, in a Wayland session, and when neither a
    /// relaunch is under way nor the fallback is switched off.
    pub fn should_preflight_wayland(self, mode_uses_gpui: bool) -> (r: bool)
        ensures
            r == should_preflight_spec(self, mode_uses_gpui),
    {
        mode_uses_gpui && self.has_wayland_display && !self.skip_x11_relaunch
            && !self.disable_x11_fallback
    }

    /// After a failed check: relaunch under X11 when a display is there, else give up.
    pub fn fallback_action_after_failed_wayland_preflight(self) -> (r: LinuxWaylandFallbackAction)
        ensures
            r == (if self.has_x11_display {
                LinuxWaylandFallbackAction::RelaunchUnderX11
            } else {
                LinuxWaylandFallbackAction::ExitWithError
            }),
    {
        if self.has_x11_display {
            LinuxWaylandFallbackAction::RelaunchUnderX11
        } else {
            LinuxWaylandFallbackAction::ExitWithError
        }
    }
}

/// Whether the kernel release names Microsoft, in any letter case.
pub open spec fn mentions_microsoft_spec(osrelease: Option<&str>) -> bool {
    match osrelease {
        Some(s) => contains_seq(ascii_lower(s@), "microsoft"@),
        None => false,
    }
}

/// Whether the process runs under WSL.
pub open spec fn detect_is_wsl_spec(
    has_wsl_distro_name: bool,
    has_wsl_interop: bool,
    osrelease: Option<&str>,
) -> bool {
    has_wsl_distro_name || has_wsl_interop || mentions_microsoft_spec(osrelease)
}

/// Whether the kernel release text mentions `microsoft` (ASCII case ignored).
pub fn osrelease_mentions_microsoft(osrelease: Option<&str>) -> (r: bool)
    ensures
        r == mentions_microsoft_spec(osrelease),
{
    match osrelease {
        Some(s) => {
            let chars = chars_of(s);
            let lower = to_ascii_lower(chars.as_slice());
            let needle = chars_of("microsoft");
            contains(lower.as_slice(), needle.as_slice())
        },
        None => false,
    }
}

/// WSL is recognised by its environment variables or by the kernel release.
pub fn detect_is_wsl(has_wsl_distro_name: bool, has_wsl_interop: bool, osrelease: Option<&str>) -> (r:
    bool)
    ensures
        r == detect_is_wsl_spec(has_wsl_distro_name, has_wsl_interop, osrelease),
{
    has_wsl_distro_name || has_wsl_interop || osrelease_mentions_microsoft(osrelease)
}

/// One global that the Wayland compositor advertised.
#[derive(Clone, Debug, PartialEq, Eq)]
pub struct WaylandAdvertisedGlobal {
    pub interface: String,
    pub version: u32,
}

/// Why the Wayland session cannot be used.
#[derive(Clone, Debug, PartialEq, Eq)]
pub enum WaylandPreflightError {
    Connection(String),
    Registry(String),
    MissingGlobal { interface: &'static str, required_version: u32 },
    UnsupportedVersion { interface: &'static str, required_version: u32, advertised_version: u32 },
}

/// The text shown for a preflight error.
pub open spec fn preflight_error_message(e: WaylandPreflightError) -> Seq<char> {
    match e {
        WaylandPreflightError::Connection(err) => "failed to connect to the advertised Wayland compositor: "@
            + err@,
        WaylandPreflightError::Registry(err) => "failed to read the Wayland global registry: "@ + err@,
        WaylandPreflightError::MissingGlobal { interface, required_version } => "required Wayland global `"@
            + interface@ + "` was not advertised (need version "@ + decimal(required_version as nat)
            + "+)"@,
        WaylandPreflightError::UnsupportedVersion {
            interface,
            required_version,
            advertised_version,
        } => "Wayland global `"@ + interface@ + "` was advertised at version "@ + decimal(
            advertised_version as nat,
        ) + ", but GitComet requires version "@ + decimal(required_version as nat) + "+"@,
    }
}

impl WaylandPreflightError {
    /// The text shown for this error.
    pub fn message(&self) -> (r: String)
        ensures
            r@ == preflight_error_message(*self),
    {
        match self {
            WaylandPreflightError::Connection(err) => {
                let mut s = owned("failed to connect to the advertised Wayland compositor: ");
                push_str(&mut s, err.as_str());
                s
            },
            WaylandPreflightError::Registry(err) => {
                let mut s = owned("failed to read the Wayland global registry: ");
                push_str(&mut s, err.as_str());
                s
            },
            WaylandPreflightError::MissingGlobal { interface, required_version } => {
                let mut s = owned("required Wayland global `");
                push_str(&mut s, interface);
                push_str(&mut s, "` was not advertised (need version ");
                let n = u32_to_decimal(*required_version);
                push_str(&mut s, n.as_str());
                push_str(&mut s, "+)");
                s
            },
            WaylandPreflightError::UnsupportedVersion {
                interface,
                required_version,
                advertised_version,
            } => {
                let mut s = owned("Wayland global `");
                push_str(&mut s, interface);
                push_str(&mut s, "` was advertised at version ");
                let a = u32_to_decimal(*advertised_version);
                push_str(&mut s, a.as_str());
                push_str(&mut s, ", but GitComet requires version ");
                let n = u32_to_decimal(*required_version);
                push_str(&mut s, n.as_str());
                push_str(&mut s, "+");
                s
            },
        }
    }
}

/// Whether entry `i` of `globals` advertises `interface`.
pub open spec fn advertises(globals: Seq<WaylandAdvertisedGlobal>, interface: Seq<char>, i: int) -> bool {
    0 <= i < globals.len() && globals[i].interface@ == interface
}

/// The highest version at which `globals` advertise `interface`, if any.
pub open spec fn highest_advertised(globals: Seq<WaylandAdvertisedGlobal>, interface: Seq<char>) -> Option<
    u32,
>
    decreases globals.len(),
{
    if globals.len() == 0 {
        None
    } else {
        let rest = highest_advertised(globals.drop_last(), interface);
        let g = globals.last();
        if g.interface@ == interface {
            match rest {
                Some(m) => Some(if g.version > m { g.version } else { m }),
                None => Some(g.version),
            }
        } else {
            rest
        }
    }
}

/// The highest advertised version of an interface is one of its advertised
/// versions and no advertised version is higher; there is none exactly when
/// the interface is not advertised.
pub proof fn lemma_highest_advertised_is_maximum(
    globals: Seq<WaylandAdvertisedGlobal>,
    interface: Seq<char>,
)
    ensures
        highest_advertised(globals, interface) is None <==> !(exists|i: int|
            advertises(globals, interface, i)),
        highest_advertised(globals, interface) matches Some(v) ==> (exists|i: int|
            advertises(globals, interface, i) && globals[i].version == v),
        highest_advertised(globals, interface) matches Some(v) ==> (forall|j: int|
            advertises(globals, interface, j) ==> globals[j].version <= v),
    decreases globals.len(),
{
    if globals.len() > 0 {
        let rest = globals.drop_last();
        lemma_highest_advertised_is_maximum(rest, interface);
        let n = globals.len() - 1;
        assert forall|j: int| advertises(rest, interface, j) <==> (0 <= j < n && advertises(
            globals,
            interface,
            j,
        )) by {}
        if highest_advertised(globals, interface) is None {
            assert forall|i: int| !advertises(globals, interface, i) by {
                if advertises(globals, interface, i) && i < n {
                    assert(advertises(rest, interface, i));
                }
            }
        } else {
            let v = highest_advertised(globals, interface)->0;
            if globals.last().interface@ == interface {
                assert(advertises(globals, interface, n));
                if highest_advertised(rest, interface) is Some {
                    let m = highest_advertised(rest, interface)->0;
                    let i = choose|i: int| advertises(rest, interface, i) && rest[i].version == m;
                    if v != globals[n].version {
                        assert(advertises(globals, interface, i) && globals[i].version == v);
                    }
                }
            } else {
                let i = choose|i: int| advertises(rest, interface, i) && rest[i].version == v;
                assert(advertises(globals, interface, i) && globals[i].version == v);
            }
            assert forall|j: int| advertises(globals, interface, j) implies globals[j].version <= v by {
                if j < n {
                    assert(advertises(rest, interface, j));
                }
            }
        }
    }
}

/// What checking one required global gives: its highest advertised version,
/// or the reason it falls short.
pub open spec fn required_global_result(
    globals: Seq<WaylandAdvertisedGlobal>,
    interface: &'static str,
    required_version: u32,
) -> Result<u32, WaylandPreflightError> {
    match highest_advertised(globals, interface@) {
        None => Err(WaylandPreflightError::MissingGlobal { interface, required_version }),
        Some(v) => if v < required_version {
            Err(
                WaylandPreflightError::UnsupportedVersion {
                    interface,
                    required_version,
                    advertised_version: v,
                },
            )
        } else {
            Ok(v)
        },
    }
}

/// Checks that `interface` is advertised at `required_version` or higher,
/// judging by its highest advertised version, which it returns.
pub fn require_wayland_global(
    globals: &[WaylandAdvertisedGlobal],
    interface: &'static str,
    required_version: u32,
) -> (r: Result<u32, WaylandPreflightError>)
    ensures
        r == required_global_result(globals@, interface, required_version),
{
    let mut best: Option<u32> = None;
    let mut i: usize = 0;
    while i < globals.len()
        invariant
            i <= globals@.len(),
            best == highest_advertised(globals@.subrange(0, i as int), interface@),
        decreases globals.len() - i,
    {
        let g = &globals[i];
        proof {
            assert(globals@.subrange(0, i + 1).drop_last() =~= globals@.subrange(0, i as int));
        }
        if str_eq(g.interface.as_str(), interface) {
            best = match best {
                Some(m) => Some(if g.version > m { g.version } else { m }),
                None => Some(g.version),
            };
        }
        i = i + 1;
    }
    proof {
        assert(globals@.subrange(0, globals@.len() as int) =~= globals@);
    }
    match best {
        None => Err(WaylandPreflightError::MissingGlobal { interface, required_version }),
        Some(v) => if v < required_version {
            Err(
                WaylandPreflightError::UnsupportedVersion {
                    interface,
                    required_version,
                    advertised_version: v,
                },
            )
        } else {
            Ok(v)
        },
    }
}

/// The version of the first advertisement of `interface` in `globals` that is
/// older than `required_version`, if any.
pub open spec fn first_too_old(
    globals: Seq<WaylandAdvertisedGlobal>,
    interface: Seq<char>,
    required_version: u32,
) -> Option<u32>
    decreases globals.len(),
{
    if globals.len() == 0 {
        None
    } else {
        match first_too_old(globals.drop_last(), interface, required_version) {
            Some(v) => Some(v),
            None => if globals.last().interface@ == interface && globals.last().version
                < required_version {
                Some(globals.last().version)
            } else {
                None
            },
        }
    }
}

/// What checking every advertisement of an interface gives.
pub open spec fn all_globals_result(
    globals: Seq<WaylandAdvertisedGlobal>,
    interface: &'static str,
    required_version: u32,
) -> Result<(), WaylandPreflightError> {
    match first_too_old(globals, interface@, required_version) {
        None => Ok(()),
        Some(v) => Err(
            WaylandPreflightError::UnsupportedVersion {
                interface,
                required_version,
                advertised_version: v,
            },
        ),
    }
}

/// There is no advertisement that is too old exactly when every advertisement
/// of the interface is at the required version or higher.
pub proof fn lemma_first_too_old_none(
    globals: Seq<WaylandAdvertisedGlobal>,
    interface: Seq<char>,
    required_version: u32,
)
    ensures
        first_too_old(globals, interface, required_version) is None <==> (forall|i: int|
            advertises(globals, interface, i) ==> globals[i].version >= required_version),
    decreases globals.len(),
{
    if globals.len() > 0 {
        let rest = globals.drop_last();
        lemma_first_too_old_none(rest, interface, required_version);
        let n = globals.len() - 1;
        if first_too_old(globals, interface, required_version) is None {
            assert forall|i: int| advertises(globals, interface, i) implies globals[i].version
                >= required_version by {
                if i < n {
                    assert(advertises(rest, interface, i));
                }
            }
        } else if first_too_old(rest, interface, required_version) is Some {
            let i = choose|i: int|
                !(advertises(rest, interface, i) ==> rest[i].version >= required_version);
            assert(advertises(globals, interface, i));
        } else {
            assert(advertises(globals, interface, n));
        }
    }
}

/// Checks that every advertisement of `interface` has at least `required_version`;
/// an interface that is not advertised passes.
pub fn require_all_wayland_globals_at_least(
    globals: &[WaylandAdvertisedGlobal],
    interface: &'static str,
    required_version: u32,
) -> (r: Result<(), WaylandPreflightError>)
    ensures
        r == all_globals_result(globals@, interface, required_version),
{
    let mut i: usize = 0;
    while i < globals.len()
        invariant
            i <= globals@.len(),
            first_too_old(globals@.subrange(0, i as int), interface@, required_version) is None,
        decreases globals.len() - i,
    {
        let g = &globals[i];
        proof {
            assert(globals@.subrange(0, i + 1).drop_last() =~= globals@.subrange(0, i as int));
        }
        if str_eq(g.interface.as_str(), interface) && g.version < required_version {
            proof {
                lemma_first_too_old_prefix(globals@, interface@, required_version, i + 1);
            }
            return Err(
                WaylandPreflightError::UnsupportedVersion {
                    interface,
                    required_version,
                    advertised_version: g.version,
                },
            );
        }
        i = i + 1;
    }
    proof {
        assert(globals@.subrange(0, globals@.len() as int) =~= globals@);
    }
    Ok(())
}

/// Once a prefix has a too-old advertisement, the whole sequence reports the same one.
proof fn lemma_first_too_old_prefix(
    globals: Seq<WaylandAdvertisedGlobal>,
    interface: Seq<char>,
    required_version: u32,
    k: int,
)
    requires
        0 <= k <= globals.len(),
        first_too_old(globals.subrange(0, k), interface, required_version) is Some,
    ensures
        first_too_old(globals, interface, required_version) == first_too_old(
            globals.subrange(0, k),
            interface,
            required_version,
        ),
    decreases globals.len() - k,
{
    if k < globals.len() {
        assert(globals.subrange(0, k + 1).drop_last() =~= globals.subrange(0, k));
        lemma_first_too_old_prefix(globals, interface, required_version, k + 1);
    } else {
        assert(globals.subrange(0, k) =~= globals);
    }
}

/// What checking all globals the GUI needs gives, in the order they are checked.
pub open spec fn validation_result(globals: Seq<WaylandAdvertisedGlobal>) -> Result<
    (),
    WaylandPreflightError,
> {
    match required_global_result(globals, "wl_compositor", WL_COMPOSITOR_MIN_VERSION) {
        Err(e) => Err(e),
        Ok(_) => match required_global_result(globals, "wl_shm", WL_SHM_MIN_VERSION) {
            Err(e) => Err(e),
            Ok(_) => match required_global_result(globals, "wl_seat", WL_SEAT_MIN_VERSION) {
                Err(e) => Err(e),
                Ok(_) => match required_global_result(
                    globals,
                    "xdg_wm_base",
                    XDG_WM_BASE_MIN_VERSION,
                ) {
                    Err(e) => Err(e),
                    Ok(_) => all_globals_result(globals, "wl_output", WL_OUTPUT_MIN_VERSION),
                },
            },
        },
    }
}

/// Checks the advertised globals: `wl_compositor`, `wl_shm`, `wl_seat` and
/// `xdg_wm_base` must be there in a recent enough version, and every
/// `wl_output` that is there must be recent enough. The first failure is reported.
pub fn validate_wayland_advertised_globals(globals: &[WaylandAdvertisedGlobal]) -> (r: Result<
    (),
    WaylandPreflightError,
>)
    ensures
        r == validation_result(globals@),
{
    match require_wayland_global(globals, "wl_compositor", WL_COMPOSITOR_MIN_VERSION) {
        Err(e) => return Err(e),
        Ok(_) => {},
    }
    match require_wayland_global(globals, "wl_shm", WL_SHM_MIN_VERSION) {
        Err(e) => return Err(e),
        Ok(_) => {},
    }
    match require_wayland_global(globals, "wl_seat", WL_SEAT_MIN_VERSION) {
        Err(e) => return Err(e),
        Ok(_) => {},
    }
    match require_wayland_global(globals, "xdg_wm_base", XDG_WM_BASE_MIN_VERSION) {
        Err(e) => return Err(e),
        Ok(_) => {},
    }
    require_all_wayland_globals_at_least(globals, "wl_output", WL_OUTPUT_MIN_VERSION)
}

/// The next step of a GUI launch on Linux, once the Wayland check has or has not run.
#[derive(Clone, Copy, Debug, PartialEq, Eq, Structural)]
pub enum WaylandLaunchStep {
    /// Start the GUI in this process.
    Proceed,
    /// Report the error and exit.
    ExitWithError,
    /// Start a new process under X11 and exit with its launch status.
    RelaunchUnderX11,
}

/// The step after the Wayland check: a passed check, or no check, proceeds;
/// a failed one falls back as the environment allows.
pub open spec fn launch_step_spec(
    env: LinuxGuiLaunchEnvironment,
    mode_uses_gpui: bool,
    preflight_passed: bool,
) -> WaylandLaunchStep {
    if !should_preflight_spec(env, mode_uses_gpui) || preflight_passed {
        WaylandLaunchStep::Proceed
    } else if env.has_x11_display {
        WaylandLaunchStep::RelaunchUnderX11
    } else {
        WaylandLaunchStep::ExitWithError
    }
}

/// Decides the launch step from the environment, the mode and the outcome of
/// the Wayland check (ignored when no check is due).
pub fn launch_step_after_preflight(
    env: LinuxGuiLaunchEnvironment,
    mode_uses_gpui: bool,
    preflight_passed: bool,
) -> (r: WaylandLaunchStep)
    ensures
        r == launch_step_spec(env, mode_uses_gpui, preflight_passed),
{
    if !env.should_preflight_wayland(mode_uses_gpui) || preflight_passed {
        return WaylandLaunchStep::Proceed;
    }
    match env.fallback_action_after_failed_wayland_preflight() {
        LinuxWaylandFallbackAction::RelaunchUnderX11 => WaylandLaunchStep::RelaunchUnderX11,
        LinuxWaylandFallbackAction::ExitWithError => WaylandLaunchStep::ExitWithError,
    }
}

/// The line printed when the Wayland session is not usable.
pub fn preflight_failure_notice(err: &WaylandPreflightError) -> (r: String)
    ensures
        r@ == "Wayland session detected, but it is not usable for GitComet: "@
            + preflight_error_message(*err),
{
    let mut s = owned("Wayland session detected, but it is not usable for GitComet: ");
    let m = err.message();
    push_str(&mut s, m.as_str());
    s
}

} // verus!
