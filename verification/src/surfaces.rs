//! The monitor-surface locator's decision core. The driver enumerates
//! windows and monitors through the OS; the functions here decide, from
//! those plain enumeration results, which window is the shared hosting
//! container, how each per-monitor surface must be sized and positioned,
//! and which of the three locator errors holds. The hosting container is
//! spawned by an undocumented, unacknowledged request to the desktop
//! manager, so the driver must enumerate after the request rather than
//! trust synchronous completion — which is why discovery works on a scan
//! list taken afterward.

use vstd::prelude::*;

verus! {

/// Why no rendering surface could be produced.
#[derive(Clone, Copy, PartialEq, Eq, Structural, Debug)]
pub enum LocatorError {
    /// The desktop manager's root container window was not found.
    NoDesktopHost,
    /// No enumerated window had the icon container beside the spawned
    /// hosting container.
    HostNotFound,
    /// Every per-monitor surface failed to be created.
    NoSurfacesCreated,
}

/// What the driver reports of one enumerated top-level window: its
/// handle, whether the desktop-icon container is among its children, and
/// the handle of the hosting-container window found beside it (zero when
/// none was).
#[derive(Clone, Copy, PartialEq, Eq, Structural, Debug)]
pub struct WindowScan {
    pub window: u64,
    pub has_icon_container: bool,
    pub worker_sibling: u64,
}

/// One monitor's bounding rectangle, as the OS reports it.
#[derive(Clone, Copy, PartialEq, Eq, Structural, Debug)]
pub struct MonitorRect {
    pub left: i32,
    pub top: i32,
    pub right: i32,
    pub bottom: i32,
}

/// One planned rendering surface: position and size of the window to
/// create, parented to the hosting container. The hosting container
/// itself is never among the planned surfaces: it must not be rendered
/// into.
#[derive(Clone, Copy, PartialEq, Eq, Structural, Debug)]
pub struct MonitorSurface {
    pub x: i32,
    pub y: i32,
    pub width: i32,
    pub height: i32,
}

/// A rectangle the OS can report for a monitor: ordered edges whose
/// extents fit the machine's window coordinates.
pub open spec fn rect_wf(r: MonitorRect) -> bool {
    r.left <= r.right && r.top <= r.bottom && r.right - r.left <= i32::MAX && r.bottom - r.top
        <= i32::MAX
}

/// The surface covering a monitor exactly.
pub open spec fn spec_surface_of(r: MonitorRect) -> MonitorSurface {
    MonitorSurface {
        x: r.left,
        y: r.top,
        width: (r.right - r.left) as i32,
        height: (r.bottom - r.top) as i32,
    }
}

/// The hosting container the scan list points at: the last scanned window
/// that has the icon container among its children names it, exactly as an
/// enumeration that overwrites its result on every match leaves the last
/// one; zero when no window did.
pub open spec fn spec_find_host(scans: Seq<WindowScan>) -> u64
    decreases scans.len(),
{
    if scans.len() == 0 {
        0
    } else if scans.last().has_icon_container {
        scans.last().worker_sibling
    } else {
        spec_find_host(scans.drop_last())
    }
}

/// Picks the hosting container out of the scan list.
pub fn find_host(scans: &Vec<WindowScan>) -> (h: u64)
    ensures
        h == spec_find_host(scans@),
{
    let mut h: u64 = 0;
    let n = scans.len();
    proof {
        assert(scans@.take(0) =~= Seq::<WindowScan>::empty());
    }
    for i in 0..n
        invariant
            n == scans@.len(),
            h == spec_find_host(scans@.take(i as int)),
    {
        if scans[i].has_icon_container {
            h = scans[i].worker_sibling;
        }
        proof {
            assert(scans@.take(i + 1).drop_last() =~= scans@.take(i as int));
            assert(scans@.take(i + 1).last() == scans@[i as int]);
        }
    }
    proof {
        assert(scans@.take(n as int) =~= scans@);
    }
    h
}

/// What surface planning decides from the enumeration results: the
/// hosting container's handle and one planned surface per monitor, or the
/// error that names what was missing.
pub open spec fn spec_plan(root: u64, scans: Seq<WindowScan>, monitors: Seq<MonitorRect>) -> Result<
    (u64, Seq<MonitorSurface>),
    LocatorError,
> {
    if root == 0 {
        Err(LocatorError::NoDesktopHost)
    } else if spec_find_host(scans) == 0 {
        Err(LocatorError::HostNotFound)
    } else {
        Ok((spec_find_host(scans), monitors.map_values(|r: MonitorRect| spec_surface_of(r))))
    }
}

/// The value of a planning result.
pub open spec fn plan_view(r: Result<(u64, Vec<MonitorSurface>), LocatorError>) -> Result<
    (u64, Seq<MonitorSurface>),
    LocatorError,
> {
    match r {
        Ok((h, v)) => Ok((h, v@)),
        Err(e) => Err(e),
    }
}

/// Plans the rendering surfaces from the enumeration results: fails with
/// `NoDesktopHost` when the desktop manager's root container was absent
/// and with `HostNotFound` when no scanned window pointed at the spawned
/// hosting container; otherwise plans exactly one surface per enumerated
/// monitor, each sized and positioned to its monitor's rectangle.
pub fn plan_surfaces(root: u64, scans: &Vec<WindowScan>, monitors: &Vec<MonitorRect>) -> (r:
    Result<(u64, Vec<MonitorSurface>), LocatorError>)
    requires
        forall|i: int| 0 <= i < monitors@.len() ==> rect_wf(monitors@[i]),
    ensures
        plan_view(r) == spec_plan(root, scans@, monitors@),
{
    if root == 0 {
        return Err(LocatorError::NoDesktopHost);
    }
    let host = find_host(scans);
    if host == 0 {
        return Err(LocatorError::HostNotFound);
    }
    let mut surfaces: Vec<MonitorSurface> = Vec::new();
    let n = monitors.len();
    for i in 0..n
        invariant
            n == monitors@.len(),
            forall|k: int| 0 <= k < monitors@.len() ==> rect_wf(monitors@[k]),
            surfaces@.len() == i,
            forall|j: int| 0 <= j < i ==> surfaces@[j] == spec_surface_of(monitors@[j]),
    {
        let m = monitors[i];
        let width = m.right - m.left;
        let height = m.bottom - m.top;
        surfaces.push(MonitorSurface { x: m.left, y: m.top, width, height });
    }
    proof {
        assert(surfaces@ =~= monitors@.map_values(|r: MonitorRect| spec_surface_of(r)));
    }
    Ok((host, surfaces))
}

/// The surfaces that survive creation: the driver tries to create one
/// window per planned surface and reports which attempts succeeded; the
/// locator proceeds with the survivors, in order.
pub open spec fn spec_survivors(
    planned: Seq<MonitorSurface>,
    created: Seq<bool>,
) -> Seq<MonitorSurface>
    decreases planned.len(),
{
    if planned.len() == 0 || created.len() < planned.len() {
        Seq::empty()
    } else if created.last() {
        spec_survivors(planned.drop_last(), created.drop_last()).push(planned.last())
    } else {
        spec_survivors(planned.drop_last(), created.drop_last())
    }
}

/// The value of a surviving-surfaces result.
pub open spec fn survivors_view(r: Result<Vec<MonitorSurface>, LocatorError>) -> Result<
    Seq<MonitorSurface>,
    LocatorError,
> {
    match r {
        Ok(v) => Ok(v@),
        Err(e) => Err(e),
    }
}

/// Keeps the planned surfaces whose windows the driver managed to create;
/// a failed subset is tolerated, but with no survivor at all the locator
/// fails with `NoSurfacesCreated`.
pub fn surviving_surfaces(planned: &Vec<MonitorSurface>, created: &Vec<bool>) -> (r: Result<
    Vec<MonitorSurface>,
    LocatorError,
>)
    requires
        planned@.len() == created@.len(),
    ensures
        survivors_view(r) == (if spec_survivors(planned@, created@).len() == 0 {
            Err::<Seq<MonitorSurface>, LocatorError>(LocatorError::NoSurfacesCreated)
        } else {
            Ok::<Seq<MonitorSurface>, LocatorError>(spec_survivors(planned@, created@))
        }),
{
    let mut kept: Vec<MonitorSurface> = Vec::new();
    let n = planned.len();
    proof {
        assert(planned@.take(0) =~= Seq::<MonitorSurface>::empty());
        assert(created@.take(0) =~= Seq::<bool>::empty());
    }
    for i in 0..n
        invariant
            n == planned@.len(),
            n == created@.len(),
            kept@ == spec_survivors(planned@.take(i as int), created@.take(i as int)),
    {
        if created[i] {
            kept.push(planned[i]);
        }
        proof {
            assert(planned@.take(i + 1).drop_last() =~= planned@.take(i as int));
            assert(created@.take(i + 1).drop_last() =~= created@.take(i as int));
            assert(planned@.take(i + 1).last() == planned@[i as int]);
            assert(created@.take(i + 1).last() == created@[i as int]);
        }
    }
    proof {
        assert(planned@.take(n as int) =~= planned@);
        assert(created@.take(n as int) =~= created@);
    }
    if kept.len() == 0 {
        Err(LocatorError::NoSurfacesCreated)
    } else {
        Ok(kept)
    }
}

} // verus!
