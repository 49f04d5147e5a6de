//! Surface locator tests: host discovery, per-monitor planning, and the
//! tolerance for a partially failed creation pass.

use walltaker_engine::surfaces::{
    find_host, plan_surfaces, surviving_surfaces, LocatorError, MonitorRect, MonitorSurface,
    WindowScan,
};

fn scan(window: u64, has_icon_container: bool, worker_sibling: u64) -> WindowScan {
    WindowScan { window, has_icon_container, worker_sibling }
}

#[test]
fn missing_desktop_root_fails_first() {
    let r = plan_surfaces(0, &vec![scan(1, true, 7)], &vec![]);
    assert_eq!(r, Err(LocatorError::NoDesktopHost));
}

#[test]
fn no_matching_scan_means_no_host() {
    let r = plan_surfaces(11, &vec![scan(1, false, 0), scan(2, false, 0)], &vec![]);
    assert_eq!(r, Err(LocatorError::HostNotFound));
    assert_eq!(find_host(&vec![]), 0);
    // A match whose sibling lookup came back empty does not count either.
    let r = plan_surfaces(11, &vec![scan(1, true, 0)], &vec![]);
    assert_eq!(r, Err(LocatorError::HostNotFound));
}

#[test]
fn the_last_matching_scan_names_the_host() {
    let scans = vec![scan(1, true, 7), scan(2, false, 0), scan(3, true, 9)];
    assert_eq!(find_host(&scans), 9);
}

#[test]
fn one_surface_is_planned_per_monitor() {
    let monitors = vec![
        MonitorRect { left: 0, top: 0, right: 1920, bottom: 1080 },
        MonitorRect { left: -2560, top: -200, right: 0, bottom: 1240 },
    ];
    let (host, surfaces) = plan_surfaces(11, &vec![scan(1, true, 7)], &monitors).unwrap();
    assert_eq!(host, 7);
    assert_eq!(
        surfaces,
        vec![
            MonitorSurface { x: 0, y: 0, width: 1920, height: 1080 },
            MonitorSurface { x: -2560, y: -200, width: 2560, height: 1440 },
        ]
    );
}

#[test]
fn a_failed_subset_of_creations_is_tolerated() {
    let planned = vec![
        MonitorSurface { x: 0, y: 0, width: 1920, height: 1080 },
        MonitorSurface { x: 1920, y: 0, width: 1280, height: 1024 },
    ];
    let kept = surviving_surfaces(&planned, &vec![false, true]).unwrap();
    assert_eq!(kept, vec![planned[1]]);
    let all = surviving_surfaces(&planned, &vec![true, true]).unwrap();
    assert_eq!(all, planned);
}

#[test]
fn no_surviving_surface_is_fatal() {
    let planned = vec![MonitorSurface { x: 0, y: 0, width: 1920, height: 1080 }];
    assert_eq!(
        surviving_surfaces(&planned, &vec![false]),
        Err(LocatorError::NoSurfacesCreated)
    );
    assert_eq!(surviving_surfaces(&vec![], &vec![]), Err(LocatorError::NoSurfacesCreated));
}
