//! Wallpaper controller and video compositor tests: extension routing,
//! restoration, the pause settle wait, and aspect configuration.

use walltaker_engine::video::{loop_argument, SurfaceDims, Video, PAUSE_SETTLE_MS};
use walltaker_engine::wallpaper::{
    Wallpaper, WallpaperCmd, METHOD_FILL, METHOD_FIT, METHOD_STRETCH,
};

fn controller() -> Wallpaper {
    let video = Video::new(vec![
        SurfaceDims { width: 1920, height: 1080 },
        SurfaceDims { width: 2560, height: 1440 },
    ]);
    Wallpaper::new(video, String::from("C:/old/paper.jpg"), METHOD_FILL)
}

#[test]
fn video_extensions_route_to_looping_video() {
    let mut w = controller();
    for path in ["a.webm", "a.mp4", "A.WEBM", "b.Mp4", "dir/clip.WebM"] {
        let cmds = w.set(path, METHOD_FILL);
        assert_eq!(
            cmds,
            vec![
                WallpaperCmd::LoadMedia { path: String::from(path) },
                WallpaperCmd::PlayAll,
            ],
            "path {path} must play as video"
        );
        assert_eq!(w.current_media(), path);
    }
}

#[test]
fn other_extensions_route_to_static_image() {
    let mut w = controller();
    for path in ["a.png", "a.jpg", "a.webm.txt", "awebm", "clip.mp42", "x.gif"] {
        let cmds = w.set(path, METHOD_FILL);
        assert_eq!(
            cmds,
            vec![WallpaperCmd::OsSetWallpaper { path: String::from(path), method: METHOD_FILL }],
            "path {path} must be set as a static image"
        );
    }
}

#[test]
fn leaving_video_pauses_and_settles_before_the_os_swap() {
    let mut w = controller();
    w.set("clip.webm", METHOD_FILL);
    let cmds = w.set("pic.png", METHOD_FILL);
    assert_eq!(
        cmds,
        vec![
            WallpaperCmd::PauseAll,
            WallpaperCmd::Settle { ms: PAUSE_SETTLE_MS },
            WallpaperCmd::OsSetWallpaper { path: String::from("pic.png"), method: METHOD_FILL },
        ]
    );
}

#[test]
fn pause_always_takes_at_least_the_settle_duration() {
    let video = Video::new(vec![SurfaceDims { width: 800, height: 600 }]);
    let cmds = video.pause();
    assert_eq!(cmds[0], WallpaperCmd::PauseAll);
    match cmds.last().unwrap() {
        WallpaperCmd::Settle { ms } => assert!(*ms >= 100),
        other => panic!("pause must end in a settle wait, got {:?}", other),
    }
}

#[test]
fn reset_restores_the_captured_wallpaper() {
    let mut w = controller();
    w.set("a.webm", METHOD_STRETCH);
    w.set("b.png", METHOD_FIT);
    let cmds = w.reset();
    assert_eq!(w.current_media(), "C:/old/paper.jpg");
    assert_eq!(
        cmds,
        vec![WallpaperCmd::OsSetWallpaper {
            path: String::from("C:/old/paper.jpg"),
            method: METHOD_FILL,
        }]
    );
}

#[test]
fn stretch_sets_each_surface_to_its_exact_pixel_ratio() {
    let mut w = controller();
    w.set("clip.webm", METHOD_FILL);
    let cmds = w.set_method(METHOD_STRETCH);
    assert_eq!(
        cmds,
        vec![
            WallpaperCmd::SetAspect { surface: 0, ratio: String::from("1920:1080") },
            WallpaperCmd::SetAspect { surface: 1, ratio: String::from("2560:1440") },
        ]
    );
}

#[test]
fn fit_clears_the_aspect_override() {
    let mut w = controller();
    w.set("clip.webm", METHOD_FILL);
    let cmds = w.set_method(METHOD_FIT);
    assert_eq!(
        cmds,
        vec![
            WallpaperCmd::ClearAspect { surface: 0 },
            WallpaperCmd::ClearAspect { surface: 1 },
        ]
    );
}

#[test]
fn set_method_on_static_image_goes_to_the_os() {
    let mut w = controller();
    w.set("pic.png", METHOD_FILL);
    let cmds = w.set_method(METHOD_STRETCH);
    assert_eq!(cmds, vec![WallpaperCmd::OsSetPosition { method: METHOD_STRETCH }]);
}

#[test]
fn looping_is_configured_through_the_repeat_argument() {
    assert_eq!(loop_argument(), "--input-repeat=99999999");
}
