//! The wallpaper controller: a state machine over two mutually exclusive
//! display states, a static image delegated to the OS wallpaper interface
//! or a looping video delegated to the video compositor. Its methods
//! return the exact command sequences the platform driver must perform,
//! and it captures the pre-launch wallpaper so that it can be restored on
//! exit.

use vstd::prelude::*;
use vstd::string::StringExecFns;
use crate::video::{spec_aspect_cmds, spec_pause_cmds, Video};

verus! {

/// Scaling-mode code for tiling, mirroring the OS wallpaper position code.
pub const METHOD_TILE: i32 = 1;

/// Scaling-mode code for stretch-to-fill, mirroring the OS wallpaper
/// position code.
pub const METHOD_STRETCH: i32 = 2;

/// Scaling-mode code for fit (letterboxed), mirroring the OS wallpaper
/// position code.
pub const METHOD_FIT: i32 = 3;

/// Scaling-mode code for fill (cropped), mirroring the OS wallpaper
/// position code.
pub const METHOD_FILL: i32 = 4;

/// One call the wallpaper subsystem asks the platform driver to perform,
/// in order.
#[derive(Debug, PartialEq, Eq, Clone)]
pub enum WallpaperCmd {
    /// Replace the loaded media on every playback handle.
    LoadMedia { path: String },
    /// Start playback on every handle.
    PlayAll,
    /// Pause playback on every handle.
    PauseAll,
    /// Wait this many milliseconds so late frames drain after a pause.
    Settle { ms: u64 },
    /// Fix one playback handle's aspect ratio to its surface's pixel size.
    SetAspect { surface: usize, ratio: String },
    /// Clear one playback handle's aspect override.
    ClearAspect { surface: usize },
    /// Hand a path and scaling mode to the OS wallpaper interface.
    OsSetWallpaper { path: String, method: i32 },
    /// Re-apply only the scaling mode through the OS wallpaper interface.
    OsSetPosition { method: i32 },
}

/// The mathematical value of a [`WallpaperCmd`].
pub enum WallpaperCmdM {
    LoadMedia { path: Seq<char> },
    PlayAll,
    PauseAll,
    Settle { ms: u64 },
    SetAspect { surface: usize, ratio: Seq<char> },
    ClearAspect { surface: usize },
    OsSetWallpaper { path: Seq<char>, method: i32 },
    OsSetPosition { method: i32 },
}

impl View for WallpaperCmd {
    type V = WallpaperCmdM;

    open spec fn view(&self) -> WallpaperCmdM {
        match self {
            WallpaperCmd::LoadMedia { path } => WallpaperCmdM::LoadMedia { path: path@ },
            WallpaperCmd::PlayAll => WallpaperCmdM::PlayAll,
            WallpaperCmd::PauseAll => WallpaperCmdM::PauseAll,
            WallpaperCmd::Settle { ms } => WallpaperCmdM::Settle { ms: *ms },
            WallpaperCmd::SetAspect { surface, ratio } => WallpaperCmdM::SetAspect {
                surface: *surface,
                ratio: ratio@,
            },
            WallpaperCmd::ClearAspect { surface } => WallpaperCmdM::ClearAspect {
                surface: *surface,
            },
            WallpaperCmd::OsSetWallpaper { path, method } => WallpaperCmdM::OsSetWallpaper {
                path: path@,
                method: *method,
            },
            WallpaperCmd::OsSetPosition { method } => WallpaperCmdM::OsSetPosition {
                method: *method,
            },
        }
    }
}

/// The values of a command sequence.
pub open spec fn cmds_view(v: Seq<WallpaperCmd>) -> Seq<WallpaperCmdM> {
    v.map_values(|c: WallpaperCmd| c@)
}

/// Case-insensitive character match against a lowercase pattern letter.
pub open spec fn eq_ci(a: char, b: char) -> bool {
    a == b || (65 <= a as u32 <= 90 && a as u32 + 32 == b as u32)
}

/// Whether `s` ends with `suffix`, compared case-insensitively against the
/// lowercase suffix.
pub open spec fn ends_with_ci(s: Seq<char>, suffix: Seq<char>) -> bool {
    s.len() >= suffix.len() && (forall|i: int|
        0 <= i < suffix.len() ==> eq_ci(s[s.len() - suffix.len() + i], suffix[i]))
}

/// Whether a media path plays as looping video: its file extension,
/// compared case-insensitively, is one of the recognized video extensions.
pub open spec fn is_video_path(s: Seq<char>) -> bool {
    ends_with_ci(s, ".webm"@) || ends_with_ci(s, ".mp4"@)
}

/// Whether `s` ends with `suffix`, case-insensitively; `suffix` is given in
/// lowercase.
fn ends_with_ci_exec(s: &Vec<char>, suffix: &Vec<char>) -> (r: bool)
    ensures
        r == ends_with_ci(s@, suffix@),
{
    let n = s.len();
    let m = suffix.len();
    if n < m {
        return false;
    }
    for i in 0..m
        invariant
            n == s@.len(),
            m == suffix@.len(),
            n >= m,
            forall|j: int| 0 <= j < i ==> eq_ci(s@[n - m + j], suffix@[j]),
    {
        let a = s[n - m + i];
        let b = suffix[i];
        let au = a as u32;
        let bu = b as u32;
        if !(a == b || (65 <= au && au <= 90 && au + 32 == bu)) {
            proof {
                assert(!eq_ci(s@[n - m + i], suffix@[i as int]));
            }
            return false;
        }
    }
    true
}

/// Classifies a media path: true exactly on the recognized video
/// extensions, case-insensitively.
pub fn is_video_media(path: &str) -> (r: bool)
    ensures
        r == is_video_path(path@),
{
    let chars = crate::text::str_to_chars(path);
    let webm = crate::text::str_to_chars(".webm");
    let mp4 = crate::text::str_to_chars(".mp4");
    let a = ends_with_ci_exec(&chars, &webm);
    let b = ends_with_ci_exec(&chars, &mp4);
    a || b
}

/// Whether `c` separates path segments; media URLs and local cache paths
/// use either separator.
pub open spec fn spec_is_sep(c: char) -> bool {
    c == '/' || c == '\\'
}

/// Whether position `i` holds the dot that begins a file extension: a dot
/// inside the final path segment that is not the segment's first
/// character.
pub open spec fn is_ext_dot(s: Seq<char>, i: int) -> bool {
    0 < i < s.len() && s[i] == '.' && !spec_is_sep(s[i - 1]) && (forall|j: int|
        i < j < s.len() ==> !spec_is_sep(s[j]))
}

/// Whether a media URL or path names a file extension. The cache path a
/// fetched medium is stored under is derived from this extension, so a
/// URL without one cannot be fetched or classified and its event is
/// recoverable, not displayable.
pub open spec fn spec_has_extension(s: Seq<char>) -> bool {
    exists|i: int| is_ext_dot(s, i)
}

/// Whether the media URL or path names a file extension.
pub fn has_extension(path: &str) -> (r: bool)
    ensures
        r == spec_has_extension(path@),
{
    let v = crate::text::str_to_chars(path);
    let n = v.len();
    let mut i = n;
    while i > 0
        invariant
            n == v@.len(),
            v@ == path@,
            i <= n,
            forall|j: int| i <= j < n ==> v@[j] != '.' && !spec_is_sep(v@[j]),
        decreases i,
    {
        i -= 1;
        let c = v[i];
        if c == '/' || c == '\\' {
            proof {
                assert forall|k: int| !is_ext_dot(path@, k) by {
                    if is_ext_dot(path@, k) {
                        if k > i {
                            assert(path@[k] != '.');
                        } else if k < i {
                            assert(!spec_is_sep(path@[i as int]));
                        }
                    }
                }
            }
            return false;
        }
        if c == '.' {
            if i > 0 && !(v[i - 1] == '/' || v[i - 1] == '\\') {
                proof {
                    assert(is_ext_dot(path@, i as int));
                }
                return true;
            }
            proof {
                assert forall|k: int| !is_ext_dot(path@, k) by {
                    if is_ext_dot(path@, k) {
                        if k > i {
                            assert(path@[k] != '.');
                        } else if k == i {
                            assert(i > 0 && !spec_is_sep(path@[i - 1]));
                        } else {
                            if k == i - 1 {
                                assert(path@[k] == '.' && spec_is_sep(path@[k]));
                            } else {
                                assert(!spec_is_sep(path@[i - 1]));
                            }
                        }
                    }
                }
            }
            return false;
        }
    }
    proof {
        assert forall|k: int| !is_ext_dot(path@, k) by {
            if 0 < k < path@.len() {
                assert(path@[k] != '.');
            }
        }
    }
    false
}

/// The mathematical state of the wallpaper controller.
pub struct WallpaperM {
    /// The sizes of the surfaces the compositor drives.
    pub surfaces: Seq<crate::video::SurfaceDims>,
    /// The last path handed to `set` (empty before the first `set`).
    pub current_media: Seq<char>,
    /// Whether the active media is a looping video.
    pub playing_video: bool,
    /// The wallpaper path captured at construction, for restoration.
    pub initial: Seq<char>,
    /// The scaling mode captured at construction, for restoration.
    pub initial_method: i32,
}

/// The wallpaper controller.
pub struct Wallpaper {
    video: Video,
    current_media: String,
    playing_video: bool,
    initial: String,
    initial_method: i32,
}

impl View for Wallpaper {
    type V = WallpaperM;

    closed spec fn view(&self) -> WallpaperM {
        WallpaperM {
            surfaces: self.video@,
            current_media: self.current_media@,
            playing_video: self.playing_video,
            initial: self.initial@,
            initial_method: self.initial_method,
        }
    }
}

/// The state after `set(path, method)`: the path becomes the current
/// media, and the display state follows the path's classification. The
/// captured initial wallpaper never changes.
pub open spec fn spec_set_state(w: WallpaperM, path: Seq<char>, method: i32) -> WallpaperM {
    WallpaperM { current_media: path, playing_video: is_video_path(path), ..w }
}

/// The commands `set(path, method)` issues. A video path loads the media
/// and starts playback (a pause is not needed: either nothing was playing,
/// or the same handles keep playing the new media). A static path first
/// waits out a pause when a video was playing — the stale-frame race —
/// and then delegates to the OS wallpaper interface.
pub open spec fn spec_set_cmds(w: WallpaperM, path: Seq<char>, method: i32) -> Seq<
    WallpaperCmdM,
> {
    if is_video_path(path) {
        seq![WallpaperCmdM::LoadMedia { path }, WallpaperCmdM::PlayAll]
    } else {
        (if w.playing_video {
            spec_pause_cmds()
        } else {
            Seq::empty()
        }) + seq![WallpaperCmdM::OsSetWallpaper { path, method }]
    }
}

/// The commands `set_method(to)` issues: a playing video gets its aspect
/// ratios reconfigured; a static image gets the mode re-applied through
/// the OS wallpaper interface. The displayed media never changes.
pub open spec fn spec_set_method_cmds(w: WallpaperM, to: i32) -> Seq<WallpaperCmdM> {
    if w.playing_video {
        spec_aspect_cmds(w.surfaces, to)
    } else {
        seq![WallpaperCmdM::OsSetPosition { method: to }]
    }
}

impl Wallpaper {
    /// A controller over the given compositor, capturing the pre-launch
    /// wallpaper path and scaling mode for restoration.
    pub fn new(video: Video, initial: String, initial_method: i32) -> (w: Wallpaper)
        ensures
            w@ == (WallpaperM {
                surfaces: video@,
                current_media: Seq::<char>::empty(),
                playing_video: false,
                initial: initial@,
                initial_method,
            }),
    {
        let w = Wallpaper {
            video,
            current_media: String::new(),
            playing_video: false,
            initial,
            initial_method,
        };
        proof {
            assert(w@.current_media =~= Seq::<char>::empty());
        }
        w
    }

    /// Routes a media path to the looping-video or static-image state and
    /// returns the commands that display it.
    pub fn set(&mut self, path: &str, method: i32) -> (cmds: Vec<WallpaperCmd>)
        ensures
            final(self)@ == spec_set_state(old(self)@, path@, method),
            cmds_view(cmds@) == spec_set_cmds(old(self)@, path@, method),
    {
        let was_playing = self.playing_video;
        self.current_media = String::from_str(path);
        if is_video_media(path) {
            self.playing_video = true;
            let mut cmds = self.video.set_video(path);
            let ghost loaded = cmds@;
            let mut play = self.video.play();
            let ghost played = play@;
            cmds.append(&mut play);
            proof {
                assert(cmds@ == loaded + played);
                assert(loaded.len() == 1 && played.len() == 1) by {
                    assert(cmds_view(loaded).len() == loaded.len());
                    assert(cmds_view(played).len() == played.len());
                }
                assert(cmds@[0]@ == cmds_view(loaded)[0]);
                assert(cmds@[1]@ == cmds_view(played)[0]);
                assert(cmds_view(cmds@) =~= spec_set_cmds(old(self)@, path@, method));
            }
            cmds
        } else {
            self.playing_video = false;
            let mut cmds: Vec<WallpaperCmd> = Vec::new();
            if was_playing {
                let mut pause = self.video.pause();
                cmds.append(&mut pause);
            }
            cmds.push(WallpaperCmd::OsSetWallpaper { path: String::from_str(path), method });
            proof {
                assert(cmds_view(cmds@) =~= spec_set_cmds(old(self)@, path@, method));
            }
            cmds
        }
    }

    /// The last path handed to `set`, always readable for UI consumers.
    pub fn current_media(&self) -> (r: &str)
        ensures
            r@ == self@.current_media,
    {
        self.current_media.as_str()
    }

    /// Re-applies only the scaling mode to whatever is displayed.
    pub fn set_method(&self, to: i32) -> (cmds: Vec<WallpaperCmd>)
        ensures
            cmds_view(cmds@) == spec_set_method_cmds(self@, to),
    {
        if self.playing_video {
            self.video.set_aspect_ratio(to)
        } else {
            let mut cmds: Vec<WallpaperCmd> = Vec::new();
            cmds.push(WallpaperCmd::OsSetPosition { method: to });
            proof {
                assert(cmds_view(cmds@) =~= spec_set_method_cmds(self@, to));
            }
            cmds
        }
    }

    /// Restores the wallpaper captured at construction: a `set` with the
    /// initial path and initial scaling mode, unconditionally.
    pub fn reset(&mut self) -> (cmds: Vec<WallpaperCmd>)
        ensures
            final(self)@ == spec_set_state(old(self)@, old(self)@.initial, old(self)@.initial_method),
            cmds_view(cmds@) == spec_set_cmds(old(self)@, old(self)@.initial, old(self)@.initial_method),
    {
        let path = self.initial.clone();
        let method = self.initial_method;
        self.set(path.as_str(), method)
    }
}

/// The state after a whole sequence of `set` calls, applied in order.
pub open spec fn spec_apply_sets(w: WallpaperM, ops: Seq<(Seq<char>, i32)>) -> WallpaperM
    decreases ops.len(),
{
    if ops.len() == 0 {
        w
    } else {
        spec_set_state(spec_apply_sets(w, ops.drop_last()), ops.last().0, ops.last().1)
    }
}

/// No sequence of `set` calls touches the captured initial wallpaper.
pub proof fn lemma_sets_preserve_initial(w: WallpaperM, ops: Seq<(Seq<char>, i32)>)
    ensures
        spec_apply_sets(w, ops).initial == w.initial,
        spec_apply_sets(w, ops).initial_method == w.initial_method,
    decreases ops.len(),
{
    if ops.len() > 0 {
        lemma_sets_preserve_initial(w, ops.drop_last());
    }
}

/// After any sequence of `set` calls, a `reset` restores exactly the path
/// and mode captured at construction: the current media becomes the
/// captured initial path, re-applied with the captured initial mode.
pub proof fn lemma_reset_round_trip(w: WallpaperM, ops: Seq<(Seq<char>, i32)>)
    ensures
        ({
            let after = spec_apply_sets(w, ops);
            let restored = spec_set_state(after, after.initial, after.initial_method);
            restored.current_media == w.initial && restored.initial == w.initial
                && restored.initial_method == w.initial_method
        }),
{
    lemma_sets_preserve_initial(w, ops);
}

} // verus!
