//! The video compositor planner: one playback handle per monitor surface,
//! all driven together. Its methods decide the exact command sequences the
//! platform driver performs against the media engine; nothing here touches
//! the engine itself.

use vstd::prelude::*;
use crate::text::{chars_to_string, dec_digits, push_dec};
use crate::wallpaper::{cmds_view, WallpaperCmd, WallpaperCmdM, METHOD_STRETCH};

verus! {

/// The pixel size of one monitor surface.
#[derive(Debug, Clone, Copy, PartialEq, Eq, Structural)]
pub struct SurfaceDims {
    pub width: u32,
    pub height: u32,
}

/// How long playback must be given to settle after a pause command, in
/// milliseconds: the engine delivers a few frames asynchronously after a
/// pause request completes, and a wallpaper swap issued before they drain
/// can be overwritten by a stale frame.
pub const PAUSE_SETTLE_MS: u64 = 100;

/// The repeat count configured at engine creation. The engine has no
/// native infinite-loop primitive, so an effectively-infinite repeat count
/// is the accepted approximation; an eventual stop after this many plays is
/// a documented fidelity loss, not an omission.
pub const LOOP_REPEAT_COUNT: u64 = 99999999;

/// The engine launch argument that configures [`LOOP_REPEAT_COUNT`].
pub open spec fn spec_loop_argument() -> Seq<char> {
    "--input-repeat="@ + dec_digits(LOOP_REPEAT_COUNT as nat)
}

/// The launch argument handed to the media engine so that loaded media
/// repeats effectively forever.
pub fn loop_argument() -> (s: String)
    ensures
        s@ == spec_loop_argument(),
{
    let mut v: Vec<char> = Vec::new();
    crate::text::push_str_chars(&mut v, "--input-repeat=");
    push_dec(&mut v, LOOP_REPEAT_COUNT);
    chars_to_string(&v)
}

/// The compositor: it remembers each surface's size and plans the commands
/// that keep every playback handle showing the same media.
pub struct Video {
    surfaces: Vec<SurfaceDims>,
}

impl View for Video {
    type V = Seq<SurfaceDims>;

    closed spec fn view(&self) -> Seq<SurfaceDims> {
        self.surfaces@
    }
}

/// The aspect-ratio text matching a surface exactly: `<width>:<height>`.
pub open spec fn spec_ratio(d: SurfaceDims) -> Seq<char> {
    dec_digits(d.width as nat) + seq![':'] + dec_digits(d.height as nat)
}

/// The commands a pause issues: pause every handle, then wait out the
/// settle duration.
pub open spec fn spec_pause_cmds() -> Seq<WallpaperCmdM> {
    seq![WallpaperCmdM::PauseAll, WallpaperCmdM::Settle { ms: PAUSE_SETTLE_MS }]
}

/// The commands that configure aspect ratios for a scaling mode: under
/// Stretch every handle gets its own surface's exact pixel ratio; under any
/// other mode every handle's override is cleared, so the engine falls back
/// to the media's intrinsic aspect.
pub open spec fn spec_aspect_cmds(surfaces: Seq<SurfaceDims>, to: i32) -> Seq<WallpaperCmdM> {
    if to == METHOD_STRETCH {
        Seq::new(
            surfaces.len(),
            |i: int|
                WallpaperCmdM::SetAspect { surface: i as usize, ratio: spec_ratio(surfaces[i]) },
        )
    } else {
        Seq::new(surfaces.len(), |i: int| WallpaperCmdM::ClearAspect { surface: i as usize })
    }
}

impl Video {
    /// A compositor over the given surfaces, one playback handle each.
    pub fn new(surfaces: Vec<SurfaceDims>) -> (v: Video)
        ensures
            v@ == surfaces@,
    {
        Video { surfaces }
    }

    /// Replaces the loaded media on every playback handle.
    pub fn set_video(&self, path: &str) -> (cmds: Vec<WallpaperCmd>)
        ensures
            cmds_view(cmds@) == seq![WallpaperCmdM::LoadMedia { path: path@ }],
    {
        let mut cmds: Vec<WallpaperCmd> = Vec::new();
        cmds.push(WallpaperCmd::LoadMedia { path: path.to_owned() });
        proof {
            assert(cmds_view(cmds@) =~= seq![WallpaperCmdM::LoadMedia { path: path@ }]);
        }
        cmds
    }

    /// Starts playback on every handle.
    pub fn play(&self) -> (cmds: Vec<WallpaperCmd>)
        ensures
            cmds_view(cmds@) == seq![WallpaperCmdM::PlayAll],
    {
        let mut cmds: Vec<WallpaperCmd> = Vec::new();
        cmds.push(WallpaperCmd::PlayAll);
        proof {
            assert(cmds_view(cmds@) =~= seq![WallpaperCmdM::PlayAll]);
        }
        cmds
    }

    /// Pauses every handle, then waits out the settle duration before
    /// anything else may run.
    pub fn pause(&self) -> (cmds: Vec<WallpaperCmd>)
        ensures
            cmds_view(cmds@) == spec_pause_cmds(),
    {
        let mut cmds: Vec<WallpaperCmd> = Vec::new();
        cmds.push(WallpaperCmd::PauseAll);
        cmds.push(WallpaperCmd::Settle { ms: PAUSE_SETTLE_MS });
        proof {
            assert(cmds_view(cmds@) =~= spec_pause_cmds());
        }
        cmds
    }

    /// Configures every handle's aspect ratio for the given scaling mode.
    pub fn set_aspect_ratio(&self, to: i32) -> (cmds: Vec<WallpaperCmd>)
        ensures
            cmds_view(cmds@) == spec_aspect_cmds(self@, to),
    {
        let mut cmds: Vec<WallpaperCmd> = Vec::new();
        let n = self.surfaces.len();
        let ghost target = spec_aspect_cmds(self@, to);
        if to == METHOD_STRETCH {
            for i in 0..n
                invariant
                    n == self@.len(),
                    to == METHOD_STRETCH,
                    target == spec_aspect_cmds(self@, to),
                    cmds@.len() == i,
                    forall|j: int| 0 <= j < i ==> cmds@[j]@ == target[j],
            {
                let d = self.surfaces[i];
                let mut r: Vec<char> = Vec::new();
                push_dec(&mut r, d.width as u64);
                r.push(':');
                push_dec(&mut r, d.height as u64);
                proof {
                    assert(r@ =~= spec_ratio(self@[i as int]));
                }
                let ratio = chars_to_string(&r);
                cmds.push(WallpaperCmd::SetAspect { surface: i, ratio });
                proof {
                    assert(cmds@[i as int]@ == target[i as int]);
                }
            }
        } else {
            for i in 0..n
                invariant
                    n == self@.len(),
                    to != METHOD_STRETCH,
                    target == spec_aspect_cmds(self@, to),
                    cmds@.len() == i,
                    forall|j: int| 0 <= j < i ==> cmds@[j]@ == target[j],
            {
                cmds.push(WallpaperCmd::ClearAspect { surface: i });
                proof {
                    assert(cmds@[i as int]@ == target[i as int]);
                }
            }
        }
        proof {
            assert(cmds_view(cmds@) =~= target);
        }
        cmds
    }
}

/// A pause never returns control before the settle wait: its command list
/// always ends with a wait of at least the configured settle duration.
pub proof fn lemma_pause_always_settles()
    ensures
        spec_pause_cmds().last() == (WallpaperCmdM::Settle { ms: PAUSE_SETTLE_MS }),
        PAUSE_SETTLE_MS >= 100,
{
}

} // verus!
