use vstd::prelude::*;
use crate::geometry::{bounds_of, compute_bounds, ScreenInfo, TotalBounds};

verus! {

/// Where one screen stands in a wallpaper run.
#[derive(Clone, Debug, PartialEq, Eq)]
pub enum WallpaperStatus {
    Downloading,
    Cropping,
    Applying,
    Success,
    Error(String),
}

pub open spec fn status_label(s: WallpaperStatus) -> Seq<char> {
    match s {
        WallpaperStatus::Downloading => "downloading"@,
        WallpaperStatus::Cropping => "cropping"@,
        WallpaperStatus::Applying => "applying"@,
        WallpaperStatus::Success => "success"@,
        WallpaperStatus::Error(_) => "error"@,
    }
}

impl WallpaperStatus {
    /// The status word reported for this status.
    pub fn label(&self) -> (r: &'static str)
        ensures
            r@ == status_label(*self),
    {
        match self {
            WallpaperStatus::Downloading => "downloading",
            WallpaperStatus::Cropping => "cropping",
            WallpaperStatus::Applying => "applying",
            WallpaperStatus::Success => "success",
            WallpaperStatus::Error(_) => "error",
        }
    }

    /// The message of an error status.
    pub fn error_message(&self) -> (r: Option<String>)
        ensures
            r == match self {
                WallpaperStatus::Error(m) => Some(*m),
                _ => None::<String>,
            },
    {
        match self {
            WallpaperStatus::Error(m) => Some(m.clone()),
            _ => None,
        }
    }
}

/// The message of a failed download: `"Download failed: "` and the reason.
pub open spec fn download_failure_text(reason: Seq<char>) -> Seq<char> {
    "Download failed: "@ + reason
}

/// The terminal status of a screen once the wallpapers were handed to the
/// desktop: none for a screen without a wallpaper file, else success or the
/// desktop's error.
pub open spec fn final_status(artifact: Option<String>, applied: Result<(), String>) -> Option<
    WallpaperStatus,
> {
    match artifact {
        None => None,
        Some(_) => match applied {
            Ok(()) => Some(WallpaperStatus::Success),
            Err(e) => Some(WallpaperStatus::Error(e)),
        },
    }
}

/// A run succeeds when every screen got a wallpaper file and the desktop took them.
pub open spec fn run_succeeded(artifacts: Seq<Option<String>>, applied: Result<(), String>) -> bool {
    &&& applied is Ok
    &&& forall|i: int| 0 <= i < artifacts.len() ==> (#[trigger] artifacts[i]) is Some
}

/// The bookkeeping of one wallpaper run over a set of screens: the desktop
/// bounds shared by every crop, and the wallpaper file of each screen handled
/// so far (none where rendering failed).
pub struct ApplyRun {
    pub bounds: TotalBounds,
    pub artifacts: Vec<Option<String>>,
    pub screen_count: usize,
}

impl ApplyRun {
    pub open spec fn wf(&self) -> bool {
        self.artifacts@.len() <= self.screen_count
    }

    /// Starts a run over `screens`: fails with "No screens detected" when there
    /// are none, else computes the desktop bounds once for the whole run.
    pub fn start(screens: &Vec<ScreenInfo>) -> (r: Result<ApplyRun, String>)
        ensures
            r is Err <==> screens@.len() == 0,
            r matches Err(m) ==> m@ == "No screens detected"@,
            r matches Ok(run) ==> {
                &&& run.wf()
                &&& run.bounds == bounds_of(screens@)
                &&& run.artifacts@.len() == 0
                &&& run.screen_count == screens@.len()
            },
    {
        if screens.len() == 0 {
            return Err(String::from_str("No screens detected"));
        }
        let bounds = compute_bounds(screens);
        Ok(ApplyRun { bounds, artifacts: Vec::new(), screen_count: screens.len() })
    }

    /// The status of every screen when the run begins.
    pub fn downloading(&self) -> (r: Vec<WallpaperStatus>)
        ensures
            r@.len() == self.screen_count,
            forall|i: int| 0 <= i < r@.len() ==> r@[i] == WallpaperStatus::Downloading,
    {
        let mut r: Vec<WallpaperStatus> = Vec::new();
        let mut i: usize = 0;
        while i < self.screen_count
            invariant
                i <= self.screen_count,
                r@.len() == i,
                forall|j: int| 0 <= j < r@.len() ==> r@[j] == WallpaperStatus::Downloading,
            decreases self.screen_count - i,
        {
            r.push(WallpaperStatus::Downloading);
            i = i + 1;
        }
        r
    }

    /// Ends the run when the shared download failed: every screen gets an
    /// error whose message starts with "Download failed", and the run as a
    /// whole has failed (the second component is `false`).
    pub fn download_failed(&self, reason: &str) -> (r: (Vec<WallpaperStatus>, bool))
        ensures
            r.0@.len() == self.screen_count,
            forall|i: int|
                0 <= i < r.0@.len() ==> (#[trigger] r.0@[i] matches WallpaperStatus::Error(m) && m@
                    == download_failure_text(reason@)),
            !r.1,
    {
        let mut msg = String::from_str("Download failed: ");
        msg.append(reason);
        let mut r: Vec<WallpaperStatus> = Vec::new();
        let mut i: usize = 0;
        while i < self.screen_count
            invariant
                i <= self.screen_count,
                r@.len() == i,
                msg@ == download_failure_text(reason@),
                forall|j: int|
                    0 <= j < r@.len() ==> (#[trigger] r@[j] matches WallpaperStatus::Error(m) && m@
                        == download_failure_text(reason@)),
            decreases self.screen_count - i,
        {
            r.push(WallpaperStatus::Error(msg.clone()));
            i = i + 1;
        }
        (r, false)
    }

    /// Records how rendering the next screen went: the path of its wallpaper
    /// file, or why there is none. A failure is returned as that screen's
    /// error status; the other screens go on.
    pub fn record_render(&mut self, outcome: Result<String, String>) -> (r: Option<WallpaperStatus>)
        requires
            old(self).wf(),
            old(self).artifacts@.len() < old(self).screen_count,
        ensures
            final(self).wf(),
            final(self).bounds == old(self).bounds,
            final(self).screen_count == old(self).screen_count,
            final(self).artifacts@ == old(self).artifacts@.push(
                match outcome {
                    Ok(p) => Some(p),
                    Err(_) => None,
                },
            ),
            r == match outcome {
                Ok(_) => None::<WallpaperStatus>,
                Err(e) => Some(WallpaperStatus::Error(e)),
            },
    {
        match outcome {
            Ok(p) => {
                self.artifacts.push(Some(p));
                None
            },
            Err(e) => {
                self.artifacts.push(None);
                Some(WallpaperStatus::Error(e))
            },
        }
    }

    /// The status of each screen when the wallpapers are handed to the
    /// desktop: applying for each screen with a wallpaper file, none for the others.
    pub fn applying(&self) -> (r: Vec<Option<WallpaperStatus>>)
        ensures
            r@.len() == self.artifacts@.len(),
            forall|i: int|
                0 <= i < r@.len() ==> #[trigger] r@[i] == (if self.artifacts@[i] is Some {
                    Some(WallpaperStatus::Applying)
                } else {
                    None
                }),
    {
        let mut r: Vec<Option<WallpaperStatus>> = Vec::new();
        let mut i: usize = 0;
        while i < self.artifacts.len()
            invariant
                i <= self.artifacts@.len(),
                r@.len() == i,
                forall|j: int|
                    0 <= j < r@.len() ==> #[trigger] r@[j] == (if self.artifacts@[j] is Some {
                        Some(WallpaperStatus::Applying)
                    } else {
                        None
                    }),
            decreases self.artifacts@.len() - i,
        {
            if self.artifacts[i].is_some() {
                r.push(Some(WallpaperStatus::Applying));
            } else {
                r.push(None);
            }
            i = i + 1;
        }
        r
    }

    /// Ends the run once the desktop was asked to show the wallpapers: the
    /// terminal status of each screen, and whether the whole run succeeded.
    pub fn finish(&self, applied: &Result<(), String>) -> (r: (Vec<Option<WallpaperStatus>>, bool))
        ensures
            r.0@.len() == self.artifacts@.len(),
            forall|i: int|
                0 <= i < r.0@.len() ==> #[trigger] r.0@[i] == final_status(self.artifacts@[i], *applied),
            r.1 == run_succeeded(self.artifacts@, *applied),
    {
        let mut r: Vec<Option<WallpaperStatus>> = Vec::new();
        let mut all = true;
        let mut i: usize = 0;
        while i < self.artifacts.len()
            invariant
                i <= self.artifacts@.len(),
                r@.len() == i,
                forall|j: int|
                    0 <= j < r@.len() ==> #[trigger] r@[j] == final_status(self.artifacts@[j], *applied),
                all == forall|j: int| 0 <= j < i ==> (#[trigger] self.artifacts@[j]) is Some,
            decreases self.artifacts@.len() - i,
        {
            if self.artifacts[i].is_some() {
                match applied {
                    Ok(()) => r.push(Some(WallpaperStatus::Success)),
                    Err(e) => r.push(Some(WallpaperStatus::Error(e.clone()))),
                }
            } else {
                all = false;
                r.push(None);
            }
            i = i + 1;
        }
        (r, all && applied.is_ok())
    }
}

/// Per-screen isolation: when one screen got no wallpaper file, the run
/// fails as a whole, yet every screen that got one still ends in success once
/// the desktop took the files, and the failed screen gets no success.
pub proof fn lemma_failed_screen_is_isolated(artifacts: Seq<Option<String>>, failed: int)
    requires
        0 <= failed < artifacts.len(),
        artifacts[failed] is None,
    ensures
        !run_succeeded(artifacts, Ok(())),
        final_status(artifacts[failed], Ok(())) is None,
        forall|i: int|
            0 <= i < artifacts.len() && (#[trigger] artifacts[i]) is Some ==> final_status(
                artifacts[i],
                Ok(()),
            ) == Some(WallpaperStatus::Success),
{
}

/// The file name of a screen's wallpaper: `wallpaper_<id>.jpg`.
pub open spec fn artifact_name(screen_id: Seq<char>) -> Seq<char> {
    "wallpaper_"@ + screen_id + ".jpg"@
}

/// The file name of a screen's wallpaper. It depends on the screen id alone,
/// so each run overwrites the file the previous one wrote for that screen.
pub fn artifact_file_name(screen_id: &str) -> (r: String)
    ensures
        r@ == artifact_name(screen_id@),
{
    let mut r = String::from_str("wallpaper_");
    r.append(screen_id);
    r.append(".jpg");
    r
}

/// Wallpaper file names are keyed by screen id: two screens share a file
/// exactly when their ids are equal.
pub proof fn lemma_artifact_name_keyed_by_id(a: Seq<char>, b: Seq<char>)
    ensures
        (artifact_name(a) == artifact_name(b)) <==> (a == b),
{
    reveal_strlit("wallpaper_");
    reveal_strlit(".jpg");
    if artifact_name(a) == artifact_name(b) {
        let na = artifact_name(a);
        assert(na.len() == 10 + a.len() + 4);
        assert(a =~= na.subrange(10, 10 + a.len() as int));
        assert(b =~= artifact_name(b).subrange(10, 10 + b.len() as int));
    }
}

} // verus!
