//! The title bar follows the one-time download of the launcher's extra
//! assets, such as the stock icons, and shows its progress as a thin line.

use vstd::prelude::*;
use crate::download_svc::DownloadProgressMessage;
use crate::instances::{fraction_per_mille, per_mille};
use crate::settings::LauncherSettings;
use crate::toast::{toast_views, OpenMCToastKind, Toast, ToastView};

verus! {

/// The size of all the extra assets, in bytes.
pub const EXTRA_ASSETS_SIZE: u64 = 1394096;

/// What the title bar knows of the download of the extra assets.
#[derive(Clone, Copy, Debug, PartialEq, Eq, Structural)]
pub struct TitleBar {
    /// Whether the worker was started and has not finished.
    pub start_download: bool,
    /// What the worker last said was fetched.
    pub curr_progress: u64,
}

/// The title bar together with the launcher's wish for the extra assets.
pub struct AssetsView {
    pub bar: TitleBar,
    /// Whether the extra assets are still to be fetched.
    pub pending: bool,
}

/// What one frame of the title bar leads to.
#[derive(Debug, PartialEq, Eq)]
pub struct AssetsOutcome {
    /// Whether the caller is to start the worker now.
    pub start_worker: bool,
    /// Whether the extra assets are still to be fetched.
    pub pending: bool,
    pub toasts: Vec<Toast>,
}

/// The notification that opens the download of the extra assets.
pub open spec fn assets_toast() -> ToastView {
    ToastView {
        kind: OpenMCToastKind::Info,
        title: "Extra Assets"@,
        desc: "Downloading extra assets for launcher, ex: icons, sounds, etc"@,
    }
}

/// The state after one message of the worker: an announcement moves the
/// line, and the closing message ends the download for good.
pub open spec fn assets_after_message(a: AssetsView, m: DownloadProgressMessage) -> AssetsView {
    match m {
        DownloadProgressMessage::Setup(_) => a,
        DownloadProgressMessage::Update(done, _) => AssetsView {
            bar: TitleBar { curr_progress: done, ..a.bar },
            ..a
        },
        DownloadProgressMessage::End => AssetsView {
            bar: TitleBar { start_download: false, ..a.bar },
            pending: false,
        },
    }
}

/// The state after the messages were seen one after the other.
pub open spec fn assets_after_messages(a: AssetsView, msgs: Seq<DownloadProgressMessage>) -> AssetsView
    decreases msgs.len(),
{
    if msgs.len() == 0 {
        a
    } else {
        assets_after_message(assets_after_messages(a, msgs.drop_last()), msgs.last())
    }
}

/// The notifications that the messages bring up: one for every opening message.
pub open spec fn assets_toasts(msgs: Seq<DownloadProgressMessage>) -> Seq<ToastView>
    decreases msgs.len(),
{
    if msgs.len() == 0 {
        Seq::<ToastView>::empty()
    } else if msgs.last() is Setup {
        assets_toasts(msgs.drop_last()).push(assets_toast())
    } else {
        assets_toasts(msgs.drop_last())
    }
}

/// Whether the worker is to be started in this frame: the assets are still to
/// be fetched and no worker is at it.
pub open spec fn start_due(a: AssetsView) -> bool {
    a.pending && !a.bar.start_download
}

/// The state after one frame in which the messages were found on the
/// channel. The messages are seen only while a worker is at it, the one
/// started in this frame included.
pub open spec fn assets_polled(a: AssetsView, msgs: Seq<DownloadProgressMessage>) -> AssetsView {
    if a.pending || a.bar.start_download {
        assets_after_messages(
            AssetsView { bar: TitleBar { start_download: true, ..a.bar }, ..a },
            msgs,
        )
    } else {
        a
    }
}

/// Whether the extra assets are still to be fetched when the launcher
/// starts: they are unless the stock icons were found on disk.
pub fn assets_pending(cfg: &LauncherSettings) -> (r: bool)
    ensures
        r == !cfg@.exists_icons,
{
    !cfg.exists_icons
}

impl Default for TitleBar {
    /// A title bar that has seen nothing of a download.
    fn default() -> (r: Self)
        ensures
            r == (TitleBar { start_download: false, curr_progress: 0 }),
    {
        TitleBar { start_download: false, curr_progress: 0 }
    }
}

impl TitleBar {
    /// Runs one frame of the title bar. `pending` says whether the extra
    /// assets are still to be fetched, `msgs` holds what was found on the
    /// progress channel. The outcome says whether to start the worker, whether
    /// the assets are still to be fetched afterwards, and what to notify.
    pub fn draw_title_bar_ui(&mut self, pending: bool, msgs: &Vec<DownloadProgressMessage>) -> (r:
        AssetsOutcome)
        ensures
            r.start_worker == start_due(AssetsView { bar: *old(self), pending }),
            (AssetsView { bar: *final(self), pending: r.pending }) == assets_polled(
                AssetsView { bar: *old(self), pending },
                msgs@,
            ),
            toast_views(r.toasts@) == if pending || old(self).start_download {
                assets_toasts(msgs@)
            } else {
                Seq::<ToastView>::empty()
            },
    {
        let mut toasts: Vec<Toast> = Vec::new();
        let mut still_pending = pending;
        let start_worker = pending && !self.start_download;
        if start_worker {
            self.start_download = true;
        }
        if self.start_download {
            let ghost begun = AssetsView { bar: *self, pending };
            let mut k: usize = 0;
            while k < msgs.len()
                invariant
                    k <= msgs.len(),
                    (AssetsView { bar: *self, pending: still_pending }) == assets_after_messages(
                        begun,
                        msgs@.subrange(0, k as int),
                    ),
                    toast_views(toasts@) == assets_toasts(msgs@.subrange(0, k as int)),
                decreases msgs.len() - k,
            {
                let ghost more = msgs@.subrange(0, k + 1);
                assert(more.drop_last() =~= msgs@.subrange(0, k as int));
                match msgs[k] {
                    DownloadProgressMessage::Setup(_) => {
                        let t = Toast::new(
                            OpenMCToastKind::Info,
                            "Extra Assets",
                            "Downloading extra assets for launcher, ex: icons, sounds, etc",
                        );
                        toasts.push(t);
                    },
                    DownloadProgressMessage::Update(done, _) => {
                        self.curr_progress = done;
                    },
                    DownloadProgressMessage::End => {
                        still_pending = false;
                        self.start_download = false;
                    },
                }
                k += 1;
            }
            assert(msgs@.subrange(0, msgs@.len() as int) =~= msgs@);
        }
        AssetsOutcome { start_worker, pending: still_pending, toasts }
    }

    /// How far the line below the title bar reaches, in thousandths of the
    /// bar's width.
    pub fn line_per_mille(&self) -> (r: u128)
        ensures
            r == per_mille(self.curr_progress, EXTRA_ASSETS_SIZE),
    {
        fraction_per_mille(self.curr_progress, EXTRA_ASSETS_SIZE)
    }
}

/// Once the closing message was seen, the extra assets are never fetched
/// again: no later frame asks for a worker.
pub proof fn lemma_assets_fetched_once(a: AssetsView, msgs: Seq<DownloadProgressMessage>)
    requires
        a.pending || a.bar.start_download,
        msgs.len() > 0,
        msgs.last() == DownloadProgressMessage::End,
    ensures
        !assets_polled(a, msgs).pending,
        !assets_polled(a, msgs).bar.start_download,
        !start_due(assets_polled(a, msgs)),
        forall|later: Seq<DownloadProgressMessage>|
            assets_polled(assets_polled(a, msgs), later) == assets_polled(a, msgs),
{
}

} // verus!
