use vstd::prelude::*;
use crate::resolve::{resolve_from_page, resolve_model, Resolution, ResolutionModel};
use crate::resolve::{finish_probe, probe_url};
use crate::text::{item_path, item_path_spec};

verus! {

/// Why an item ended `Failed`.
#[derive(Debug, Clone, Copy, PartialEq, Eq, Structural)]
pub enum FailReason {
    /// The item page could not be fetched, so no asset URL was resolved.
    PageUnavailable,
    /// The item page offered no asset URL.
    NoAsset,
    /// Every download attempt failed, up to the cap of 3 attempts.
    FetchExhausted,
}

/// Terminal outcome of one item: `Skipped` when the output file already
/// existed, `Succeeded` after a downloaded and written asset, `Failed`
/// otherwise.
#[derive(Debug, Clone, Copy, PartialEq, Eq, Structural)]
pub enum DownloadOutcome {
    Skipped,
    Succeeded,
    Failed { reason: FailReason },
}

/// Where one item's task stands, and with it what the driver owes the
/// task next.
#[derive(Debug)]
pub enum TaskState {
    /// Fetch the item page; report it with `on_page`, or its absence with
    /// `on_page_unavailable`.
    AwaitingPage,
    /// Probe `origin` with redirects suppressed; report the status and
    /// Location header with `on_probe`.
    AwaitingProbe { origin: String },
    /// Report with `on_exists` whether a file already exists at `path`.
    AwaitingExists { url: String, path: String },
    /// Fetch `url` and, on success, write the bytes to `path` (to a
    /// temporary location first, renamed into place); report whether the
    /// attempt succeeded with `on_fetch`.  `attempt` is 1-based.
    AwaitingFetch { url: String, path: String, attempt: u64 },
    /// Terminal: report `outcome` and release the concurrency slot.
    Done { outcome: DownloadOutcome },
}

/// Spec-level mirror of `TaskState`.
pub enum Phase {
    AwaitingPage,
    AwaitingProbe { origin: Seq<char> },
    AwaitingExists { url: Seq<char>, path: Seq<char> },
    AwaitingFetch { url: Seq<char>, path: Seq<char>, attempt: u64 },
    Done { outcome: DownloadOutcome },
}

/// One event the driver reports back to a task.
pub enum Event {
    Page { text: Seq<char> },
    PageUnavailable,
    Probe { status: u16, location: Option<Seq<char>> },
    Exists { exists: bool },
    Fetch { ok: bool },
}

/// Spec-level state of one item task.
pub struct TaskModel {
    pub index: int,
    pub original: bool,
    pub out_dir: Seq<char>,
    pub phase: Phase,
    pub attempts: int,
}

/// The downloader's transition relation: one reported event against one
/// task state.  An event that does not fit the phase changes nothing; in
/// particular a finished task never changes again.
pub open spec fn step_model(m: TaskModel, e: Event) -> TaskModel {
    match (m.phase, e) {
        (Phase::AwaitingPage, Event::Page { text }) => match resolve_model(text, m.original) {
            ResolutionModel::Probe { origin } => TaskModel {
                phase: Phase::AwaitingProbe { origin },
                ..m
            },
            ResolutionModel::Direct { url } => TaskModel {
                phase: Phase::AwaitingExists {
                    url,
                    path: item_path_spec(m.out_dir, m.index, url),
                },
                ..m
            },
            ResolutionModel::NoAsset => TaskModel {
                phase: Phase::Done {
                    outcome: DownloadOutcome::Failed { reason: FailReason::NoAsset },
                },
                ..m
            },
        },
        (Phase::AwaitingPage, Event::PageUnavailable) => TaskModel {
            phase: Phase::Done {
                outcome: DownloadOutcome::Failed { reason: FailReason::PageUnavailable },
            },
            ..m
        },
        (Phase::AwaitingProbe { origin }, Event::Probe { status, location }) => {
            let url = probe_url(status, location, origin);
            TaskModel {
                phase: Phase::AwaitingExists {
                    url,
                    path: item_path_spec(m.out_dir, m.index, url),
                },
                ..m
            }
        },
        (Phase::AwaitingExists { url, path }, Event::Exists { exists }) => {
            if exists {
                TaskModel { phase: Phase::Done { outcome: DownloadOutcome::Skipped }, ..m }
            } else {
                TaskModel { phase: Phase::AwaitingFetch { url, path, attempt: 1 }, ..m }
            }
        },
        (Phase::AwaitingFetch { url, path, attempt }, Event::Fetch { ok }) => {
            if ok {
                TaskModel {
                    phase: Phase::Done { outcome: DownloadOutcome::Succeeded },
                    attempts: m.attempts + 1,
                    ..m
                }
            } else if attempt < 3 {
                TaskModel {
                    phase: Phase::AwaitingFetch { url, path, attempt: (attempt + 1) as u64 },
                    attempts: m.attempts + 1,
                    ..m
                }
            } else {
                TaskModel {
                    phase: Phase::Done {
                        outcome: DownloadOutcome::Failed { reason: FailReason::FetchExhausted },
                    },
                    attempts: m.attempts + 1,
                    ..m
                }
            }
        },
        _ => m,
    }
}

/// One item's download task: the verified state machine the driver feeds
/// with fetched pages, probe responses, existence checks and fetch
/// outcomes, and which decides resolution, skip, retry and the terminal
/// outcome.
#[derive(Debug)]
pub struct ItemTask {
    /// 0-based position within the gallery; the output file name is
    /// `index + 1`.
    pub index: usize,
    /// Original-mode flag of the run configuration.
    pub original: bool,
    /// Output directory of the gallery: `{outputRoot}/{sanitizedTitle}`.
    pub out_dir: String,
    /// Current phase.
    pub state: TaskState,
    /// Completed download-fetch attempts.
    pub attempts: u64,
}

impl ItemTask {
    pub open spec fn phase(&self) -> Phase {
        match self.state {
            TaskState::AwaitingPage => Phase::AwaitingPage,
            TaskState::AwaitingProbe { origin } => Phase::AwaitingProbe { origin: origin@ },
            TaskState::AwaitingExists { url, path } => Phase::AwaitingExists {
                url: url@,
                path: path@,
            },
            TaskState::AwaitingFetch { url, path, attempt } => Phase::AwaitingFetch {
                url: url@,
                path: path@,
                attempt,
            },
            TaskState::Done { outcome } => Phase::Done { outcome },
        }
    }

    pub open spec fn model(&self) -> TaskModel {
        TaskModel {
            index: self.index as int,
            original: self.original,
            out_dir: self.out_dir@,
            phase: self.phase(),
            attempts: self.attempts as int,
        }
    }

    /// Task well-formedness: the attempt counter stays within the cap of 3
    /// and agrees with the 1-based attempt number while fetching, and the
    /// 0-based index leaves room for the 1-based file name.
    pub open spec fn wf(&self) -> bool {
        &&& self.index < usize::MAX
        &&& self.attempts <= 3
        &&& match self.state {
            TaskState::AwaitingFetch { attempt, .. } => 1 <= attempt <= 3 && self.attempts
                == attempt - 1,
            TaskState::AwaitingPage => self.attempts == 0,
            TaskState::AwaitingProbe { .. } => self.attempts == 0,
            TaskState::AwaitingExists { .. } => self.attempts == 0,
            TaskState::Done { .. } => true,
        }
    }

    /// Start the task for the item at `index` (0-based) of a gallery whose
    /// output directory is `out_dir`.
    pub fn new(index: usize, original: bool, out_dir: String) -> (t: ItemTask)
        requires
            index < usize::MAX,
        ensures
            t.wf(),
            t.model() == (TaskModel {
                index: index as int,
                original,
                out_dir: out_dir@,
                phase: Phase::AwaitingPage,
                attempts: 0,
            }),
    {
        ItemTask { index, original, out_dir, state: TaskState::AwaitingPage, attempts: 0 }
    }

    /// Report the fetched item page.  Resolution decides the next phase:
    /// probe the original-resolution link, check the output path of the
    /// final URL, or fail with no asset.
    pub fn on_page(&mut self, page: &str)
        requires
            old(self).wf(),
            old(self).state matches TaskState::AwaitingPage,
        ensures
            final(self).wf(),
            final(self).model() == step_model(old(self).model(), Event::Page { text: page@ }),
    {
        match resolve_from_page(page, self.original) {
            Resolution::Probe { origin } => {
                self.state = TaskState::AwaitingProbe { origin };
            },
            Resolution::Direct { url } => {
                let path = item_path(self.out_dir.as_str(), self.index, url.as_str());
                self.state = TaskState::AwaitingExists { url, path };
            },
            Resolution::NoAsset => {
                self.state = TaskState::Done {
                    outcome: DownloadOutcome::Failed { reason: FailReason::NoAsset },
                };
            },
        }
    }

    /// Report that the item page could not be fetched: the item fails with
    /// no asset resolved and no download attempted.
    pub fn on_page_unavailable(&mut self)
        requires
            old(self).wf(),
            old(self).state matches TaskState::AwaitingPage,
        ensures
            final(self).wf(),
            final(self).model() == step_model(old(self).model(), Event::PageUnavailable),
    {
        self.state = TaskState::Done {
            outcome: DownloadOutcome::Failed { reason: FailReason::PageUnavailable },
        };
    }

    /// Report the probe response for the original-resolution link: a
    /// redirection's Location header is the final URL; any other response
    /// keeps the probed link itself.
    pub fn on_probe(&mut self, status: u16, location: Option<String>)
        requires
            old(self).wf(),
            old(self).state matches TaskState::AwaitingProbe { .. },
        ensures
            final(self).wf(),
            final(self).model() == step_model(
                old(self).model(),
                Event::Probe { status, location: location.deep_view() },
            ),
    {
        let origin: String = match &self.state {
            TaskState::AwaitingProbe { origin } => origin.clone(),
            _ => {
                proof {
                    assert(false);
                }
                String::new()
            },
        };
        let url = finish_probe(status, location, origin);
        let path = item_path(self.out_dir.as_str(), self.index, url.as_str());
        self.state = TaskState::AwaitingExists { url, path };
    }

    /// Report whether a file already exists at the target path.  An
    /// existing file ends the task `Skipped` — resumability: no download
    /// fetch is ever owed for it — and otherwise the first of up to 3
    /// fetch attempts is owed.
    pub fn on_exists(&mut self, exists: bool)
        requires
            old(self).wf(),
            old(self).state matches TaskState::AwaitingExists { .. },
        ensures
            final(self).wf(),
            final(self).model() == step_model(old(self).model(), Event::Exists { exists }),
    {
        if exists {
            self.state = TaskState::Done { outcome: DownloadOutcome::Skipped };
        } else {
            let pair: (String, String) = match &self.state {
                TaskState::AwaitingExists { url, path } => (url.clone(), path.clone()),
                _ => {
                    proof {
                        assert(false);
                    }
                    (String::new(), String::new())
                },
            };
            self.state = TaskState::AwaitingFetch { url: pair.0, path: pair.1, attempt: 1 };
        }
    }

    /// Report one download attempt — the fetch of the asset bytes and, on
    /// success, their write.  Success ends the task `Succeeded`; failure
    /// re-attempts until the cap of 3 attempts, then ends it `Failed`.
    pub fn on_fetch(&mut self, ok: bool)
        requires
            old(self).wf(),
            old(self).state matches TaskState::AwaitingFetch { .. },
        ensures
            final(self).wf(),
            final(self).model() == step_model(old(self).model(), Event::Fetch { ok }),
    {
        let attempt: u64 = match &self.state {
            TaskState::AwaitingFetch { attempt, .. } => *attempt,
            _ => {
                proof {
                    assert(false);
                }
                0
            },
        };
        self.attempts = self.attempts + 1;
        if ok {
            self.state = TaskState::Done { outcome: DownloadOutcome::Succeeded };
        } else if attempt < 3 {
            let pair: (String, String) = match &self.state {
                TaskState::AwaitingFetch { url, path, .. } => (url.clone(), path.clone()),
                _ => {
                    proof {
                        assert(false);
                    }
                    (String::new(), String::new())
                },
            };
            self.state = TaskState::AwaitingFetch {
                url: pair.0,
                path: pair.1,
                attempt: attempt + 1,
            };
        } else {
            self.state = TaskState::Done {
                outcome: DownloadOutcome::Failed { reason: FailReason::FetchExhausted },
            };
        }
    }
}

/// Iterated transitions: apply `evs` to `m`, in order.
pub open spec fn run_steps(m: TaskModel, evs: Seq<Event>) -> TaskModel
    decreases evs.len(),
{
    if evs.len() == 0 {
        m
    } else {
        run_steps(step_model(m, evs.first()), evs.drop_first())
    }
}

/// A finished task admits no further change: any sequence of later events
/// leaves it exactly as it is.
pub proof fn lemma_done_is_final(m: TaskModel, evs: Seq<Event>)
    requires
        m.phase matches Phase::Done { .. },
    ensures
        run_steps(m, evs) == m,
    decreases evs.len(),
{
    if evs.len() > 0 {
        assert(step_model(m, evs.first()) == m);
        lemma_done_is_final(m, evs.drop_first());
    }
}

/// Resumability: a task whose output file already exists ends `Skipped` at
/// once, its download-fetch count unchanged — the download step performs
/// no network fetch — and no later event changes it.
pub proof fn lemma_existing_file_skips(m: TaskModel, later: Seq<Event>)
    requires
        m.phase matches Phase::AwaitingExists { .. },
    ensures
        step_model(m, Event::Exists { exists: true }).phase == (Phase::Done {
            outcome: DownloadOutcome::Skipped,
        }),
        step_model(m, Event::Exists { exists: true }).attempts == m.attempts,
        run_steps(step_model(m, Event::Exists { exists: true }), later) == step_model(
            m,
            Event::Exists { exists: true },
        ),
{
    lemma_done_is_final(step_model(m, Event::Exists { exists: true }), later);
}

/// Bounded retry, success within the cap: a download whose first two fetch
/// attempts fail and whose third succeeds ends `Succeeded`, with exactly 3
/// fetch attempts recorded.
pub proof fn lemma_retry_succeeds_on_third(m: TaskModel)
    requires
        m.phase matches Phase::AwaitingFetch { attempt, .. } && attempt == 1,
        m.attempts == 0,
    ensures
        ({
            let evs = seq![
                Event::Fetch { ok: false },
                Event::Fetch { ok: false },
                Event::Fetch { ok: true },
            ];
            run_steps(m, evs).phase == (Phase::Done { outcome: DownloadOutcome::Succeeded })
                && run_steps(m, evs).attempts == 3
        }),
{
    let f = Event::Fetch { ok: false };
    let t = Event::Fetch { ok: true };
    let evs = seq![f, f, t];
    let m1 = step_model(m, f);
    let m2 = step_model(m1, f);
    let m3 = step_model(m2, t);
    assert(evs.drop_first() =~= seq![f, t]);
    assert(seq![f, t].drop_first() =~= seq![t]);
    assert(seq![t].drop_first() =~= Seq::<Event>::empty());
    assert(run_steps(m, evs) == run_steps(m1, seq![f, t]));
    assert(run_steps(m1, seq![f, t]) == run_steps(m2, seq![t]));
    assert(run_steps(m2, seq![t]) == run_steps(m3, Seq::<Event>::empty()));
}

/// Bounded retry, exhaustion: a download all 3 of whose fetch attempts
/// fail ends `Failed`, with exactly 3 attempts recorded, and at no point
/// along the way is the task `Succeeded` — and the driver writes to the
/// target path only on the transition to `Succeeded`, so no file appears
/// there.
pub proof fn lemma_retry_exhausted(m: TaskModel)
    requires
        m.phase matches Phase::AwaitingFetch { attempt, .. } && attempt == 1,
        m.attempts == 0,
    ensures
        ({
            let evs = seq![
                Event::Fetch { ok: false },
                Event::Fetch { ok: false },
                Event::Fetch { ok: false },
            ];
            run_steps(m, evs).phase == (Phase::Done {
                outcome: DownloadOutcome::Failed { reason: FailReason::FetchExhausted },
            }) && run_steps(m, evs).attempts == 3 && forall|k: int|
                0 <= k <= 3 ==> !((#[trigger] run_steps(m, evs.take(k))).phase matches Phase::Done {
                    outcome: DownloadOutcome::Succeeded,
                })
        }),
{
    let f = Event::Fetch { ok: false };
    let evs = seq![f, f, f];
    let m1 = step_model(m, f);
    let m2 = step_model(m1, f);
    let m3 = step_model(m2, f);
    assert(evs.drop_first() =~= seq![f, f]);
    assert(seq![f, f].drop_first() =~= seq![f]);
    assert(seq![f].drop_first() =~= Seq::<Event>::empty());
    assert(run_steps(m, evs) == run_steps(m1, seq![f, f]));
    assert(run_steps(m1, seq![f, f]) == run_steps(m2, seq![f]));
    assert(run_steps(m2, seq![f]) == run_steps(m3, Seq::<Event>::empty()));
    assert(evs.take(0) =~= Seq::<Event>::empty());
    assert(evs.take(1) =~= seq![f]);
    assert(evs.take(2) =~= seq![f, f]);
    assert(evs.take(3) =~= evs);
    assert(run_steps(m, evs.take(0)) == m);
    assert(run_steps(m, seq![f]) == run_steps(m1, Seq::<Event>::empty()));
    assert(run_steps(m, seq![f, f]) == run_steps(m1, seq![f]));
    assert(run_steps(m1, seq![f]) == run_steps(m2, Seq::<Event>::empty()));
}

/// `Succeeded` is reached only through a successful fetch attempt: no
/// event other than `Fetch { ok: true }`, and no phase other than
/// `AwaitingFetch`, turns an unfinished task into `Succeeded`.
pub proof fn lemma_succeeded_needs_successful_fetch(m: TaskModel, e: Event)
    requires
        step_model(m, e).phase matches Phase::Done { outcome: DownloadOutcome::Succeeded },
        !(m.phase matches Phase::Done { outcome: DownloadOutcome::Succeeded }),
    ensures
        m.phase matches Phase::AwaitingFetch { .. },
        e == (Event::Fetch { ok: true }),
{
}

} // verus!
