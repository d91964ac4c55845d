//! The render-output poller's state: whether a watcher runs, which page
//! artifacts are loaded, and when a render was last taken over. Pages are
//! only ever replaced as a whole, never partially.

use vstd::prelude::*;

verus! {

/// Where the preview stands.
#[derive(Debug, PartialEq, Eq, Structural)]
pub enum RenderPhase {
    /// No file is open, nothing watches for output.
    Idle,
    /// A watcher runs but no page has been loaded yet.
    Watching,
    /// At least one rendered page is on show.
    Ready,
}

/// Whether a reload is due: the artifact exists and is newer than the
/// last render taken over, or none was ever taken over.
pub open spec fn reload_due_spec(artifact_mtime: Option<u64>, last_rendered: Option<u64>) -> bool {
    match (artifact_mtime, last_rendered) {
        (Option::Some(mt), Option::Some(rt)) => mt > rt,
        (Option::Some(mt), Option::None) => true,
        _ => false,
    }
}

/// Decides whether the artifact's modification time asks for a reload.
pub fn reload_due(artifact_mtime: Option<u64>, last_rendered: Option<u64>) -> (r: bool)
    ensures
        r == reload_due_spec(artifact_mtime, last_rendered),
{
    match (artifact_mtime, last_rendered) {
        (Option::Some(mt), Option::Some(rt)) => mt > rt,
        (Option::Some(_), Option::None) => true,
        _ => false,
    }
}

/// How many leading reads succeeded before the first gap.
pub open spec fn some_prefix_len<T>(s: Seq<Option<T>>) -> nat
    decreases s.len(),
{
    if s.len() == 0 || s[0] is None {
        0
    } else {
        1 + some_prefix_len(s.drop_first())
    }
}

proof fn lemma_some_prefix_len<T>(s: Seq<Option<T>>, k: int)
    requires
        0 <= k <= s.len(),
        forall|j: int| 0 <= j < k ==> s[j] is Some,
        k < s.len() ==> s[k] is None,
    ensures
        some_prefix_len(s) == k,
    decreases k,
{
    if k > 0 {
        lemma_some_prefix_len(s.drop_first(), k - 1);
    }
}

/// Keeps the pages read for indices 1, 2, … up to the first index whose
/// artifact could not be read: `reads[i]` holds the bytes of the page
/// numbered `i + 1`, and a gap silently truncates the page set.
pub fn pages_until_gap(reads: Vec<Option<Vec<u8>>>) -> (r: Vec<Vec<u8>>)
    ensures
        r@.len() == some_prefix_len(reads@),
        forall|i: int| 0 <= i < r@.len() ==> reads@[i] == Option::Some(r@[i]),
{
    let mut rem = reads;
    let mut out: Vec<Vec<u8>> = Vec::new();
    proof {
        assert(rem@ =~= reads@.skip(0));
    }
    while rem.len() > 0
        invariant
            out@.len() + rem@.len() == reads@.len(),
            rem@ == reads@.skip(out@.len() as int),
            forall|j: int| 0 <= j < out@.len() ==> reads@[j] == Option::Some(out@[j]),
        decreases rem@.len(),
    {
        let ghost i = out@.len() as int;
        let x = rem.remove(0);
        proof {
            assert(x == reads@[i]);
            assert(rem@ =~= reads@.skip(i + 1));
        }
        match x {
            Option::Some(p) => {
                out.push(p);
            },
            Option::None => {
                proof {
                    lemma_some_prefix_len(reads@, i);
                }
                return out;
            },
        }
    }
    proof {
        lemma_some_prefix_len(reads@, out@.len() as int);
    }
    out
}

/// The render-output poller's state.
pub struct RenderState {
    /// Whether an external watcher process is running.
    pub watching: bool,
    /// Whether a reload is in flight, so that ticks do not pile up.
    pub is_rendering: bool,
    /// The rendered pages on show, in page order.
    pub pages: Vec<Vec<u8>>,
    /// When the shown render was taken over, if one ever was.
    pub last_rendered: Option<u64>,
}

impl RenderState {
    /// Which phase the state is in.
    pub open spec fn phase(self) -> RenderPhase {
        if !self.watching {
            RenderPhase::Idle
        } else if self.pages@.len() == 0 {
            RenderPhase::Watching
        } else {
            RenderPhase::Ready
        }
    }

    /// Reads off which phase the state is in.
    pub fn current_phase(&self) -> (r: RenderPhase)
        ensures
            r == self.phase(),
    {
        if !self.watching {
            RenderPhase::Idle
        } else if self.pages.len() == 0 {
            RenderPhase::Watching
        } else {
            RenderPhase::Ready
        }
    }

    /// A fresh render state: idle, nothing loaded.
    pub fn new() -> (r: RenderState)
        ensures
            !r.watching,
            !r.is_rendering,
            r.pages@ == Seq::<Vec<u8>>::empty(),
            r.last_rendered is None,
            r.phase() == RenderPhase::Idle,
    {
        let r = RenderState {
            watching: false,
            is_rendering: false,
            pages: Vec::new(),
            last_rendered: Option::None,
        };
        proof {
            assert(r.pages@ =~= Seq::<Vec<u8>>::empty());
        }
        r
    }

    /// The reset a newly opened file performs: prior pages and timestamps
    /// are dropped, and the state watches when the watcher could be
    /// spawned, else falls back to idle.
    pub fn start_watching(&mut self, spawned: bool)
        ensures
            final(self).watching == spawned,
            !final(self).is_rendering,
            final(self).pages@ == Seq::<Vec<u8>>::empty(),
            final(self).last_rendered is None,
            final(self).phase() == (if spawned {
                RenderPhase::Watching
            } else {
                RenderPhase::Idle
            }),
    {
        self.watching = spawned;
        self.is_rendering = false;
        self.pages = Vec::new();
        self.last_rendered = Option::None;
        proof {
            assert(self.pages@ =~= Seq::<Vec<u8>>::empty());
        }
    }

    /// Marks a reload in flight, so that further ticks wait for it.
    pub fn begin_reload(&mut self)
        ensures
            *final(self) == (RenderState { is_rendering: true, ..*old(self) }),
    {
        self.is_rendering = true;
    }

    /// Takes over a finished reload: if and only if it produced at least
    /// one page, the page sequence is replaced as a whole and the
    /// timestamp advances; a fully failed read leaves both untouched.
    pub fn apply_render(&mut self, result: Result<Vec<Vec<u8>>, String>, now: u64)
        ensures
            !final(self).is_rendering,
            final(self).watching == old(self).watching,
            match result {
                Result::Ok(pages) => if pages@.len() > 0 {
                    &&& final(self).pages == pages
                    &&& final(self).last_rendered == Option::Some(now)
                } else {
                    &&& final(self).pages == old(self).pages
                    &&& final(self).last_rendered == old(self).last_rendered
                },
                Result::Err(_) => {
                    &&& final(self).pages == old(self).pages
                    &&& final(self).last_rendered == old(self).last_rendered
                },
            },
    {
        self.is_rendering = false;
        match result {
            Result::Ok(pages) => {
                if pages.len() > 0 {
                    self.pages = pages;
                    self.last_rendered = Option::Some(now);
                }
            },
            Result::Err(_) => {},
        }
    }
}

} // verus!
