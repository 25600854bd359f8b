use vstd::prelude::*;

verus! {

/// What the status refresh task asks for: the widget list and the current desktop.
pub struct StatusSnapshot {
    pub widgets: Vec<String>,
    pub desktop: usize,
}

/// The dispatcher's end of the status channels: the text on the bar and whether
/// the refresh task is waiting for a snapshot.
pub struct StatusLink {
    pub bar_text: String,
    pub request_pending: bool,
}

/// The text a poll leaves on the bar: a finished string replaces it while the bar is enabled.
pub open spec fn next_text(text: Seq<char>, finished: Option<Seq<char>>, bar_enabled: bool) -> Seq<char> {
    match finished {
        Some(t) => if bar_enabled {
            t
        } else {
            text
        },
        None => text,
    }
}

/// A link's state as (bar text, request pending).
pub open spec fn noted(v: (Seq<char>, bool)) -> (Seq<char>, bool) {
    (v.0, true)
}

pub open spec fn polled(v: (Seq<char>, bool), finished: Option<Seq<char>>, bar_enabled: bool) -> (
    Seq<char>,
    bool,
) {
    (next_text(v.0, finished, bar_enabled), false)
}

/// Whether a poll from state `v` hands a snapshot to the refresh task.
pub open spec fn answers(v: (Seq<char>, bool)) -> bool {
    v.1
}

pub open spec fn opt_view(o: Option<String>) -> Option<Seq<char>> {
    match o {
        Some(s) => Some(s@),
        None => None,
    }
}

impl StatusLink {
    pub open spec fn view(&self) -> (Seq<char>, bool) {
        (self.bar_text@, self.request_pending)
    }

    pub fn new(text: String) -> (r: StatusLink)
        ensures
            r.view() == (text@, false),
    {
        StatusLink { bar_text: text, request_pending: false }
    }

    /// The refresh task asked for a snapshot; the dispatcher answers it at its next poll.
    pub fn note_request(&mut self)
        ensures
            final(self).view() == noted(old(self).view()),
    {
        self.request_pending = true;
    }

    /// The dispatcher's poll, once per tick and without blocking: a finished string
    /// becomes the bar text while the bar is enabled, and a pending request is
    /// answered with the widget list and the desktop index.
    pub fn poll(
        &mut self,
        finished: Option<String>,
        bar_enabled: bool,
        widgets: &Vec<String>,
        desktop: usize,
    ) -> (r: Option<StatusSnapshot>)
        ensures
            final(self).view() == polled(old(self).view(), opt_view(finished), bar_enabled),
            r is Some <==> answers(old(self).view()),
            r matches Some(s) ==> s.widgets@.map_values(|w: String| w@) == widgets@.map_values(
                |w: String| w@,
            ) && s.desktop == desktop,
    {
        match finished {
            Some(t) => {
                if bar_enabled {
                    self.bar_text = t;
                }
            },
            None => {},
        }
        if self.request_pending {
            self.request_pending = false;
            let copy = copy_strings(widgets);
            Some(StatusSnapshot { widgets: copy, desktop })
        } else {
            None
        }
    }
}

fn copy_strings(v: &Vec<String>) -> (r: Vec<String>)
    ensures
        r@.map_values(|w: String| w@) == v@.map_values(|w: String| w@),
{
    let mut r: Vec<String> = Vec::new();
    let mut i: usize = 0;
    while i < v.len()
        invariant
            i <= v@.len(),
            r@.map_values(|w: String| w@) == v@.take(i as int).map_values(|w: String| w@),
        decreases v.len() - i,
    {
        let ghost old_r = r@;
        let c = v[i].clone();
        assert(c@ == v@[i as int]@);
        r.push(c);
        proof {
            assert(r@.map_values(|w: String| w@) =~= old_r.map_values(|w: String| w@).push(v@[i as int]@));
            assert(r@.map_values(|w: String| w@) =~= v@.take(i + 1).map_values(|w: String| w@));
        }
        i = i + 1;
    }
    proof {
        assert(v@.take(i as int) =~= v@);
    }
    r
}

/// A request that no poll has answered yet is answered by the next poll, whatever
/// that poll also receives; the poll that answers it leaves nothing pending, and a
/// request that comes in after a poll is answered by the poll after that.
pub proof fn lemma_request_answered_next_tick(
    v: (Seq<char>, bool),
    finished: Option<Seq<char>>,
    later: Option<Seq<char>>,
    bar_enabled: bool,
)
    ensures
        answers(noted(v)),
        !answers(polled(noted(v), finished, bar_enabled)),
        answers(noted(polled(v, finished, bar_enabled))),
        polled(noted(polled(v, finished, bar_enabled)), later, bar_enabled).0 == next_text(
            next_text(v.0, finished, bar_enabled),
            later,
            bar_enabled,
        ),
{
}

/// How the main loop waits before its next tick.
#[derive(Clone, Copy, Debug, PartialEq, Eq, Structural)]
pub struct Pace {
    pub sleep_ms: u64,
    pub overruns: u32,
    pub warn: bool,
}

/// Consecutive overlong ticks after which the loop warns.
pub const OVERRUN_WARNING: u32 = 5;

/// The main loop sleeps for what is left of its tick; a tick that took the whole
/// interval or more skips the sleep and counts as an overrun, and a run of more than
/// `OVERRUN_WARNING` of them is reported.
pub fn pace(tick_ms: u64, elapsed_ms: u64, overruns: u32) -> (r: Pace)
    ensures
        elapsed_ms < tick_ms ==> r.sleep_ms == tick_ms - elapsed_ms && r.overruns == 0,
        elapsed_ms >= tick_ms ==> r.sleep_ms == 0 && r.overruns == (if overruns < u32::MAX {
            overruns + 1
        } else {
            overruns as int
        }),
        r.warn == (r.overruns > OVERRUN_WARNING),
{
    let (sleep_ms, count) = if elapsed_ms < tick_ms {
        (tick_ms - elapsed_ms, 0u32)
    } else if overruns < u32::MAX {
        (0u64, overruns + 1)
    } else {
        (0u64, overruns)
    };
    Pace { sleep_ms, overruns: count, warn: count > OVERRUN_WARNING }
}

/// The refresh task's pause after rendering: what is left of its interval, or
/// `None` when rendering took the whole interval.
pub fn refresh_pause(interval_ms: u64, elapsed_ms: u64) -> (r: Option<u64>)
    ensures
        elapsed_ms < interval_ms ==> r == Some((interval_ms - elapsed_ms) as u64),
        elapsed_ms >= interval_ms ==> r is None,
{
    if elapsed_ms < interval_ms {
        Some(interval_ms - elapsed_ms)
    } else {
        None
    }
}

} // verus!
