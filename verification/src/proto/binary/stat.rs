//! The response to `stat`: a run of frames, one for each statistic, that a
//! frame with an empty key ends.

use crate::proto::binary::packet::{Response, ResponseView};
use crate::proto::binary::step::Step;
use crate::proto::error::{Error, ErrorKind, ErrorView, MemCachedResult};
use crate::proto::text::{text_of, utf8_text};
use vstd::prelude::*;

verus! {

/// The number of statistics after which a run that has not ended is given
/// up: a server that never sends the last frame cannot make the client
/// collect without bound.
pub const STAT_ENTRIES_MAX: usize = 0x1_0000;

/// The error for a run of statistics that is longer than
/// [`STAT_ENTRIES_MAX`].
pub open spec fn too_many_stats() -> ErrorView {
    ErrorView { kind: ErrorKind::MalformedFrame, desc: "too many statistics"@, detail: None }
}

/// The error for a statistic whose name or value is not UTF-8 text.
pub open spec fn stat_not_text() -> ErrorView {
    ErrorView { kind: ErrorKind::OtherError, desc: "statistic is not text"@, detail: None }
}

/// The names and values of statistics, as bytes and in the order of their
/// frames.
pub type RawStats = Seq<(Seq<u8>, Seq<u8>)>;

/// The names and values of statistics, as text.
pub type TextStats = Seq<(Seq<char>, Seq<char>)>;

/// Whether every name and every value among `raw` is UTF-8 text.
pub open spec fn all_text(raw: RawStats) -> bool {
    forall|i: int|
        0 <= i < raw.len() ==> text_of(#[trigger] raw[i].0) is Some && text_of(raw[i].1) is Some
}

/// The statistics as text, in the same order; an error where a name or a
/// value is not text.
pub open spec fn spec_stats_text(raw: RawStats) -> Result<TextStats, ErrorView> {
    if all_text(raw) {
        Ok(Seq::new(raw.len(), |i: int| (text_of(raw[i].0).unwrap(), text_of(raw[i].1).unwrap())))
    } else {
        Err(stat_not_text())
    }
}

/// What the next frame makes of the statistics collected so far. An error
/// ends the run with that error. A frame with an empty key ends it with the
/// statistics, as text. Any other frame adds a statistic, unless there are
/// [`STAT_ENTRIES_MAX`] of them already.
pub open spec fn spec_stat_step(raw: RawStats, event: Result<ResponseView, ErrorView>) -> Step<
    RawStats,
    Result<TextStats, ErrorView>,
> {
    match event {
        Err(e) => Step::Done(Err(e)),
        Ok(response) => if response.key.len() == 0 {
            Step::Done(spec_stats_text(raw))
        } else if raw.len() >= STAT_ENTRIES_MAX {
            Step::Done(Err(too_many_stats()))
        } else {
            Step::More(raw.push((response.key, response.value)))
        },
    }
}

/// The texts of a list of statistics.
pub open spec fn texts(stats: Seq<(String, String)>) -> TextStats {
    Seq::new(stats.len(), |i: int| (stats[i].0@, stats[i].1@))
}

/// The collector of the response to `stat`.
pub struct Stats {
    entries: Vec<(Vec<u8>, Vec<u8>)>,
}

impl View for Stats {
    type V = RawStats;

    closed spec fn view(&self) -> RawStats {
        Seq::new(self.entries@.len(), |i: int| (self.entries@[i].0@, self.entries@[i].1@))
    }
}

impl Stats {
    #[verifier::type_invariant]
    spec fn bounded(&self) -> bool {
        self.entries@.len() <= STAT_ENTRIES_MAX
    }

    /// The collector before the first frame.
    pub fn new() -> (r: Stats)
        ensures
            r@ == RawStats::empty(),
    {
        let r = Stats { entries: Vec::new() };
        assert(r@ =~= RawStats::empty());
        r
    }

    /// The number of statistics collected so far.
    pub fn len(&self) -> (r: usize)
        ensures
            r == self@.len(),
            r <= STAT_ENTRIES_MAX,
    {
        proof {
            use_type_invariant(self);
        }
        self.entries.len()
    }

    /// Hands the next frame of the response, or the error that came in its
    /// place, to the collector.
    pub fn step(self, event: MemCachedResult<Response>) -> (r: Step<
        Stats,
        MemCachedResult<Vec<(String, String)>>,
    >)
        ensures
            match r {
                Step::More(next) => spec_stat_step(
                    self@,
                    crate::proto::binary::packet::decoded(event),
                ) == Step::<RawStats, Result<TextStats, ErrorView>>::More(next@),
                Step::Done(Ok(stats)) => spec_stat_step(
                    self@,
                    crate::proto::binary::packet::decoded(event),
                ) == Step::<RawStats, Result<TextStats, ErrorView>>::Done(Ok(texts(stats@))),
                Step::Done(Err(e)) => spec_stat_step(
                    self@,
                    crate::proto::binary::packet::decoded(event),
                ) == Step::<RawStats, Result<TextStats, ErrorView>>::Done(Err(e@)),
            },
    {
        proof {
            use_type_invariant(&self);
        }
        match event {
            Err(e) => Step::Done(Err(e)),
            Ok(response) => {
                if response.key.len() == 0 {
                    Step::Done(stats_text(&self))
                } else if self.entries.len() >= STAT_ENTRIES_MAX {
                    Step::Done(
                        Err(Error::new(ErrorKind::MalformedFrame, "too many statistics", None)),
                    )
                } else {
                    let ghost before = self@;
                    let mut entries = self.entries;
                    entries.push((response.key, response.value));
                    let next = Stats { entries };
                    assert(next@ =~= before.push((response@.key, response@.value)));
                    Step::More(next)
                }
            },
        }
    }
}

/// Reads the collected statistics as text.
fn stats_text(stats: &Stats) -> (r: MemCachedResult<Vec<(String, String)>>)
    ensures
        match r {
            Ok(list) => spec_stats_text(stats@) == Ok::<TextStats, ErrorView>(texts(list@)),
            Err(e) => spec_stats_text(stats@) == Err::<TextStats, ErrorView>(e@),
        },
{
    let mut out: Vec<(String, String)> = Vec::new();
    let mut i: usize = 0;
    while i < stats.entries.len()
        invariant
            i <= stats.entries@.len(),
            out@.len() == i,
            forall|j: int|
                0 <= j < i ==> text_of(#[trigger] stats@[j].0) == Some(out@[j].0@) && text_of(
                    stats@[j].1,
                ) == Some(out@[j].1@),
        decreases stats.entries@.len() - i,
    {
        let name = utf8_text(stats.entries[i].0.as_slice());
        let value = utf8_text(stats.entries[i].1.as_slice());
        match (name, value) {
            (Some(name), Some(value)) => {
                out.push((name, value));
            },
            _ => {
                assert(!(text_of(stats@[i as int].0) is Some && text_of(stats@[i as int].1)
                    is Some));
                return Err(Error::new(ErrorKind::OtherError, "statistic is not text", None));
            },
        }
        i += 1;
    }
    assert(all_text(stats@));
    assert(texts(out@) =~= spec_stats_text(stats@)->Ok_0);
    Ok(out)
}

/// A run of statistics ends: a frame with an empty key ends it with what
/// was collected, also where that is nothing, and no run goes on beyond
/// [`STAT_ENTRIES_MAX`] statistics.
pub proof fn lemma_stat_run_ends(raw: RawStats, event: Result<ResponseView, ErrorView>)
    ensures
        event matches Ok(response) && response.key.len() == 0 ==> spec_stat_step(raw, event)
            == Step::<RawStats, Result<TextStats, ErrorView>>::Done(spec_stats_text(raw)),
        spec_stats_text(RawStats::empty()) == Ok::<TextStats, ErrorView>(TextStats::empty()),
        spec_stat_step(raw, event) matches Step::More(next) ==> next.len() == raw.len() + 1
            && next.len() <= STAT_ENTRIES_MAX,
        raw.len() >= STAT_ENTRIES_MAX ==> spec_stat_step(raw, event) is Done,
{
    assert(spec_stats_text(RawStats::empty())->Ok_0 =~= TextStats::empty());
}

/// What a run of frames, handed over one after the other, makes of the
/// statistics collected so far. When the run is over, the frames that
/// follow are not looked at.
pub open spec fn spec_stat_run(raw: RawStats, events: Seq<Result<ResponseView, ErrorView>>) -> Step<
    RawStats,
    Result<TextStats, ErrorView>,
>
    decreases events.len(),
{
    if events.len() == 0 {
        Step::More(raw)
    } else {
        match spec_stat_run(raw, events.drop_last()) {
            Step::More(collected) => spec_stat_step(collected, events.last()),
            Step::Done(result) => Step::Done(result),
        }
    }
}

/// The frames of a response, each as an event without error.
pub open spec fn arrivals(frames: Seq<ResponseView>) -> Seq<Result<ResponseView, ErrorView>> {
    Seq::new(frames.len(), |i: int| Ok(frames[i]))
}

/// The names and values that the frames of a response carry.
pub open spec fn carried(frames: Seq<ResponseView>) -> RawStats {
    Seq::new(frames.len(), |i: int| (frames[i].key, frames[i].value))
}

/// While the frames of a response name a statistic each, the run goes on
/// and has collected what they carry.
pub proof fn lemma_stat_run_collects(frames: Seq<ResponseView>)
    requires
        frames.len() <= STAT_ENTRIES_MAX,
        forall|i: int| 0 <= i < frames.len() ==> (#[trigger] frames[i]).key.len() > 0,
    ensures
        spec_stat_run(RawStats::empty(), arrivals(frames)) == Step::<
            RawStats,
            Result<TextStats, ErrorView>,
        >::More(carried(frames)),
    decreases frames.len(),
{
    if frames.len() == 0 {
        assert(carried(frames) =~= RawStats::empty());
    } else {
        let before = frames.drop_last();
        lemma_stat_run_collects(before);
        assert(arrivals(frames).drop_last() =~= arrivals(before));
        assert(arrivals(frames).last() == Ok::<ResponseView, ErrorView>(frames.last()));
        assert(carried(before).push((frames.last().key, frames.last().value)) =~= carried(frames));
    }
}

/// The response to `stat` is read to its end and gives every statistic
/// that it carries, in order, also where it carries none: for frames that
/// name a statistic each, followed by a frame with an empty key, the run
/// ends at that frame, with the statistics as text.
pub proof fn lemma_stat_run_returns_all(frames: Seq<ResponseView>, last: ResponseView)
    requires
        frames.len() <= STAT_ENTRIES_MAX,
        forall|i: int| 0 <= i < frames.len() ==> (#[trigger] frames[i]).key.len() > 0,
        last.key.len() == 0,
    ensures
        spec_stat_run(RawStats::empty(), arrivals(frames.push(last))) == Step::<
            RawStats,
            Result<TextStats, ErrorView>,
        >::Done(spec_stats_text(carried(frames))),
        frames.len() == 0 ==> spec_stats_text(carried(frames)) == Ok::<TextStats, ErrorView>(
            TextStats::empty(),
        ),
{
    lemma_stat_run_collects(frames);
    let all = frames.push(last);
    assert(arrivals(all).drop_last() =~= arrivals(frames));
    assert(arrivals(all).last() == Ok::<ResponseView, ErrorView>(last));
    if frames.len() == 0 {
        assert(carried(frames) =~= RawStats::empty());
        assert(spec_stats_text(RawStats::empty())->Ok_0 =~= TextStats::empty());
    }
}

} // verus!
