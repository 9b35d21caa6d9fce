//! One run over the asset list: planning, recording each asset's fetch, and
//! the flushes to storage that the batch size and the end of the list call for.

use vstd::prelude::*;
use crate::calendar::{Date, Timestamp};
use crate::frame::{PriceFrame, PRICE_MAX};
use crate::planner::{plan_range, planned_range};
use crate::retry::{FetchOutcome, MAX_RETRIES};

verus! {

/// An asset whose prices are kept, with its watermark.
pub struct Asset {
    pub id: i64,
    pub symbol: String,
    pub last_updated: Option<Date>,
}

impl Asset {
    /// The watermark, where there is one, is a valid date.
    pub open spec fn wf(self) -> bool {
        match self.last_updated {
            Some(d) => d.wf(),
            None => true,
        }
    }
}

/// Where a run stands.
#[derive(Clone, Copy, Debug, PartialEq, Eq, Structural)]
pub enum Phase {
    /// Taking assets one after another.
    Assets,
    /// The buffered rows are to be written.
    Upserting,
    /// The rows were written; the pending assets' watermarks are to be set.
    Marking,
    /// The final flush is over and the run state cleared.
    Done,
}

/// `record` took the outcome of fetching asset `id`, moved the run from
/// `before` to `after`, and asked for a flush or not.
pub open spec fn recorded<P>(before: Updater<P>, id: i64, outcome: FetchOutcome<P>, after: Updater<P>, flush: bool) -> bool {
    &&& after.today == before.today
    &&& after.assets@ == before.assets@
    &&& after.fetched@ == if outcome is Fetched {
        before.fetched@.insert(id)
    } else {
        before.fetched@
    }
    &&& match outcome {
        FetchOutcome::Fetched(f) => {
            &&& after.prices.rows() == before.prices.rows() + f.rows()
            &&& flush == (after.prices.length >= PRICE_MAX)
            &&& flush ==> after.phase == Phase::Upserting
                && after.deferred == Some(id)
                && after.updated_ids@ == before.updated_ids@
            &&& !flush ==> after.phase == Phase::Assets
                && after.updated_ids@ == before.updated_ids@.push(id)
        },
        _ => {
            &&& !flush
            &&& after.phase == Phase::Assets
            &&& after.prices == before.prices
            &&& after.updated_ids@ == before.updated_ids@
        },
    }
}

/// `next_asset` took `r` and moved the run from `before` to `after`.
pub open spec fn took<P>(before: Updater<P>, after: Updater<P>, r: Option<(Asset, Option<(Timestamp, Timestamp)>)>) -> bool {
    &&& after.today == before.today
    &&& after.prices == before.prices
    &&& after.updated_ids@ == before.updated_ids@
    &&& after.fetched == before.fetched
    &&& before.assets@.len() == 0 ==> r is None && after.phase == Phase::Upserting
        && after.last_flush && after.assets@.len() == 0
    &&& before.assets@.len() > 0 ==> (r matches Some((a, range))
        && a == before.assets@.last()
        && after.assets@ == before.assets@.drop_last()
        && after.phase == Phase::Assets
        && range == planned_range(before.today, a.last_updated))
}

/// Writing the rows succeeded or not (`ok`), moving the run from `before` to `after`.
pub open spec fn upsert_done<P>(before: Updater<P>, ok: bool, after: Updater<P>, mark: bool) -> bool {
    &&& after.today == before.today
    &&& after.fetched == before.fetched
    &&& mark == ok
    &&& ok ==> after.phase == Phase::Marking
        && after.prices.rows().len() == 0
        && after.updated_ids@ == before.updated_ids@
        && after.assets@ == before.assets@
        && after.deferred == before.deferred
        && after.last_flush == before.last_flush
    &&& !ok && !before.last_flush ==> after.phase == Phase::Assets
        && after.prices == before.prices
        && after.assets@ == before.assets@
        && after.updated_ids@ == match before.deferred {
            Some(id) => before.updated_ids@.push(id),
            None => before.updated_ids@,
        }
    &&& !ok && before.last_flush ==> after.phase == Phase::Done && after.prices.rows().len() == 0
        && after.updated_ids@.len() == 0
}

/// Setting the watermarks succeeded or not (`ok`), moving the run from `before` to `after`.
pub open spec fn mark_done<P>(before: Updater<P>, ok: bool, after: Updater<P>) -> bool {
    &&& after.today == before.today
    &&& after.fetched == before.fetched
    &&& !before.last_flush ==> after.phase == Phase::Assets
        && after.prices == before.prices
        && after.assets@ == before.assets@
        && after.updated_ids@ == {
            let kept = if ok { Seq::<i64>::empty() } else { before.updated_ids@ };
            match before.deferred {
                Some(id) => kept.push(id),
                None => kept,
            }
        }
    &&& before.last_flush ==> after.phase == Phase::Done && after.prices.rows().len() == 0
        && after.updated_ids@.len() == 0
}

/// The state of a run.
pub struct Updater<P> {
    /// The moment the run started; its date becomes the new watermark.
    pub today: Timestamp,
    /// Assets not yet taken.
    pub assets: Vec<Asset>,
    /// Rows fetched and not yet written.
    pub prices: PriceFrame<P>,
    /// Assets fetched whose watermark is still to be set.
    pub updated_ids: Vec<i64>,
    pub max_retries: u32,
    pub phase: Phase,
    /// The asset whose rows started the current flush; it becomes pending
    /// once that flush is over.
    pub deferred: Option<i64>,
    /// Whether the current flush is the one at the end of the run.
    pub last_flush: bool,
    /// The ids of the assets whose rows were fetched in this run.
    pub fetched: Ghost<Set<i64>>,
}

impl<P> Updater<P> {
    pub open spec fn wf(self) -> bool {
        &&& self.today.wf()
        &&& self.prices.wf()
        &&& forall|i: int| 0 <= i < self.assets@.len() ==> (#[trigger] self.assets@[i]).wf()
        &&& self.phase == Phase::Assets ==> self.deferred is None && !self.last_flush
        &&& self.last_flush ==> self.deferred is None
        &&& self.pending_were_fetched()
    }

    /// Every asset waiting for its watermark, or for the flush it began to
    /// end, had its rows fetched in this run.
    pub open spec fn pending_were_fetched(self) -> bool {
        &&& forall|i: int| 0 <= i < self.updated_ids@.len() ==> self.fetched@.contains(#[trigger] self.updated_ids@[i])
        &&& self.deferred matches Some(id) ==> self.fetched@.contains(id)
    }

    /// A run over `assets`, started at `today`.
    pub fn new(today: Timestamp, assets: Vec<Asset>) -> (r: Updater<P>)
        requires
            today.wf(),
            forall|i: int| 0 <= i < assets@.len() ==> (#[trigger] assets@[i]).wf(),
        ensures
            r.wf(),
            r.today == today,
            r.assets@ == assets@,
            r.prices.rows().len() == 0,
            r.updated_ids@.len() == 0,
            r.max_retries == MAX_RETRIES,
            r.phase == Phase::Assets,
            r.fetched@ == Set::<i64>::empty(),
    {
        Updater {
            today,
            assets,
            prices: PriceFrame::empty(),
            updated_ids: Vec::new(),
            max_retries: MAX_RETRIES,
            phase: Phase::Assets,
            deferred: None,
            last_flush: false,
            fetched: Ghost(Set::empty()),
        }
    }

    /// The date written as watermark: the day the run started.
    pub fn watermark_date(&self) -> (r: Date)
        ensures
            r == self.today.date,
    {
        self.today.date
    }

    /// Takes the next asset, with the range to fetch for it. Where none is
    /// left, the final flush begins.
    pub fn next_asset(&mut self) -> (r: Option<(Asset, Option<(Timestamp, Timestamp)>)>)
        requires
            old(self).wf(),
            old(self).phase == Phase::Assets,
        ensures
            final(self).wf(),
            took(*old(self), *final(self), r),
    {
        match self.assets.pop() {
            None => {
                self.phase = Phase::Upserting;
                self.last_flush = true;
                None
            },
            Some(asset) => {
                let range = plan_range(self.today, asset.last_updated);
                Some((asset, range))
            },
        }
    }

    /// Records what fetching the asset `id` came to. Rows fetched join the
    /// batch; where the batch has reached [`PRICE_MAX`] rows a flush begins
    /// and `true` is returned. The asset becomes pending only when its rows
    /// were fetched: at once, or after the flush its rows began.
    pub fn record(&mut self, id: i64, outcome: FetchOutcome<P>) -> (flush: bool)
        requires
            old(self).wf(),
            old(self).phase == Phase::Assets,
            outcome matches FetchOutcome::Fetched(f) ==> f.wf()
                && old(self).prices.length + f.length <= usize::MAX,
        ensures
            final(self).wf(),
            recorded(*old(self), id, outcome, *final(self), flush),
    {
        match outcome {
            FetchOutcome::Fetched(frame) => {
                proof {
                    self.fetched = Ghost(self.fetched@.insert(id));
                }
                let mut frame = frame;
                self.prices.extend(&mut frame);
                if self.prices.len() >= PRICE_MAX {
                    self.phase = Phase::Upserting;
                    self.deferred = Some(id);
                    true
                } else {
                    self.updated_ids.push(id);
                    false
                }
            },
            _ => false,
        }
    }

    /// Ends the current flush: the asset that began it becomes pending, and
    /// the run goes on with the next asset, or is over after the final flush.
    fn end_flush(&mut self)
        requires
            old(self).wf(),
            old(self).phase == Phase::Upserting || old(self).phase == Phase::Marking,
        ensures
            final(self).wf(),
            final(self).today == old(self).today,
            final(self).fetched == old(self).fetched,
            final(self).deferred is None,
            old(self).last_flush ==> final(self).phase == Phase::Done
                && final(self).assets@.len() == 0
                && final(self).prices.rows().len() == 0
                && final(self).updated_ids@.len() == 0,
            !old(self).last_flush ==> final(self).phase == Phase::Assets
                && final(self).assets@ == old(self).assets@
                && final(self).prices == old(self).prices
                && final(self).updated_ids@ == match old(self).deferred {
                    Some(id) => old(self).updated_ids@.push(id),
                    None => old(self).updated_ids@,
                },
    {
        if self.last_flush {
            self.assets.clear();
            self.prices.clear();
            self.updated_ids.clear();
            self.phase = Phase::Done;
        } else {
            if let Some(id) = self.deferred {
                self.updated_ids.push(id);
            }
            self.phase = Phase::Assets;
        }
        self.deferred = None;
    }

    /// Records whether writing the buffered rows succeeded. On success the
    /// rows are dropped and `true` asks for the watermarks of the pending
    /// assets to be set; on failure rows and pending assets stay for a later
    /// flush, and the flush is over.
    pub fn upserted(&mut self, ok: bool) -> (mark: bool)
        requires
            old(self).wf(),
            old(self).phase == Phase::Upserting,
        ensures
            final(self).wf(),
            upsert_done(*old(self), ok, *final(self), mark),
    {
        if ok {
            self.prices.clear();
            self.phase = Phase::Marking;
            true
        } else {
            self.end_flush();
            false
        }
    }

    /// Records whether setting the pending assets' watermarks succeeded; on
    /// success they are no longer pending. The flush is over.
    pub fn marked(&mut self, ok: bool)
        requires
            old(self).wf(),
            old(self).phase == Phase::Marking,
        ensures
            final(self).wf(),
            mark_done(*old(self), ok, *final(self)),
    {
        if ok {
            self.updated_ids.clear();
        }
        self.end_flush();
    }
}

/// An asset whose fetch came to nothing (every attempt failed, or its data
/// could not be read) is never among the ids whose watermarks a flush sets,
/// nor waiting to join them: only assets whose rows were fetched are.
pub proof fn lemma_only_fetched_assets_marked<P>(run: Updater<P>, id: i64)
    requires
        run.wf(),
        !run.fetched@.contains(id),
    ensures
        !run.updated_ids@.contains(id),
        run.deferred != Some(id),
{
    if run.updated_ids@.contains(id) {
        let i = choose|i: int| 0 <= i < run.updated_ids@.len() && run.updated_ids@[i] == id;
        assert(run.fetched@.contains(run.updated_ids@[i]));
    }
}

/// A batch that reaches [`PRICE_MAX`] rows is flushed at once. The asset
/// whose rows were fetched joins the pending assets exactly once: at once,
/// or, where its rows began a flush, as soon as that flush is over, so the
/// next flush that sets watermarks includes it.
pub proof fn lemma_fetched_asset_pending_once<P>(
    s0: Updater<P>,
    id: i64,
    outcome: FetchOutcome<P>,
    s1: Updater<P>,
    flush: bool,
    upsert_ok: bool,
    mark: bool,
    s2: Updater<P>,
    mark_ok: bool,
    s3: Updater<P>,
)
    requires
        s0.wf(),
        s0.phase == Phase::Assets,
        outcome is Fetched,
        recorded(s0, id, outcome, s1, flush),
        s1.wf(),
        flush ==> upsert_done(s1, upsert_ok, s2, mark),
        flush && mark ==> mark_done(s2, mark_ok, s3),
        flush && !mark ==> s3 == s2,
    ensures
        flush <==> s1.prices.length >= PRICE_MAX,
        flush ==> s1.phase == Phase::Upserting,
        !flush ==> s1.updated_ids@ == s0.updated_ids@.push(id),
        flush ==> s3.phase == Phase::Assets && s3.updated_ids@.len() > 0 && s3.updated_ids@.last() == id
            && s3.updated_ids@.drop_last() == (if mark && mark_ok { Seq::<i64>::empty() } else { s0.updated_ids@ }),
{
    if flush {
        assert(!s1.last_flush);
        if mark {
            assert(s3.updated_ids@.drop_last() =~= (if mark_ok { Seq::<i64>::empty() } else { s0.updated_ids@ }));
        } else {
            assert(s3.updated_ids@.drop_last() =~= s0.updated_ids@);
        }
    }
}

/// Once every asset was taken, the rows still buffered are written by one
/// final flush, whatever its outcome, and the run is then over with nothing
/// left buffered or pending: no later flush can take place.
pub proof fn lemma_final_flush_once<P>(
    s0: Updater<P>,
    r: Option<(Asset, Option<(Timestamp, Timestamp)>)>,
    s1: Updater<P>,
    upsert_ok: bool,
    mark: bool,
    s2: Updater<P>,
    mark_ok: bool,
    s3: Updater<P>,
)
    requires
        s0.wf(),
        s0.phase == Phase::Assets,
        s0.assets@.len() == 0,
        took(s0, s1, r),
        upsert_done(s1, upsert_ok, s2, mark),
        mark ==> mark_done(s2, mark_ok, s3),
        !mark ==> s3 == s2,
    ensures
        r is None,
        s1.phase == Phase::Upserting,
        s1.prices == s0.prices,
        s3.phase == Phase::Done,
        s3.prices.rows().len() == 0,
        s3.updated_ids@.len() == 0,
{
}

} // verus!
