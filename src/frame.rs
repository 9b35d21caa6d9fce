//! The batch accumulator: price rows of many assets, held column by column
//! until they are written out together.

use vstd::prelude::*;
use crate::calendar::Date;

verus! {

/// Rows gathered before a write is due.
pub const PRICE_MAX: usize = 10000;

/// One row: asset id, day, open, high, low, close, volume.
pub type PriceRow<P> = (i64, Date, Option<P>, Option<P>, Option<P>, Option<P>, Option<i64>);

/// Price rows in parallel columns, with their count.
pub struct PriceFrame<P> {
    pub asset_id: Vec<i64>,
    pub tstamp: Vec<Date>,
    pub open: Vec<Option<P>>,
    pub high: Vec<Option<P>>,
    pub low: Vec<Option<P>>,
    pub close: Vec<Option<P>>,
    pub volume: Vec<Option<i64>>,
    pub length: usize,
}

impl<P> PriceFrame<P> {
    /// Every column holds `length` entries.
    pub open spec fn wf(self) -> bool {
        &&& self.asset_id@.len() == self.length
        &&& self.tstamp@.len() == self.length
        &&& self.open@.len() == self.length
        &&& self.high@.len() == self.length
        &&& self.low@.len() == self.length
        &&& self.close@.len() == self.length
        &&& self.volume@.len() == self.length
    }

    pub open spec fn row(self, i: int) -> PriceRow<P> {
        (self.asset_id@[i], self.tstamp@[i], self.open@[i], self.high@[i], self.low@[i], self.close@[i], self.volume@[i])
    }

    /// The rows, in the order they were added.
    pub open spec fn rows(self) -> Seq<PriceRow<P>> {
        Seq::new(self.length as nat, |i: int| self.row(i))
    }

    /// A frame without rows.
    pub fn empty() -> (r: PriceFrame<P>)
        ensures
            r.wf(),
            r.rows() == Seq::<PriceRow<P>>::empty(),
    {
        let r = PriceFrame {
            asset_id: Vec::new(),
            tstamp: Vec::new(),
            open: Vec::new(),
            high: Vec::new(),
            low: Vec::new(),
            close: Vec::new(),
            volume: Vec::new(),
            length: 0,
        };
        assert(r.rows() =~= Seq::<PriceRow<P>>::empty());
        r
    }

    /// The number of rows.
    pub fn len(&self) -> (r: usize)
        ensures
            r == self.length,
    {
        self.length
    }

    /// Adds one row at the end.
    pub fn push(
        &mut self,
        asset_id: i64,
        tstamp: Date,
        open: Option<P>,
        high: Option<P>,
        low: Option<P>,
        close: Option<P>,
        volume: Option<i64>,
    )
        requires
            old(self).wf(),
            old(self).length < usize::MAX,
        ensures
            final(self).wf(),
            final(self).rows() == old(self).rows().push((asset_id, tstamp, open, high, low, close, volume)),
    {
        self.asset_id.push(asset_id);
        self.tstamp.push(tstamp);
        self.open.push(open);
        self.high.push(high);
        self.low.push(low);
        self.close.push(close);
        self.volume.push(volume);
        self.length = self.length + 1;
        assert(self.rows() =~= old(self).rows().push((asset_id, tstamp, open, high, low, close, volume)));
    }

    /// Moves all rows of `other` to the end of this frame, leaving `other` empty.
    pub fn extend(&mut self, other: &mut PriceFrame<P>)
        requires
            old(self).wf(),
            old(other).wf(),
            old(self).length + old(other).length <= usize::MAX,
        ensures
            final(self).wf(),
            final(other).wf(),
            final(self).rows() == old(self).rows() + old(other).rows(),
            final(other).rows() == Seq::<PriceRow<P>>::empty(),
    {
        self.asset_id.append(&mut other.asset_id);
        self.tstamp.append(&mut other.tstamp);
        self.open.append(&mut other.open);
        self.high.append(&mut other.high);
        self.low.append(&mut other.low);
        self.close.append(&mut other.close);
        self.volume.append(&mut other.volume);
        self.length = self.length + other.length;
        other.length = 0;
        assert(self.rows() =~= old(self).rows() + old(other).rows());
        assert(other.rows() =~= Seq::<PriceRow<P>>::empty());
    }

    /// Removes every row.
    pub fn clear(&mut self)
        ensures
            final(self).wf(),
            final(self).rows() == Seq::<PriceRow<P>>::empty(),
    {
        self.asset_id.clear();
        self.tstamp.clear();
        self.open.clear();
        self.high.clear();
        self.low.clear();
        self.close.clear();
        self.volume.clear();
        self.length = 0;
        assert(self.rows() =~= Seq::<PriceRow<P>>::empty());
    }
}

} // verus!
