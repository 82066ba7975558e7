use vstd::prelude::*;
use crate::error::ConversionError;
use crate::single::{shedding_of, RawShedding, Shedding};

verus! {

/// The load shedding of one area: upcoming changes and past ones.
#[derive(Debug)]
pub struct ManuallyInputSchedule {
    /// Load-shedding changes, usually in the future (but not always).
    pub changes: Vec<Shedding>,
    /// Load-shedding changes, always in the past.
    pub historical_changes: Vec<Shedding>,
}

/// A schedule as received, its events not yet converted.
#[derive(Debug)]
pub struct RawManuallyInputSchedule {
    /// Load-shedding changes, usually in the future (but not always).
    pub changes: Vec<RawShedding>,
    /// Load-shedding changes, always in the past.
    pub historical_changes: Vec<RawShedding>,
}

/// The conversion of a sequence of raw events, in order: the converted events,
/// index for index, or the error of the first event that fails.
pub open spec fn sheddings_of(raws: Seq<RawShedding>) -> Result<Seq<Shedding>, ConversionError>
    decreases raws.len(),
{
    if raws.len() == 0 {
        Ok(Seq::empty())
    } else {
        match sheddings_of(raws.drop_last()) {
            Err(e) => Err(e),
            Ok(prefix) => match shedding_of(raws.last()) {
                Err(e) => Err(e),
                Ok(s) => Ok(prefix.push(s)),
            },
        }
    }
}

/// The conversion of a raw schedule: the changes first, then the historical
/// changes; the first failure is the result.
pub open spec fn schedule_of(raw: RawManuallyInputSchedule) -> Result<
    (Seq<Shedding>, Seq<Shedding>),
    ConversionError,
> {
    match sheddings_of(raw.changes@) {
        Err(e) => Err(e),
        Ok(changes) => match sheddings_of(raw.historical_changes@) {
            Err(e) => Err(e),
            Ok(historical) => Ok((changes, historical)),
        },
    }
}

/// Once a prefix of the events fails, the whole sequence fails with the same error.
proof fn lemma_prefix_error(raws: Seq<RawShedding>, k: int)
    requires
        0 <= k <= raws.len(),
        sheddings_of(raws.take(k)) is Err,
    ensures
        sheddings_of(raws) == sheddings_of(raws.take(k)),
    decreases raws.len(),
{
    if k < raws.len() {
        assert(raws.drop_last().take(k) =~= raws.take(k));
        lemma_prefix_error(raws.drop_last(), k);
    } else {
        assert(raws.take(k) =~= raws);
    }
}

/// Converts each raw event in order, stopping at the first failure.
fn convert_all(raws: &Vec<RawShedding>) -> (r: Result<Vec<Shedding>, ConversionError>)
    ensures
        match r {
            Ok(v) => sheddings_of(raws@) == Ok::<Seq<Shedding>, ConversionError>(v@),
            Err(e) => sheddings_of(raws@) == Err::<Seq<Shedding>, ConversionError>(e),
        },
{
    let mut out: Vec<Shedding> = Vec::new();
    let mut i: usize = 0;
    while i < raws.len()
        invariant
            i <= raws@.len(),
            sheddings_of(raws@.take(i as int)) == Ok::<Seq<Shedding>, ConversionError>(out@),
        decreases raws@.len() - i,
    {
        assert(raws@.take(i as int + 1).drop_last() =~= raws@.take(i as int));
        match Shedding::from_raw(&raws[i]) {
            Ok(s) => {
                out.push(s);
            },
            Err(e) => {
                proof {
                    lemma_prefix_error(raws@, i as int + 1);
                }
                return Err(e);
            },
        }
        i = i + 1;
    }
    assert(raws@.take(i as int) =~= raws@);
    Ok(out)
}

impl ManuallyInputSchedule {
    /// Converts a raw schedule: both lists in order and index for index, or
    /// the first failure, with no partial schedule.
    pub fn from_raw(raw: &RawManuallyInputSchedule) -> (r: Result<ManuallyInputSchedule, ConversionError>)
        ensures
            match r {
                Ok(s) => schedule_of(*raw) == Ok::<(Seq<Shedding>, Seq<Shedding>), ConversionError>(
                    (s.changes@, s.historical_changes@),
                ),
                Err(e) => schedule_of(*raw) == Err::<(Seq<Shedding>, Seq<Shedding>), ConversionError>(e),
            },
    {
        let changes = convert_all(&raw.changes)?;
        let historical_changes = convert_all(&raw.historical_changes)?;
        Ok(ManuallyInputSchedule { changes, historical_changes })
    }
}

/// A schedule with changes `[a, b]` and historical changes `[c]` converts, when
/// each event converts, to changes `[a', b']` and historical changes `[c']`,
/// where each primed event is the conversion of its raw one.
pub proof fn lemma_aggregate_in_order(
    raw: RawManuallyInputSchedule,
    a: RawShedding,
    b: RawShedding,
    c: RawShedding,
)
    requires
        raw.changes@ == seq![a, b],
        raw.historical_changes@ == seq![c],
        shedding_of(a) is Ok,
        shedding_of(b) is Ok,
        shedding_of(c) is Ok,
    ensures
        schedule_of(raw) == Ok::<(Seq<Shedding>, Seq<Shedding>), ConversionError>(
            (
                seq![shedding_of(a)->Ok_0, shedding_of(b)->Ok_0],
                seq![shedding_of(c)->Ok_0],
            ),
        ),
{
    reveal_with_fuel(sheddings_of, 3);
    assert(raw.changes@.drop_last() =~= seq![a]);
    assert(seq![a].drop_last() =~= Seq::<RawShedding>::empty());
    assert(raw.historical_changes@.drop_last() =~= Seq::<RawShedding>::empty());
    assert(sheddings_of(seq![a]) == Ok::<Seq<Shedding>, ConversionError>(seq![shedding_of(a)->Ok_0])) by {
        assert(Seq::<Shedding>::empty().push(shedding_of(a)->Ok_0) =~= seq![shedding_of(a)->Ok_0]);
    }
    assert(seq![shedding_of(a)->Ok_0].push(shedding_of(b)->Ok_0) =~= seq![shedding_of(a)->Ok_0, shedding_of(b)->Ok_0]);
    assert(Seq::<Shedding>::empty().push(shedding_of(c)->Ok_0) =~= seq![shedding_of(c)->Ok_0]);
}

} // verus!
