use vstd::prelude::*;

use crate::math::{div_round, round_div};
use crate::mts::ScaleOctaveTuning;
use crate::note::{ConcertPitch, A5_MIDI_NUMBER};
use crate::ratio::{in_range, Pitch, Ratio, MAX_UNITS, UNITS_PER_SEMITONE};
use crate::scale::{relative_pitch_spec, Kbm, Scl};

verus! {

/// Two deviations that differ by no more than this many units (a hundredth of a
/// cent) count as the same.
pub const DEVIATION_TOLERANCE: i64 = 10_000;

/// The most channels a MIDI output has.
pub const MAX_CHANNELS: u8 = 16;

/// The most channels that an allocation may open.
pub const MAX_ALLOCATED_CHANNELS: u8 = 255;

/// A scale played through a keyboard mapping: the pitch of every key.
#[derive(Clone, Debug)]
pub struct ScaleMapping {
    pub scl: Scl,
    pub kbm: Kbm,
}

impl ScaleMapping {
    pub open spec fn wf(&self) -> bool {
        self.scl.wf() && self.kbm.wf()
    }

    /// The pitch of a key, in units; `None` where it leaves the range of pitches.
    pub open spec fn pitch_spec(&self, key: int) -> Option<int> {
        let rel = relative_pitch_spec(self.scl.values(), self.kbm.degree_of(key));
        let p = self.kbm.root_pitch.log_units + rel;
        if in_range(rel) && in_range(p) {
            Some(p)
        } else {
            None
        }
    }

    pub fn pitch_of(&self, key: i32) -> (r: Option<Pitch>)
        requires
            self.wf(),
        ensures
            match self.pitch_spec(key as int) {
                Some(p) => r == Some(Pitch { log_units: p as i64 }),
                None => r.is_none(),
            },
    {
        let degree = self.kbm.degree_of_key(key);
        match self.scl.relative_pitch_of(degree) {
            None => None,
            Some(rel) => {
                let p = self.kbm.root_pitch.log_units as i128 + rel.units as i128;
                if p < -(MAX_UNITS as i128) || p > MAX_UNITS as i128 {
                    None
                } else {
                    Some(Pitch { log_units: p as i64 })
                }
            },
        }
    }
}

/// Where a key's pitch sits on the twelve-tone keyboard: the nearest key of twelve-
/// tone equal temperament (at the concert pitch) and how far above it the pitch lies.
#[derive(Clone, Copy, Debug, PartialEq, Eq, Structural)]
pub struct KeyTarget {
    pub key: i32,
    pub note: u8,
    pub deviation: Ratio,
}

/// The number of semitones from A5 to the twelve-tone key nearest to pitch `p`.
pub open spec fn nearest_semitones(p: int, a5: int) -> int {
    round_div(p - a5, UNITS_PER_SEMITONE as int)
}

/// The nearest twelve-tone key to a pitch and the deviation from it, where that key
/// is a MIDI key (0 to 127).
pub open spec fn approximation_spec(p: int, a5: int) -> Option<(int, int)> {
    let s = nearest_semitones(p, a5);
    let note = A5_MIDI_NUMBER + s;
    if 0 <= note < 128 {
        Some((note, p - a5 - s * UNITS_PER_SEMITONE))
    } else {
        None
    }
}

/// The deviation from the nearest semitone lies within half a semitone.
pub proof fn lemma_deviation_bounded(a: int)
    ensures
        -UNITS_PER_SEMITONE / 2 <= a - round_div(a, UNITS_PER_SEMITONE as int)
            * UNITS_PER_SEMITONE < UNITS_PER_SEMITONE / 2,
{
    let b = UNITS_PER_SEMITONE as int;
    vstd::arithmetic::div_mod::lemma_fundamental_div_mod(2 * a + b, 2 * b);
    let q = round_div(a, b);
    let r = (2 * a + b) % (2 * b);
    assert(-b / 2 <= a - q * b < b / 2) by (nonlinear_arith)
        requires
            2 * a + b == 2 * b * q + r,
            0 <= r < 2 * b,
            b == 100_000_000,
    ;
}

/// The nearest twelve-tone MIDI key to `pitch` and the deviation from it.
pub fn approximate(pitch: Pitch, concert_pitch: ConcertPitch) -> (r: Option<(u8, Ratio)>)
    requires
        pitch.wf(),
        concert_pitch.a5.wf(),
    ensures
        match approximation_spec(pitch.log_units as int, concert_pitch.a5.log_units as int) {
            Some((note, dev)) => r == Some((note as u8, Ratio { units: dev as i64 })),
            None => r.is_none(),
        },
        r is Some ==> -UNITS_PER_SEMITONE / 2 <= r->Some_0.1.units < UNITS_PER_SEMITONE / 2,
{
    let offset = pitch.log_units - concert_pitch.a5.log_units;
    let s = div_round(offset, UNITS_PER_SEMITONE);
    proof {
        lemma_deviation_bounded(offset as int);
    }
    if s < -(A5_MIDI_NUMBER as i64) || s >= 128 - A5_MIDI_NUMBER as i64 {
        return None;
    }
    let note = (A5_MIDI_NUMBER as i64 + s) as u8;
    let dev = offset - s * UNITS_PER_SEMITONE;
    Some((note, Ratio { units: dev }))
}

/// The targets of the keys `lower..upper` that have one, in order of the keys.
pub open spec fn targets_spec(
    mapping: ScaleMapping,
    a5: int,
    lower: int,
    upper: int,
) -> Seq<KeyTarget>
    decreases upper - lower,
{
    if upper <= lower {
        Seq::empty()
    } else {
        let earlier = targets_spec(mapping, a5, lower, upper - 1);
        let key = upper - 1;
        match mapping.pitch_spec(key) {
            None => earlier,
            Some(p) => match approximation_spec(p, a5) {
                None => earlier,
                Some((note, dev)) => earlier.push(
                    KeyTarget { key: key as i32, note: note as u8, deviation: Ratio { units: dev as i64 } },
                ),
            },
        }
    }
}

/// Every target names a MIDI key and a deviation within half a semitone.
pub open spec fn targets_valid(ts: Seq<KeyTarget>) -> bool {
    forall|i: int|
        0 <= i < ts.len() ==> (#[trigger] ts[i]).note < 128 && -UNITS_PER_SEMITONE / 2
            <= ts[i].deviation.units < UNITS_PER_SEMITONE / 2
}

/// The target of each key from `lower` up to (not including) `upper` whose pitch
/// lies on a MIDI key.
pub fn collect_targets(
    mapping: &ScaleMapping,
    concert_pitch: ConcertPitch,
    lower: i32,
    upper: i32,
) -> (r: Vec<KeyTarget>)
    requires
        mapping.wf(),
        concert_pitch.a5.wf(),
    ensures
        r@ == targets_spec(*mapping, concert_pitch.a5.log_units as int, lower as int, upper as int),
        targets_valid(r@),
{
    let mut r: Vec<KeyTarget> = Vec::new();
    if upper <= lower {
        return r;
    }
    let mut key: i32 = lower;
    while key < upper
        invariant
            mapping.wf(),
            concert_pitch.a5.wf(),
            lower <= key <= upper,
            r@ == targets_spec(*mapping, concert_pitch.a5.log_units as int, lower as int, key as int),
            targets_valid(r@),
        decreases upper - key,
    {
        let ghost before = r@;
        match mapping.pitch_of(key) {
            None => {},
            Some(p) => match approximate(p, concert_pitch) {
                None => {},
                Some((note, deviation)) => {
                    r.push(KeyTarget { key, note, deviation });
                },
            },
        }
        proof {
            assert(targets_spec(*mapping, concert_pitch.a5.log_units as int, lower as int, key + 1)
                == {
                let earlier = targets_spec(
                    *mapping,
                    concert_pitch.a5.log_units as int,
                    lower as int,
                    key as int,
                );
                match mapping.pitch_spec(key as int) {
                    None => earlier,
                    Some(p) => match approximation_spec(p, concert_pitch.a5.log_units as int) {
                        None => earlier,
                        Some((note, dev)) => earlier.push(
                            KeyTarget {
                                key: key as i32,
                                note: note as u8,
                                deviation: Ratio { units: dev as i64 },
                            },
                        ),
                    },
                }
            });
            assert forall|i: int| 0 <= i < r@.len() implies (#[trigger] r@[i]).note < 128
                && -UNITS_PER_SEMITONE / 2 <= r@[i].deviation.units < UNITS_PER_SEMITONE / 2 by {
                if i < before.len() {
                    assert(r@[i] == before[i]);
                }
            }
        }
        key = key + 1;
    }
    r
}

/// The tables of an allocation: twelve entries for each channel, channel after
/// channel, each `None` or the deviation its pitch class is tuned to.
pub open spec fn num_channels_of(entries: Seq<Option<i64>>) -> int {
    entries.len() as int / 12
}

/// Entry `class` of channel `c` admits a deviation: it is empty or within tolerance.
pub open spec fn admits(entries: Seq<Option<i64>>, c: int, class: int, dev: int) -> bool {
    match entries[c * 12 + class] {
        None => true,
        Some(d) => -DEVIATION_TOLERANCE <= d - dev <= DEVIATION_TOLERANCE,
    }
}

/// The first channel from `c` on that admits the deviation; the number of channels
/// where none does.
pub open spec fn first_fit(entries: Seq<Option<i64>>, class: int, dev: int, c: int) -> int
    decreases num_channels_of(entries) - c,
{
    if c >= num_channels_of(entries) {
        num_channels_of(entries)
    } else if admits(entries, c, class, dev) {
        c
    } else {
        first_fit(entries, class, dev, c + 1)
    }
}

/// A fresh channel: twelve empty entries.
pub open spec fn empty_channel() -> Seq<Option<i64>> {
    Seq::new(12, |i: int| None::<i64>)
}

/// One step of the allocation: the key goes to the first channel that admits its
/// deviation (filling the entry if empty), or to a new channel if the budget allows.
pub open spec fn allocate_step(
    state: (Seq<Option<i64>>, Seq<u8>),
    t: KeyTarget,
    budget: int,
) -> Option<(Seq<Option<i64>>, Seq<u8>)> {
    let (entries, chans) = state;
    let class = t.note % 12;
    let dev = t.deviation.units as int;
    let c = first_fit(entries, class as int, dev, 0);
    if c < num_channels_of(entries) {
        let slot = c * 12 + class;
        let filled = match entries[slot] {
            None => entries.update(slot, Some(dev as i64)),
            Some(_) => entries,
        };
        Some((filled, chans.push(c as u8)))
    } else if num_channels_of(entries) < budget {
        Some(
            (
                entries + empty_channel().update(class as int, Some(dev as i64)),
                chans.push(num_channels_of(entries) as u8),
            ),
        )
    } else {
        None
    }
}

/// The allocation of the first `n` targets, greedy first-fit in order.
pub open spec fn allocate_spec(ts: Seq<KeyTarget>, n: int, budget: int) -> Option<
    (Seq<Option<i64>>, Seq<u8>),
>
    decreases n,
{
    if n <= 0 {
        Some((Seq::empty(), Seq::empty()))
    } else {
        match allocate_spec(ts, n - 1, budget) {
            None => None,
            Some(s) => allocate_step(s, ts[n - 1], budget),
        }
    }
}

#[derive(Clone, Copy, Debug, PartialEq, Eq, Structural)]
pub enum TunerError {
    ChannelsExhausted,
}

/// The outcome of the channel allocation: for each target its channel, and for
/// each channel its twelve entries.
#[derive(Clone, Debug)]
pub struct ChannelTuner {
    targets: Vec<KeyTarget>,
    channels: Vec<u8>,
    entries: Vec<Option<i64>>,
}

proof fn lemma_first_fit(entries: Seq<Option<i64>>, class: int, dev: int, c: int)
    requires
        0 <= c,
    ensures
        c <= num_channels_of(entries) ==> c <= first_fit(entries, class, dev, c) <= num_channels_of(entries),
        first_fit(entries, class, dev, c) < num_channels_of(entries) ==> admits(
            entries,
            first_fit(entries, class, dev, c),
            class,
            dev,
        ),
    decreases num_channels_of(entries) - c,
{
    if c < num_channels_of(entries) && !admits(entries, c, class, dev) {
        lemma_first_fit(entries, class, dev, c + 1);
    }
}

proof fn lemma_allocation_none_stays(ts: Seq<KeyTarget>, a: int, b: int, budget: int)
    requires
        0 <= a <= b,
        allocate_spec(ts, a, budget).is_none(),
    ensures
        allocate_spec(ts, b, budget).is_none(),
    decreases b - a,
{
    if a < b {
        lemma_allocation_none_stays(ts, a, b - 1, budget);
    }
}

/// The shape of an allocation: twelve entries per channel, no more channels than
/// the budget, one channel per target, each an existing channel.
pub open spec fn allocation_shaped(s: (Seq<Option<i64>>, Seq<u8>), n: int, budget: int) -> bool {
    &&& s.0.len() % 12 == 0
    &&& num_channels_of(s.0) <= budget
    &&& s.1.len() == n
    &&& forall|i: int| 0 <= i < n ==> (#[trigger] s.1[i]) < num_channels_of(s.0)
    &&& forall|k: int|
        0 <= k < s.0.len() && (#[trigger] s.0[k]) is Some ==> -UNITS_PER_SEMITONE / 2
            <= s.0[k]->Some_0 <= UNITS_PER_SEMITONE / 2
}

/// Each target is recorded in its channel's entry for its pitch class, within the
/// tolerance.
pub open spec fn allocation_consistent(ts: Seq<KeyTarget>, s: (Seq<Option<i64>>, Seq<u8>), n: int) -> bool {
    forall|i: int|
        0 <= i < n ==> {
            let slot = (#[trigger] s.1[i]) * 12 + ts[i].note % 12;
            &&& s.0[slot] is Some
            &&& -DEVIATION_TOLERANCE <= s.0[slot]->Some_0 - ts[i].deviation.units
                <= DEVIATION_TOLERANCE
        }
}

/// An allocation is shaped and consistent: every target that it placed is recorded
/// in its channel's entry for its pitch class, within the tolerance.
pub proof fn lemma_allocation_invariant(ts: Seq<KeyTarget>, n: int, budget: int)
    requires
        0 <= n <= ts.len(),
        0 <= budget <= MAX_ALLOCATED_CHANNELS,
        targets_valid(ts),
        allocate_spec(ts, n, budget) is Some,
    ensures
        allocation_shaped(allocate_spec(ts, n, budget)->Some_0, n, budget),
        allocation_consistent(ts, allocate_spec(ts, n, budget)->Some_0, n),
    decreases n,
{
    if n > 0 {
        lemma_allocation_invariant(ts, n - 1, budget);
        let s = allocate_spec(ts, n - 1, budget)->Some_0;
        let (entries, chans) = s;
        let t = ts[n - 1];
        let class = (t.note % 12) as int;
        let dev = t.deviation.units as int;
        let c = first_fit(entries, class, dev, 0);
        lemma_first_fit(entries, class, dev, 0);
        let s2 = allocate_spec(ts, n, budget)->Some_0;
        if c < num_channels_of(entries) {
            let slot = c * 12 + class;
            assert(0 <= slot < entries.len()) by (nonlinear_arith)
                requires
                    0 <= c < entries.len() / 12,
                    0 <= class < 12,
                    slot == c * 12 + class,
            ;
            assert forall|i: int| 0 <= i < n implies {
                let sl = (#[trigger] s2.1[i]) * 12 + ts[i].note % 12;
                &&& s2.0[sl] is Some
                &&& -DEVIATION_TOLERANCE <= s2.0[sl]->Some_0 - ts[i].deviation.units
                    <= DEVIATION_TOLERANCE
            } by {
                if i < n - 1 {
                    assert(s2.1[i] == chans[i]);
                }
            }
        } else {
            let nc = num_channels_of(entries);
            let fresh = empty_channel().update(class, Some(dev as i64));
            assert((entries + fresh).len() == entries.len() + 12);
            assert(num_channels_of(entries + fresh) == nc + 1);
            assert forall|i: int| 0 <= i < n implies {
                let sl = (#[trigger] s2.1[i]) * 12 + ts[i].note % 12;
                &&& s2.0[sl] is Some
                &&& -DEVIATION_TOLERANCE <= s2.0[sl]->Some_0 - ts[i].deviation.units
                    <= DEVIATION_TOLERANCE
            } by {
                if i < n - 1 {
                    assert(s2.1[i] == chans[i]);
                    let sl = chans[i] * 12 + ts[i].note % 12;
                    assert(0 <= sl < entries.len()) by (nonlinear_arith)
                        requires
                            0 <= chans[i] < entries.len() / 12,
                            0 <= ts[i].note % 12 < 12,
                            sl == chans[i] * 12 + ts[i].note % 12,
                    ;
                } else {
                    assert(s2.1[i] == nc);
                    assert(nc * 12 == entries.len());
                }
            }
        }
    }
}

/// In an allocation, two keys that share a channel and a pitch class have
/// deviations that differ by at most twice the tolerance.
pub proof fn lemma_no_conflicting_deviations(ts: Seq<KeyTarget>, budget: int, i: int, j: int)
    requires
        0 <= budget <= MAX_ALLOCATED_CHANNELS,
        targets_valid(ts),
        allocate_spec(ts, ts.len() as int, budget) is Some,
        0 <= i < ts.len(),
        0 <= j < ts.len(),
        allocate_spec(ts, ts.len() as int, budget)->Some_0.1[i] == allocate_spec(
            ts,
            ts.len() as int,
            budget,
        )->Some_0.1[j],
        ts[i].note % 12 == ts[j].note % 12,
    ensures
        -2 * DEVIATION_TOLERANCE <= ts[i].deviation.units - ts[j].deviation.units <= 2
            * DEVIATION_TOLERANCE,
{
    lemma_allocation_invariant(ts, ts.len() as int, budget);
    let s = allocate_spec(ts, ts.len() as int, budget)->Some_0;
    assert(s.1[i] == s.1[j]);
}

/// The first channel whose entry for `class` admits `dev`; `num_channels` if none.
fn first_fit_exec(entries: &Vec<Option<i64>>, num_channels: usize, class: usize, dev: i64) -> (r:
    usize)
    requires
        num_channels <= 255,
        num_channels == num_channels_of(entries@),
        entries@.len() == 12 * num_channels,
        class < 12,
        -UNITS_PER_SEMITONE / 2 <= dev < UNITS_PER_SEMITONE / 2,
        forall|k: int|
            0 <= k < entries@.len() && (#[trigger] entries@[k]) is Some ==> -UNITS_PER_SEMITONE
                <= entries@[k]->Some_0 <= UNITS_PER_SEMITONE,
    ensures
        r == first_fit(entries@, class as int, dev as int, 0),
{
    let mut c: usize = 0;
    while c < num_channels
        invariant
            c <= num_channels,
            num_channels <= 255,
            num_channels == num_channels_of(entries@),
            entries@.len() == 12 * num_channels,
            class < 12,
            -UNITS_PER_SEMITONE / 2 <= dev < UNITS_PER_SEMITONE / 2,
            forall|k: int|
                0 <= k < entries@.len() && (#[trigger] entries@[k]) is Some ==> -UNITS_PER_SEMITONE
                    <= entries@[k]->Some_0 <= UNITS_PER_SEMITONE,
            first_fit(entries@, class as int, dev as int, 0) == first_fit(
                entries@,
                class as int,
                dev as int,
                c as int,
            ),
        decreases num_channels - c,
    {
        proof {
            assert(c * 12 + class < 12 * num_channels) by (nonlinear_arith)
                requires
                    c < num_channels,
                    class < 12,
            ;
        }
        let admitted = match entries[c * 12 + class] {
            None => true,
            Some(d) => -DEVIATION_TOLERANCE <= d - dev && d - dev <= DEVIATION_TOLERANCE,
        };
        if admitted {
            return c;
        }
        c = c + 1;
    }
    c
}

/// The index of the first target of `key` from `i` on; the number of targets if none.
pub open spec fn find_key(ts: Seq<KeyTarget>, key: int, i: int) -> int
    decreases ts.len() - i,
{
    if i >= ts.len() {
        ts.len() as int
    } else if ts[i].key == key {
        i
    } else {
        find_key(ts, key, i + 1)
    }
}

proof fn lemma_find_key_range(ts: Seq<KeyTarget>, key: int, i: int)
    requires
        0 <= i <= ts.len(),
    ensures
        i <= find_key(ts, key, i) <= ts.len(),
    decreases ts.len() - i,
{
    if i < ts.len() && ts[i].key != key {
        lemma_find_key_range(ts, key, i + 1);
    }
}

/// The channel and MIDI key of the first target of `key`.
pub open spec fn lookup_spec(ts: Seq<KeyTarget>, chans: Seq<u8>, key: int) -> Option<(u8, u8)> {
    let j = find_key(ts, key, 0);
    if 0 <= j < ts.len() {
        Some((chans[j], ts[j].note))
    } else {
        None
    }
}

impl ChannelTuner {
    pub closed spec fn targets_spec(&self) -> Seq<KeyTarget> {
        self.targets@
    }

    pub closed spec fn channels_spec(&self) -> Seq<u8> {
        self.channels@
    }

    pub closed spec fn entries_spec(&self) -> Seq<Option<i64>> {
        self.entries@
    }

    pub open spec fn wf(&self) -> bool {
        &&& targets_valid(self.targets_spec())
        &&& self.targets_spec().len() == self.channels_spec().len()
        &&& allocation_shaped(
            (self.entries_spec(), self.channels_spec()),
            self.targets_spec().len() as int,
            MAX_ALLOCATED_CHANNELS as int,
        )
        &&& allocation_consistent(
            self.targets_spec(),
            (self.entries_spec(), self.channels_spec()),
            self.targets_spec().len() as int,
        )
    }

    /// Spreads the targets over at most `budget` channels, greedy first-fit in the
    /// order of the targets. Fails if a target needs a channel beyond the budget.
    pub fn allocate(targets: &Vec<KeyTarget>, budget: u8) -> (r: Result<ChannelTuner, TunerError>)
        requires
            budget <= MAX_ALLOCATED_CHANNELS,
            targets_valid(targets@),
        ensures
            match allocate_spec(targets@, targets@.len() as int, budget as int) {
                None => r == Err::<ChannelTuner, _>(TunerError::ChannelsExhausted),
                Some(s) => r is Ok && r->Ok_0.entries_spec() == s.0 && r->Ok_0.channels_spec()
                    == s.1 && r->Ok_0.targets_spec() == targets@ && r->Ok_0.wf(),
            },
    {
        let mut entries: Vec<Option<i64>> = Vec::new();
        let mut channels: Vec<u8> = Vec::new();
        let mut num_channels: usize = 0;
        let mut i: usize = 0;
        while i < targets.len()
            invariant
                budget <= MAX_ALLOCATED_CHANNELS,
                targets_valid(targets@),
                i <= targets@.len(),
                allocate_spec(targets@, i as int, budget as int) == Some((entries@, channels@)),
                num_channels == num_channels_of(entries@),
                entries@.len() == 12 * num_channels,
                num_channels <= budget,
            decreases targets.len() - i,
        {
            let t = targets[i];
            let class = (t.note % 12) as usize;
            let dev = t.deviation.units;
            let ghost old_entries = entries@;
            let ghost old_channels = channels@;
            proof {
                lemma_allocation_invariant(targets@, i as int, budget as int);
                assert(allocate_spec(targets@, i + 1, budget as int) == allocate_step(
                    (old_entries, old_channels),
                    t,
                    budget as int,
                ));
            }
            let c = first_fit_exec(&entries, num_channels, class, dev);
            proof {
                lemma_first_fit(entries@, class as int, dev as int, 0);
            }
            if c < num_channels {
                proof {
                    assert(c * 12 + class < 12 * num_channels) by (nonlinear_arith)
                        requires
                            c < num_channels,
                            class < 12,
                    ;
                }
                let slot = c * 12 + class;
                if entries[slot].is_none() {
                    entries.set(slot, Some(dev));
                }
                channels.push(c as u8);
                proof {
                    assert(first_fit(old_entries, class as int, dev as int, 0) == c);
                    assert(class as int == t.note % 12);
                    let filled = match old_entries[slot as int] {
                        None => old_entries.update(slot as int, Some(dev as i64)),
                        Some(_) => old_entries,
                    };
                    assert(entries@ == filled);
                    assert(allocate_step((old_entries, old_channels), t, budget as int) == Some(
                        (filled, old_channels.push(c as u8)),
                    ));
                }
            } else if num_channels < budget as usize {
                let mut k: usize = 0;
                let ghost before = entries@;
                while k < 12
                    invariant
                        k <= 12,
                        class < 12,
                        entries@.len() == before.len() + k,
                        entries@.subrange(0, before.len() as int) == before,
                        forall|j: int|
                            0 <= j < k ==> #[trigger] entries@[before.len() + j] == if j == class {
                                Some(dev)
                            } else {
                                None::<i64>
                            },
                    decreases 12 - k,
                {
                    if k == class {
                        entries.push(Some(dev));
                    } else {
                        entries.push(None);
                    }
                    k = k + 1;
                }
                proof {
                    let fresh = empty_channel().update(class as int, Some(dev));
                    assert forall|j: int| 0 <= j < entries@.len() implies entries@[j] == (before
                        + fresh)[j] by {
                        if j >= before.len() {
                            let jj = j - before.len();
                            assert(entries@[before.len() + jj] == if jj == class {
                                Some(dev)
                            } else {
                                None::<i64>
                            });
                        } else {
                            assert(entries@[j] == entries@.subrange(0, before.len() as int)[j]);
                        }
                    }
                    assert(entries@ =~= before + fresh);
                }
                channels.push(num_channels as u8);
                proof {
                    assert(first_fit(old_entries, class as int, dev as int, 0) == num_channels);
                    assert(class as int == t.note % 12);
                }
                num_channels = num_channels + 1;
            } else {
                proof {
                    lemma_allocation_none_stays(
                        targets@,
                        (i + 1) as int,
                        targets@.len() as int,
                        budget as int,
                    );
                }
                return Err(TunerError::ChannelsExhausted);
            }
            i = i + 1;
        }
        proof {
            lemma_allocation_invariant(targets@, targets@.len() as int, budget as int);
        }
        Ok(ChannelTuner { targets: targets.clone(), channels, entries })
    }

    /// The number of channels used.
    pub fn num_channels(&self) -> (r: usize)
        requires
            self.wf(),
        ensures
            r == num_channels_of(self.entries_spec()),
    {
        self.entries.len() / 12
    }

    /// The channel (counted from the first allocated) and the MIDI key that play
    /// `key`: those of the first target of that key; `None` where it has none.
    pub fn lookup(&self, key: i32) -> (r: Option<(u8, u8)>)
        requires
            self.wf(),
        ensures
            r == lookup_spec(self.targets_spec(), self.channels_spec(), key as int),
            r is Some ==> r->Some_0.0 < num_channels_of(self.entries_spec()),
    {
        let mut i: usize = 0;
        while i < self.targets.len()
            invariant
                self.wf(),
                i <= self.targets@.len(),
                find_key(self.targets@, key as int, 0) == find_key(self.targets@, key as int, i as int),
            decreases self.targets.len() - i,
        {
            if self.targets[i].key == key {
                proof {
                    lemma_find_key_range(self.targets@, key as int, i as int);
                }
                return Some((self.channels[i], self.targets[i].note));
            }
            i = i + 1;
        }
        proof {
            lemma_find_key_range(self.targets@, key as int, 0);
        }
        None
    }

    /// The tuning of each channel, with the pitch classes that no key uses left
    /// untuned.
    pub fn tunings(&self) -> (r: Vec<ScaleOctaveTuning>)
        requires
            self.wf(),
        ensures
            r@.len() == num_channels_of(self.entries_spec()),
            forall|c: int, k: int|
                0 <= c < r@.len() && 0 <= k < 12 ==> -UNITS_PER_SEMITONE / 2
                    <= (#[trigger] r@[c].deviations@[k]).units <= UNITS_PER_SEMITONE / 2,
            forall|c: int|
                0 <= c < r@.len() ==> (#[trigger] r@[c]).wf() && forall|k: int|
                    0 <= k < 12 ==> (#[trigger] r@[c].deviations@[k]).units == match self.entries_spec()[c
                        * 12 + k] {
                        Some(d) => d as int,
                        None => 0,
                    },
    {
        let n = self.entries.len() / 12;
        let mut r: Vec<ScaleOctaveTuning> = Vec::new();
        let mut c: usize = 0;
        while c < n
            invariant
                self.wf(),
                n == num_channels_of(self.entries@),
                self.entries@.len() == 12 * n,
                c <= n,
                r@.len() == c,
                forall|c2: int, k: int|
                    0 <= c2 < c && 0 <= k < 12 ==> -UNITS_PER_SEMITONE / 2
                        <= (#[trigger] r@[c2].deviations@[k]).units <= UNITS_PER_SEMITONE / 2,
                forall|c2: int|
                    0 <= c2 < c ==> (#[trigger] r@[c2]).wf() && forall|k: int|
                        0 <= k < 12 ==> (#[trigger] r@[c2].deviations@[k]).units == match self.entries@[c2
                            * 12 + k] {
                            Some(d) => d as int,
                            None => 0,
                        },
            decreases n - c,
        {
            let mut deviations: Vec<Ratio> = Vec::new();
            let mut k: usize = 0;
            while k < 12
                invariant
                    self.wf(),
                    self.entries@.len() == 12 * n,
                    c < n,
                    k <= 12,
                    deviations@.len() == k,
                    forall|k2: int|
                        0 <= k2 < k ==> (#[trigger] deviations@[k2]).units == match self.entries@[c
                            * 12 + k2] {
                            Some(d) => d as int,
                            None => 0,
                        } && deviations@[k2].wf() && -UNITS_PER_SEMITONE / 2
                            <= deviations@[k2].units <= UNITS_PER_SEMITONE / 2,
                decreases 12 - k,
            {
                proof {
                    assert(c * 12 + k < 12 * n) by (nonlinear_arith)
                        requires
                            c < n,
                            k < 12,
                    ;
                }
                let units = match self.entries[c * 12 + k] {
                    Some(d) => d,
                    None => 0,
                };
                proof {
                    assert(self.entries@[c * 12 + k] is Some ==> -UNITS_PER_SEMITONE / 2
                        <= self.entries@[c * 12 + k]->Some_0 <= UNITS_PER_SEMITONE / 2);
                }
                deviations.push(Ratio::from_units(units));
                k = k + 1;
            }
            r.push(ScaleOctaveTuning { deviations });
            c = c + 1;
        }
        r
    }
}

} // verus!
