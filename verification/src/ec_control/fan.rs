//! The curve of a fan and the choice of its level.
//!
//! A curve is a list of thresholds. The level of a fan is an index into its
//! curve; it changes only when the temperature leaves the bounds of the
//! current threshold, which gives the curve its hysteresis.

use vstd::prelude::*;

use crate::nbfc::TemperatureThreshold;

verus! {

/// The index at which a binary search over the thresholds from `lo` up to,
/// and not including, `hi` finds one whose bounds hold `temp`.
///
/// The search looks at the threshold in the middle. It goes on among the
/// thresholds before it where that one's lower bound is above `temp`, among
/// those after it where its upper bound is below `temp`, and ends there
/// otherwise.
pub open spec fn search_range(
    thresholds: Seq<TemperatureThreshold>,
    temp: u8,
    lo: int,
    hi: int,
) -> Option<int>
    decreases hi - lo,
{
    if lo >= hi {
        None
    } else {
        let mid = lo + (hi - lo) / 2;
        if thresholds[mid].down_threshold > temp {
            search_range(thresholds, temp, lo, mid)
        } else if thresholds[mid].up_threshold < temp {
            search_range(thresholds, temp, mid + 1, hi)
        } else {
            Some(mid)
        }
    }
}

/// The index at which a binary search over the whole curve finds a
/// threshold whose bounds hold `temp`.
pub open spec fn search(thresholds: Seq<TemperatureThreshold>, temp: u8) -> Option<int> {
    search_range(thresholds, temp, 0, thresholds.len() as int)
}

/// The lower bound of the first threshold that has one other than zero.
pub open spec fn first_nonzero_down(thresholds: Seq<TemperatureThreshold>) -> Option<u8>
    decreases thresholds.len(),
{
    if thresholds.len() == 0 {
        None
    } else if thresholds[0].down_threshold != 0 {
        Some(thresholds[0].down_threshold)
    } else {
        first_nonzero_down(thresholds.subrange(1, thresholds.len() as int))
    }
}

/// Whether `temp` is so low that the fan falls back to its first level: the
/// curve has a single threshold, or `temp` is at or below the lower bound of
/// the first threshold that has one other than zero.
pub open spec fn at_rest(thresholds: Seq<TemperatureThreshold>, temp: u8) -> bool {
    thresholds.len() == 1 || match first_nonzero_down(thresholds) {
        Some(down) => temp <= down,
        None => false,
    }
}

/// The level of a fan at `temp` whose level was `current`:
///
/// - the last one, where `temp` is at or above the upper bound of the last
///   threshold;
/// - else `current`, where the bounds of the current threshold hold `temp`;
/// - else the first one, where `temp` is low enough for [`at_rest`];
/// - else the one that [`search`] finds, and `current` where it finds none.
pub open spec fn select_index(thresholds: Seq<TemperatureThreshold>, current: int, temp: u8) -> int {
    if temp >= thresholds.last().up_threshold {
        thresholds.len() - 1
    } else if thresholds[current].holds(temp) {
        current
    } else if at_rest(thresholds, temp) {
        0
    } else {
        match search(thresholds, temp) {
            Some(found) => found,
            None => current,
        }
    }
}

/// The levels of a fan after each temperature of a list, in order, for a fan
/// whose level was `start` before the first.
pub open spec fn sweep(thresholds: Seq<TemperatureThreshold>, start: int, temps: Seq<u8>) -> Seq<
    int,
>
    decreases temps.len(),
{
    if temps.len() == 0 {
        Seq::empty()
    } else {
        let before = sweep(thresholds, start, temps.drop_last());
        let current = if before.len() == 0 {
            start
        } else {
            before.last()
        };
        before.push(select_index(thresholds, current, temps.last()))
    }
}

/// Searches the whole curve for a threshold whose bounds hold `temp`.
pub fn binary_search(thresholds: &Vec<TemperatureThreshold>, temp: u8) -> (found: Option<usize>)
    ensures
        match found {
            Some(index) => search(thresholds@, temp) == Some(index as int),
            None => search(thresholds@, temp).is_none(),
        },
        found.is_some() ==> found.unwrap() < thresholds@.len() && thresholds@[found.unwrap() as int].holds(temp),
{
    let mut lo: usize = 0;
    let mut hi: usize = thresholds.len();
    while lo < hi
        invariant
            lo <= hi <= thresholds.len(),
            search(thresholds@, temp) == search_range(thresholds@, temp, lo as int, hi as int),
        decreases hi - lo,
    {
        let mid: usize = lo + (hi - lo) / 2;
        if thresholds[mid].down_threshold > temp {
            hi = mid;
        } else if thresholds[mid].up_threshold < temp {
            lo = mid + 1;
        } else {
            return Some(mid);
        }
    }
    None
}

/// Finds the lower bound of the first threshold that has one other than
/// zero.
pub fn find_first_nonzero_down(thresholds: &Vec<TemperatureThreshold>) -> (down: Option<u8>)
    ensures
        down == first_nonzero_down(thresholds@),
{
    let mut i: usize = 0;
    proof {
        assert(thresholds@.subrange(0, thresholds.len() as int) =~= thresholds@);
    }
    while i < thresholds.len()
        invariant
            i <= thresholds.len(),
            first_nonzero_down(thresholds@) == first_nonzero_down(
                thresholds@.subrange(i as int, thresholds.len() as int),
            ),
        decreases thresholds.len() - i,
    {
        proof {
            let rest = thresholds@.subrange(i as int, thresholds.len() as int);
            assert(rest[0] == thresholds@[i as int]);
            assert(rest.subrange(1, rest.len() as int) =~= thresholds@.subrange(
                i + 1,
                thresholds.len() as int,
            ));
        }
        if thresholds[i].down_threshold != 0 {
            return Some(thresholds[i].down_threshold);
        }
        i += 1;
    }
    proof {
        assert(thresholds@.subrange(i as int, thresholds.len() as int).len() == 0);
    }
    None
}

/// Chooses the level of a fan at `temp` whose level was `current`.
pub fn select_threshold(thresholds: &Vec<TemperatureThreshold>, current: usize, temp: u8) -> (index:
    usize)
    requires
        current < thresholds@.len(),
    ensures
        index == select_index(thresholds@, current as int, temp),
        index < thresholds@.len(),
{
    let last = thresholds.len() - 1;
    if temp >= thresholds[last].up_threshold {
        return last;
    }
    let now = &thresholds[current];
    if now.down_threshold <= temp && temp <= now.up_threshold {
        return current;
    }
    let rest = thresholds.len() == 1 || match find_first_nonzero_down(thresholds) {
        Some(down) => temp <= down,
        None => false,
    };
    if rest {
        return 0;
    }
    match binary_search(thresholds, temp) {
        Some(found) => found,
        None => current,
    }
}

/// Holds information on a fan.
#[derive(Clone, Debug, PartialEq)]
pub struct Fan {
    pub name: String,
    /// Place of the fan in the configuration, from zero.
    pub index: usize,
    pub thresholds: Vec<TemperatureThreshold>,
    /// Level of the fan: an index into `thresholds`.
    pub current_threshold: usize,
    /// Speed last read, in thousandths of a percent.
    pub fan_speed: i32,
    /// Speed last asked for, if any was.
    pub last_written_speed: Option<i32>,
}

impl Fan {
    /// Whether the level of the fan is one of its curve. A fan without a
    /// curve has level zero.
    pub open spec fn wf(self) -> bool {
        if self.thresholds@.len() == 0 {
            self.current_threshold == 0
        } else {
            self.current_threshold < self.thresholds@.len()
        }
    }

    /// The threshold of the current level.
    pub fn current_threshold(&self) -> (threshold: TemperatureThreshold)
        requires
            self.current_threshold < self.thresholds@.len(),
        ensures
            threshold == self.thresholds@[self.current_threshold as int],
    {
        self.thresholds[self.current_threshold]
    }

    /// Moves the fan to its level at `temp`, given in whole degrees, and
    /// returns the speed of the new level where the level changed.
    pub fn refresh_fan_threshold(&mut self, temp: u8) -> (speed: Option<i32>)
        requires
            old(self).thresholds@.len() > 0,
            old(self).current_threshold < old(self).thresholds@.len(),
        ensures
            final(self).current_threshold == select_index(
                old(self).thresholds@,
                old(self).current_threshold as int,
                temp,
            ),
            final(self).wf(),
            final(self).thresholds == old(self).thresholds,
            final(self).name == old(self).name,
            final(self).index == old(self).index,
            final(self).fan_speed == old(self).fan_speed,
            final(self).last_written_speed == old(self).last_written_speed,
            speed == if final(self).current_threshold != old(self).current_threshold {
                Some(
                    old(self).thresholds@[final(self).current_threshold as int].fan_speed,
                )
            } else {
                None::<i32>
            },
    {
        let selected = select_threshold(&self.thresholds, self.current_threshold, temp);
        if selected != self.current_threshold {
            self.current_threshold = selected;
            Some(self.thresholds[selected].fan_speed)
        } else {
            None
        }
    }
}


/// A search over a part of the curve finds an index of that part, and the
/// bounds of the threshold found hold the temperature.
pub proof fn lemma_search_finds_holder(
    thresholds: Seq<TemperatureThreshold>,
    temp: u8,
    lo: int,
    hi: int,
)
    requires
        0 <= lo <= hi <= thresholds.len(),
    ensures
        match search_range(thresholds, temp, lo, hi) {
            Some(found) => lo <= found < hi && thresholds[found].holds(temp),
            None => true,
        },
    decreases hi - lo,
{
    if lo < hi {
        let mid = lo + (hi - lo) / 2;
        if thresholds[mid].down_threshold > temp {
            lemma_search_finds_holder(thresholds, temp, lo, mid);
        } else if thresholds[mid].up_threshold < temp {
            lemma_search_finds_holder(thresholds, temp, mid + 1, hi);
        }
    }
}

/// Where a search found the threshold `found` at `before`, a search at a
/// higher temperature that has left the bounds of that threshold finds a
/// later one or none.
pub proof fn lemma_search_after_rise(
    thresholds: Seq<TemperatureThreshold>,
    lo: int,
    hi: int,
    before: u8,
    after: u8,
    found: int,
)
    requires
        0 <= lo <= hi <= thresholds.len(),
        search_range(thresholds, before, lo, hi) == Some(found),
        before <= after,
        thresholds[found].up_threshold < after,
    ensures
        match search_range(thresholds, after, lo, hi) {
            Some(next) => found < next < hi,
            None => true,
        },
    decreases hi - lo,
{
    let mid = lo + (hi - lo) / 2;
    if thresholds[mid].down_threshold > before {
        lemma_search_finds_holder(thresholds, before, lo, mid);
        if thresholds[mid].down_threshold > after {
            lemma_search_after_rise(thresholds, lo, mid, before, after, found);
        } else if thresholds[mid].up_threshold < after {
            lemma_search_finds_holder(thresholds, after, mid + 1, hi);
        }
    } else if thresholds[mid].up_threshold < before {
        lemma_search_after_rise(thresholds, mid + 1, hi, before, after, found);
    } else {
        lemma_search_finds_holder(thresholds, after, mid + 1, hi);
    }
}

/// Where a search found the threshold `found` at `before`, a search at a
/// lower temperature that has left the bounds of that threshold finds an
/// earlier one or none.
pub proof fn lemma_search_after_fall(
    thresholds: Seq<TemperatureThreshold>,
    lo: int,
    hi: int,
    before: u8,
    after: u8,
    found: int,
)
    requires
        0 <= lo <= hi <= thresholds.len(),
        search_range(thresholds, before, lo, hi) == Some(found),
        after <= before,
        after < thresholds[found].down_threshold,
    ensures
        match search_range(thresholds, after, lo, hi) {
            Some(next) => lo <= next < found,
            None => true,
        },
    decreases hi - lo,
{
    let mid = lo + (hi - lo) / 2;
    if thresholds[mid].down_threshold > before {
        lemma_search_after_fall(thresholds, lo, mid, before, after, found);
    } else if thresholds[mid].up_threshold < before {
        lemma_search_finds_holder(thresholds, before, mid + 1, hi);
        if thresholds[mid].down_threshold > after {
            lemma_search_finds_holder(thresholds, after, lo, mid);
        } else if thresholds[mid].up_threshold < after {
            lemma_search_after_fall(thresholds, mid + 1, hi, before, after, found);
        }
    } else {
        lemma_search_finds_holder(thresholds, after, lo, mid);
    }
}

/// What holds of the level of a fan at `temp` while the temperature has
/// only risen since the fan was at its first level.
pub open spec fn risen_to(thresholds: Seq<TemperatureThreshold>, level: int, temp: u8) -> bool {
    ||| level == 0
    ||| (level == thresholds.len() - 1 && temp >= thresholds.last().up_threshold)
    ||| (!at_rest(thresholds, temp) && exists|earlier: u8|
        earlier <= temp && #[trigger] search(thresholds, earlier) == Some(level))
}

/// What holds of the level of a fan at `temp` while the temperature has
/// only fallen since it was at or above the upper bound of the last
/// threshold.
pub open spec fn fallen_to(thresholds: Seq<TemperatureThreshold>, level: int, temp: u8) -> bool {
    ||| level == thresholds.len() - 1
    ||| (temp < thresholds.last().up_threshold && ((level == 0 && at_rest(thresholds, temp))
        || exists|earlier: u8|
        earlier >= temp && #[trigger] search(thresholds, earlier) == Some(level)))
}

/// The chosen level is a level of the curve.
pub proof fn lemma_select_in_range(thresholds: Seq<TemperatureThreshold>, current: int, temp: u8)
    requires
        0 <= current < thresholds.len(),
    ensures
        0 <= select_index(thresholds, current, temp) < thresholds.len(),
{
    lemma_search_finds_holder(thresholds, temp, 0, thresholds.len() as int);
}

/// One step of a rising temperature never lowers the level.
pub proof fn lemma_select_after_rise(
    thresholds: Seq<TemperatureThreshold>,
    level: int,
    before: u8,
    after: u8,
)
    requires
        0 <= level < thresholds.len(),
        risen_to(thresholds, level, before),
        before <= after,
    ensures
        level <= select_index(thresholds, level, after) < thresholds.len(),
        risen_to(thresholds, select_index(thresholds, level, after), after),
{
    let next = select_index(thresholds, level, after);
    let len = thresholds.len() as int;
    lemma_select_in_range(thresholds, level, after);
    lemma_search_finds_holder(thresholds, after, 0, len);
    if after >= thresholds.last().up_threshold {
    } else if thresholds[level].holds(after) {
    } else if at_rest(thresholds, after) {
        assert(at_rest(thresholds, before));
    } else {
        if level != 0 {
            let earlier = choose|earlier: u8|
                earlier <= before && #[trigger] search(thresholds, earlier) == Some(level);
            lemma_search_finds_holder(thresholds, earlier, 0, len);
            lemma_search_after_rise(thresholds, 0, len, earlier, after, level);
        }
        match search(thresholds, after) {
            Some(found) => {
                assert(after <= after && search(thresholds, after) == Some(next));
            },
            None => {},
        }
    }
}

/// One step of a falling temperature never raises the level.
pub proof fn lemma_select_after_fall(
    thresholds: Seq<TemperatureThreshold>,
    level: int,
    before: u8,
    after: u8,
)
    requires
        0 <= level < thresholds.len(),
        fallen_to(thresholds, level, before),
        after <= before,
    ensures
        0 <= select_index(thresholds, level, after) <= level,
        fallen_to(thresholds, select_index(thresholds, level, after), after),
{
    let next = select_index(thresholds, level, after);
    let len = thresholds.len() as int;
    lemma_select_in_range(thresholds, level, after);
    lemma_search_finds_holder(thresholds, after, 0, len);
    if after >= thresholds.last().up_threshold {
    } else if thresholds[level].holds(after) {
    } else if at_rest(thresholds, after) {
    } else {
        if level != len - 1 {
            assert(!at_rest(thresholds, before) || level != 0);
            if !(level == 0 && at_rest(thresholds, before)) {
                let earlier = choose|earlier: u8|
                    earlier >= before && #[trigger] search(thresholds, earlier) == Some(level);
                lemma_search_finds_holder(thresholds, earlier, 0, len);
                lemma_search_after_fall(thresholds, 0, len, earlier, after, level);
            }
        }
        match search(thresholds, after) {
            Some(found) => {
                assert(after >= after && search(thresholds, after) == Some(next));
            },
            None => {},
        }
    }
}

/// Whether a list of temperatures never falls.
pub open spec fn never_falls(temps: Seq<u8>) -> bool {
    forall|a: int, b: int| 0 <= a <= b < temps.len() ==> temps[a] <= temps[b]
}

/// Whether a list of temperatures never rises.
pub open spec fn never_rises(temps: Seq<u8>) -> bool {
    forall|a: int, b: int| 0 <= a <= b < temps.len() ==> temps[a] >= temps[b]
}

/// While the temperature only rises, a fan that starts at its first level
/// never goes down a level.
pub proof fn lemma_rising_sweep(thresholds: Seq<TemperatureThreshold>, temps: Seq<u8>)
    requires
        thresholds.len() > 0,
        never_falls(temps),
    ensures
        sweep(thresholds, 0, temps).len() == temps.len(),
        forall|a: int|
            0 <= a < temps.len() ==> 0 <= #[trigger] sweep(thresholds, 0, temps)[a]
                < thresholds.len(),
        forall|a: int, b: int|
            0 <= a <= b < temps.len() ==> sweep(thresholds, 0, temps)[a] <= sweep(
                thresholds,
                0,
                temps,
            )[b],
        temps.len() > 0 ==> risen_to(
            thresholds,
            sweep(thresholds, 0, temps).last(),
            temps.last(),
        ),
    decreases temps.len(),
{
    if temps.len() > 0 {
        let shorter = temps.drop_last();
        assert(never_falls(shorter)) by {
            assert forall|a: int, b: int| 0 <= a <= b < shorter.len() implies shorter[a]
                <= shorter[b] by {
                assert(shorter[a] == temps[a] && shorter[b] == temps[b]);
            }
        }
        lemma_rising_sweep(thresholds, shorter);
        let before = sweep(thresholds, 0, shorter);
        let all = sweep(thresholds, 0, temps);
        if before.len() == 0 {
            lemma_select_after_rise(thresholds, 0, temps.last(), temps.last());
        } else {
            assert(shorter.last() == temps[temps.len() - 2]);
            lemma_select_after_rise(thresholds, before.last(), shorter.last(), temps.last());
        }
        assert forall|a: int, b: int| 0 <= a <= b < temps.len() implies all[a] <= all[b] by {
            if b < temps.len() - 1 {
                assert(all[a] == before[a] && all[b] == before[b]);
            } else if a < b {
                assert(all[a] == before[a]);
                assert(before[a] <= before[before.len() - 1]);
            }
        }
        assert forall|a: int| 0 <= a < temps.len() implies 0 <= #[trigger] all[a]
            < thresholds.len() by {
            if a < temps.len() - 1 {
                assert(all[a] == before[a]);
            }
        }
    }
}

/// While the temperature only falls, a fan never goes up a level after the
/// first temperature, provided that one is at or above the upper bound of
/// the last threshold.
pub proof fn lemma_falling_sweep(thresholds: Seq<TemperatureThreshold>, start: int, temps: Seq<u8>)
    requires
        thresholds.len() > 0,
        0 <= start < thresholds.len(),
        never_rises(temps),
        temps.len() > 0 ==> temps[0] >= thresholds.last().up_threshold,
    ensures
        sweep(thresholds, start, temps).len() == temps.len(),
        forall|a: int|
            0 <= a < temps.len() ==> 0 <= #[trigger] sweep(thresholds, start, temps)[a]
                < thresholds.len(),
        forall|a: int, b: int|
            0 <= a <= b < temps.len() ==> sweep(thresholds, start, temps)[a] >= sweep(
                thresholds,
                start,
                temps,
            )[b],
        temps.len() > 0 ==> fallen_to(
            thresholds,
            sweep(thresholds, start, temps).last(),
            temps.last(),
        ),
    decreases temps.len(),
{
    if temps.len() > 0 {
        let shorter = temps.drop_last();
        assert(never_rises(shorter)) by {
            assert forall|a: int, b: int| 0 <= a <= b < shorter.len() implies shorter[a]
                >= shorter[b] by {
                assert(shorter[a] == temps[a] && shorter[b] == temps[b]);
            }
        }
        if shorter.len() > 0 {
            assert(shorter[0] == temps[0]);
        }
        lemma_falling_sweep(thresholds, start, shorter);
        let before = sweep(thresholds, start, shorter);
        let all = sweep(thresholds, start, temps);
        if before.len() == 0 {
            lemma_select_in_range(thresholds, start, temps.last());
            assert(temps.last() == temps[0]);
        } else {
            assert(shorter.last() == temps[temps.len() - 2]);
            lemma_select_after_fall(thresholds, before.last(), shorter.last(), temps.last());
        }
        assert forall|a: int, b: int| 0 <= a <= b < temps.len() implies all[a] >= all[b] by {
            if b < temps.len() - 1 {
                assert(all[a] == before[a] && all[b] == before[b]);
            } else if a < b {
                assert(all[a] == before[a]);
                assert(before[a] >= before[before.len() - 1]);
            }
        }
        assert forall|a: int| 0 <= a < temps.len() implies 0 <= #[trigger] all[a]
            < thresholds.len() by {
            if a < temps.len() - 1 {
                assert(all[a] == before[a]);
            }
        }
    }
}


/// Whether the lower bounds of a curve never fall from one threshold to the
/// next.
pub open spec fn sorted_by_down(thresholds: Seq<TemperatureThreshold>) -> bool {
    forall|a: int, b: int|
        0 <= a <= b < thresholds.len() ==> thresholds[a].down_threshold
            <= thresholds[b].down_threshold
}

/// A sorted curve with one more threshold, put behind every threshold whose
/// lower bound is not above its own.
pub open spec fn insert_by_down(
    sorted: Seq<TemperatureThreshold>,
    threshold: TemperatureThreshold,
) -> Seq<TemperatureThreshold>
    decreases sorted.len(),
{
    if sorted.len() == 0 {
        seq![threshold]
    } else if sorted.last().down_threshold <= threshold.down_threshold {
        sorted.push(threshold)
    } else {
        insert_by_down(sorted.drop_last(), threshold).push(sorted.last())
    }
}

/// A curve ordered by lower bound. Thresholds with the same lower bound keep
/// the order in which the curve names them.
pub open spec fn sort_by_down(thresholds: Seq<TemperatureThreshold>) -> Seq<TemperatureThreshold>
    decreases thresholds.len(),
{
    if thresholds.len() == 0 {
        Seq::empty()
    } else {
        insert_by_down(sort_by_down(thresholds.drop_last()), thresholds.last())
    }
}

/// Putting a threshold at `place` is the insertion, where every threshold
/// from `place` on has a higher lower bound and the one before `place`, if
/// there is one, has not.
proof fn lemma_insert_at_place(
    sorted: Seq<TemperatureThreshold>,
    threshold: TemperatureThreshold,
    place: int,
)
    requires
        0 <= place <= sorted.len(),
        forall|k: int|
            place <= k < sorted.len() ==> sorted[k].down_threshold > threshold.down_threshold,
        place > 0 ==> sorted[place - 1].down_threshold <= threshold.down_threshold,
    ensures
        insert_by_down(sorted, threshold) == sorted.insert(place, threshold),
    decreases sorted.len(),
{
    if sorted.len() == 0 {
        assert(sorted.insert(place, threshold) =~= seq![threshold]);
    } else if place == sorted.len() {
        assert(sorted.insert(place, threshold) =~= sorted.push(threshold));
    } else {
        lemma_insert_at_place(sorted.drop_last(), threshold, place);
        assert(sorted.drop_last().insert(place, threshold).push(sorted.last()) =~= sorted.insert(
            place,
            threshold,
        ));
    }
}

/// An insertion into a sorted curve gives a sorted curve with the same
/// thresholds and the new one.
pub proof fn lemma_insert_by_down(sorted: Seq<TemperatureThreshold>, threshold: TemperatureThreshold)
    requires
        sorted_by_down(sorted),
    ensures
        sorted_by_down(insert_by_down(sorted, threshold)),
        insert_by_down(sorted, threshold).len() == sorted.len() + 1,
        insert_by_down(sorted, threshold).to_multiset() == sorted.to_multiset().insert(threshold),
    decreases sorted.len(),
{
    broadcast use vstd::seq_lib::group_to_multiset_ensures;

    let result = insert_by_down(sorted, threshold);
    if sorted.len() == 0 {
        assert(sorted =~= Seq::empty());
        assert(result =~= Seq::<TemperatureThreshold>::empty().push(threshold));
    } else if sorted.last().down_threshold <= threshold.down_threshold {
    } else {
        let shorter = sorted.drop_last();
        let inner = insert_by_down(shorter, threshold);
        assert(sorted_by_down(shorter)) by {
            assert forall|a: int, b: int| 0 <= a <= b < shorter.len() implies shorter[a].down_threshold
                <= shorter[b].down_threshold by {
                assert(shorter[a] == sorted[a] && shorter[b] == sorted[b]);
            }
        }
        lemma_insert_by_down(shorter, threshold);
        assert(sorted =~= shorter.push(sorted.last()));
        assert(shorter.push(sorted.last()).to_multiset() == shorter.to_multiset().insert(
            sorted.last(),
        ));
        assert(result.to_multiset() =~= sorted.to_multiset().insert(threshold));
        assert forall|a: int, b: int| 0 <= a <= b < result.len() implies result[a].down_threshold
            <= result[b].down_threshold by {
            if b < inner.len() {
                assert(result[a] == inner[a] && result[b] == inner[b]);
            } else if a < inner.len() {
                assert(result[a] == inner[a]);
                // Every threshold of `inner` is the new one or one of `shorter`.
                assert(inner.to_multiset().count(inner[a]) > 0);
                if inner[a] != threshold {
                    assert(shorter.to_multiset().count(inner[a]) > 0);
                    assert(shorter.contains(inner[a]));
                    let k = choose|k: int| 0 <= k < shorter.len() && shorter[k] == inner[a];
                    assert(sorted[k] == inner[a]);
                    assert(sorted[k].down_threshold <= sorted[sorted.len() - 1].down_threshold);
                }
            }
        }
    }
}

/// The sorted curve is sorted and holds the thresholds of the curve, each
/// as often as the curve does.
pub proof fn lemma_sort_by_down(thresholds: Seq<TemperatureThreshold>)
    ensures
        sorted_by_down(sort_by_down(thresholds)),
        sort_by_down(thresholds).len() == thresholds.len(),
        sort_by_down(thresholds).to_multiset() == thresholds.to_multiset(),
    decreases thresholds.len(),
{
    broadcast use vstd::seq_lib::group_to_multiset_ensures;

    if thresholds.len() == 0 {
        assert(thresholds =~= Seq::empty());
    } else {
        let shorter = thresholds.drop_last();
        lemma_sort_by_down(shorter);
        lemma_insert_by_down(sort_by_down(shorter), thresholds.last());
        assert(thresholds =~= shorter.push(thresholds.last()));
        assert(shorter.push(thresholds.last()).to_multiset() == shorter.to_multiset().insert(
            thresholds.last(),
        ));
    }
}

/// Orders a curve by lower bound. Thresholds with the same lower bound keep
/// their order.
pub fn sort_thresholds(thresholds: &Vec<TemperatureThreshold>) -> (sorted: Vec<TemperatureThreshold>)
    ensures
        sorted@ == sort_by_down(thresholds@),
        sorted_by_down(sorted@),
        sorted@.len() == thresholds@.len(),
        sorted@.to_multiset() == thresholds@.to_multiset(),
{
    let mut sorted: Vec<TemperatureThreshold> = Vec::new();
    let mut i: usize = 0;
    while i < thresholds.len()
        invariant
            i <= thresholds.len(),
            sorted@ == sort_by_down(thresholds@.subrange(0, i as int)),
            sorted@.len() == i,
        decreases thresholds.len() - i,
    {
        let threshold = thresholds[i];
        let mut place: usize = sorted.len();
        while place > 0 && sorted[place - 1].down_threshold > threshold.down_threshold
            invariant
                place <= sorted@.len(),
                forall|k: int|
                    place <= k < sorted@.len() ==> sorted@[k].down_threshold
                        > threshold.down_threshold,
            decreases place,
        {
            place -= 1;
        }
        proof {
            lemma_insert_at_place(sorted@, threshold, place as int);
            let now = thresholds@.subrange(0, i + 1);
            assert(now.drop_last() =~= thresholds@.subrange(0, i as int));
            assert(now.last() == threshold);
        }
        sorted.insert(place, threshold);
        i += 1;
    }
    proof {
        assert(thresholds@.subrange(0, thresholds.len() as int) =~= thresholds@);
        lemma_sort_by_down(thresholds@);
    }
    sorted
}

} // verus!
