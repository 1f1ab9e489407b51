//! Joint-trajectory interpolation over time-stamped keyframes.
//!
//! Times are kept in nanoseconds. The keys of a spline are ordered by time,
//! start at zero, and are framed by two boundary keys that give the curve a
//! tangent at both ends. Evaluating the curve between keys is numeric work that
//! the caller does on the keys handed out here; this module decides when that
//! sample is used, when the terminal pose is returned instead, and what error
//! describes a sample that could not be taken.
use vstd::prelude::*;

verus! {

/// How the curve runs from a key to the next one.
///
/// `Step` carries its threshold in nanoseconds; `Bezier` and `StrokeBezier`
/// carry their control values.
#[derive(Clone, Copy, Debug)]
pub enum Interpolation<V> {
    Step(u64),
    Linear,
    Cosine,
    CatmullRom,
    Bezier(V),
    StrokeBezier(V, V),
}

#[derive(Debug)]
pub enum InterpolatorError<V> {
    /// The curve could not be sampled at the current time: the active mode
    /// lacks control keys around it.
    InterpolationControlKeyError {
        interpolation_mode: String,
        keys_before: usize,
        keys_after: usize,
    },
    /// An interpolator needs at least two keys.
    TooFewKeysError,
    /// A key uses a mode that the interpolator does not evaluate; the mode is
    /// handed back as the key carried it.
    UnsupportedInterpolationMode { interpolation_mode: Interpolation<V> },
}

impl<V> Interpolation<V> {
    /// The modes that an interpolator accepts.
    pub open spec fn is_supported(self) -> bool {
        self is Linear || self is Cosine || self is CatmullRom
    }

    /// The name under which a mode is reported.
    pub open spec fn spec_name(self) -> Seq<char> {
        match self {
            Interpolation::Step(_) => "Step"@,
            Interpolation::Linear => "Linear"@,
            Interpolation::Cosine => "Cosine"@,
            Interpolation::CatmullRom => "CatmullRom"@,
            Interpolation::Bezier(_) => "Bezier"@,
            Interpolation::StrokeBezier(_, _) => "StrokeBezier"@,
        }
    }

    pub fn name(&self) -> (r: String)
        ensures
            r@ == self.spec_name(),
    {
        match self {
            Interpolation::Step(_) => "Step".to_owned(),
            Interpolation::Linear => "Linear".to_owned(),
            Interpolation::Cosine => "Cosine".to_owned(),
            Interpolation::CatmullRom => "CatmullRom".to_owned(),
            Interpolation::Bezier(_) => "Bezier".to_owned(),
            Interpolation::StrokeBezier(_, _) => "StrokeBezier".to_owned(),
        }
    }

    /// Keeps a supported mode; hands any other one back in the error.
    pub fn map_argument(self) -> (r: Result<Interpolation<V>, InterpolatorError<V>>)
        ensures
            self.is_supported() ==> r == Ok::<Interpolation<V>, InterpolatorError<V>>(self),
            !self.is_supported() ==> r == Err::<Interpolation<V>, InterpolatorError<V>>(
                InterpolatorError::UnsupportedInterpolationMode { interpolation_mode: self },
            ),
    {
        match self {
            Interpolation::Linear => Ok(Interpolation::Linear),
            Interpolation::Cosine => Ok(Interpolation::Cosine),
            Interpolation::CatmullRom => Ok(Interpolation::CatmullRom),
            _ => Err(InterpolatorError::UnsupportedInterpolationMode { interpolation_mode: self }),
        }
    }
}

/// A keyframe as supplied by the caller: a time offset in nanoseconds, the
/// configuration reached at that time, and the mode of the segment it starts.
#[derive(Clone, Copy, Debug)]
pub struct Key<V> {
    pub t: u64,
    pub value: V,
    pub interpolation: Interpolation<V>,
}

impl<V> Key<V> {
    pub fn new(t: u64, value: V, interpolation: Interpolation<V>) -> (r: Key<V>)
        ensures
            r == (Key { t, value, interpolation }),
    {
        Key { t, value, interpolation }
    }
}

/// A key of a built spline. Its time, in nanoseconds relative to the first
/// keyframe, is negative for the leading boundary key.
#[derive(Clone, Copy, Debug)]
pub struct SplineKey<V> {
    pub t: i128,
    pub value: V,
    pub interpolation: Interpolation<V>,
}

/// Keys ordered by non-decreasing time.
pub open spec fn is_sorted<V>(s: Seq<SplineKey<V>>) -> bool {
    forall|i: int, j: int| 0 <= i <= j < s.len() ==> s[i].t <= s[j].t
}

/// The first index from `i` on whose key lies strictly after `t`, or the length.
pub open spec fn first_after<V>(s: Seq<SplineKey<V>>, t: int, i: int) -> int
    decreases s.len() - i,
{
    if i < 0 || i >= s.len() {
        s.len() as int
    } else if s[i].t > t {
        i
    } else {
        first_after(s, t, i + 1)
    }
}

/// `k` added to `s` after every key that is not later than it: on sorted keys,
/// this is where a stable sort puts a key appended at the end.
pub open spec fn insert_sorted<V>(s: Seq<SplineKey<V>>, k: SplineKey<V>) -> Seq<SplineKey<V>> {
    s.insert(first_after(s, k.t as int, 0), k)
}

/// The keys ordered by time; keys of equal time keep their order.
pub open spec fn sorted_by_time<V>(s: Seq<SplineKey<V>>) -> Seq<SplineKey<V>>
    decreases s.len(),
{
    if s.len() == 0 {
        s
    } else {
        insert_sorted(sorted_by_time(s.drop_last()), s.last())
    }
}

proof fn lemma_first_after<V>(s: Seq<SplineKey<V>>, t: int, i: int)
    requires
        0 <= i <= s.len(),
    ensures
        i <= first_after(s, t, i) <= s.len(),
        forall|j: int| i <= j < first_after(s, t, i) ==> s[j].t <= t,
        first_after(s, t, i) < s.len() ==> s[first_after(s, t, i)].t > t,
    decreases s.len() - i,
{
    if i < s.len() && s[i].t <= t {
        lemma_first_after(s, t, i + 1);
    }
}

proof fn lemma_insert_sorted<V>(s: Seq<SplineKey<V>>, k: SplineKey<V>)
    requires
        is_sorted(s),
    ensures
        is_sorted(insert_sorted(s, k)),
        insert_sorted(s, k).len() == s.len() + 1,
        forall|j: int| 0 <= j < s.len() && s[j].t <= k.t ==> j < first_after(s, k.t as int, 0),
{
    lemma_first_after(s, k.t as int, 0);
    let p = first_after(s, k.t as int, 0);
    let r = insert_sorted(s, k);
    assert forall|j: int| 0 <= j < s.len() && s[j].t <= k.t implies j < p by {
        if j >= p {
            assert(s[p].t <= s[j].t);
        }
    }
    assert forall|i: int, j: int| 0 <= i <= j < r.len() implies r[i].t <= r[j].t by {
        if i < p && j > p {
            assert(s[i].t <= s[j - 1].t);
        } else if i > p {
            assert(s[i - 1].t <= s[j - 1].t);
        } else if i == p && j > p {
            assert(s[p].t <= s[j - 1].t);
        }
    }
}

/// Ordering keys by time gives sorted keys, the same keys in another order.
pub proof fn lemma_sorted_by_time<V>(s: Seq<SplineKey<V>>)
    ensures
        is_sorted(sorted_by_time(s)),
        sorted_by_time(s).len() == s.len(),
        sorted_by_time(s).to_multiset() == s.to_multiset(),
    decreases s.len(),
{
    if s.len() > 0 {
        let init = s.drop_last();
        lemma_sorted_by_time(init);
        lemma_insert_sorted(sorted_by_time(init), s.last());
        lemma_first_after(sorted_by_time(init), s.last().t as int, 0);
        vstd::seq_lib::to_multiset_insert(
            sorted_by_time(init),
            first_after(sorted_by_time(init), s.last().t as int, 0),
            s.last(),
        );
        assert(init.push(s.last()) =~= s);
        vstd::seq_lib::to_multiset_build(init, s.last());
    }
}

/// Keys already in order are left as they are.
pub proof fn lemma_sorted_stays<V>(s: Seq<SplineKey<V>>)
    requires
        is_sorted(s),
    ensures
        sorted_by_time(s) == s,
    decreases s.len(),
{
    if s.len() > 0 {
        let init = s.drop_last();
        assert(is_sorted(init));
        lemma_sorted_stays(init);
        lemma_first_after(init, s.last().t as int, 0);
        let p = first_after(init, s.last().t as int, 0);
        if p < init.len() {
            assert(init[p].t <= s.last().t);
        }
        assert(init.insert(p, s.last()) =~= s);
    }
}

/// Inserts `k` after every key that is not later than it.
fn add_sorted<V: Copy>(keys: &mut Vec<SplineKey<V>>, k: SplineKey<V>)
    ensures
        final(keys)@ == insert_sorted(old(keys)@, k),
{
    let mut i: usize = 0;
    while i < keys.len() && keys[i].t <= k.t
        invariant
            0 <= i <= keys@.len(),
            first_after(keys@, k.t as int, 0) == first_after(keys@, k.t as int, i as int),
        decreases keys@.len() - i,
    {
        i = i + 1;
    }
    keys.insert(i, k);
}

/// Every key of `s` has a time within `lo..=hi`.
pub open spec fn times_within<V>(s: Seq<SplineKey<V>>, lo: int, hi: int) -> bool {
    forall|i: int| 0 <= i < s.len() ==> lo <= #[trigger] s[i].t <= hi
}

proof fn lemma_sorted_by_time_within<V>(s: Seq<SplineKey<V>>, lo: int, hi: int)
    requires
        times_within(s, lo, hi),
    ensures
        times_within(sorted_by_time(s), lo, hi),
    decreases s.len(),
{
    if s.len() > 0 {
        assert(times_within(s.drop_last(), lo, hi));
        lemma_sorted_by_time_within(s.drop_last(), lo, hi);
        lemma_sorted_by_time(s.drop_last());
        lemma_first_after(sorted_by_time(s.drop_last()), s.last().t as int, 0);
    }
}

pub open spec fn as_spline_key<V>(k: Key<V>) -> SplineKey<V> {
    SplineKey { t: k.t as i128, value: k.value, interpolation: k.interpolation }
}

pub open spec fn spline_keys_of<V>(keys: Seq<Key<V>>) -> Seq<SplineKey<V>> {
    keys.map_values(|k: Key<V>| as_spline_key(k))
}

/// The keys moved in time so that `start` becomes zero.
pub open spec fn shifted<V>(s: Seq<SplineKey<V>>, start: int) -> Seq<SplineKey<V>> {
    Seq::new(
        s.len(),
        |i: int|
            SplineKey {
                t: (s[i].t - start) as i128,
                value: s[i].value,
                interpolation: s[i].interpolation,
            },
    )
}

/// The keyframes of a spline built from `keys`: ordered by time and starting at zero.
pub open spec fn normalized_keys<V>(keys: Seq<Key<V>>) -> Seq<SplineKey<V>> {
    let sorted = sorted_by_time(spline_keys_of(keys));
    shifted(sorted, sorted[0].t as int)
}

/// The key that `center` mirrors about itself: it lies as far beyond `center`
/// as `other` lies before it, and carries `other`'s value and `center`'s mode.
pub open spec fn boundary_key<V>(center: SplineKey<V>, other: SplineKey<V>) -> SplineKey<V> {
    SplineKey {
        t: (2 * center.t - other.t) as i128,
        value: other.value,
        interpolation: center.interpolation,
    }
}

/// The keyframes with a trailing boundary key mirrored about the last one,
/// then a leading one mirrored about the first.
pub open spec fn with_boundaries<V>(s: Seq<SplineKey<V>>) -> Seq<SplineKey<V>> {
    let n = s.len() as int;
    let trailing = insert_sorted(s, boundary_key(s[n - 1], s[n - 2]));
    insert_sorted(trailing, boundary_key(trailing[0], trailing[1]))
}

pub open spec fn all_supported<V>(s: Seq<SplineKey<V>>) -> bool {
    forall|i: int| 0 <= i < s.len() ==> (#[trigger] s[i]).interpolation.is_supported()
}

/// The first index from `i` on whose key has an unsupported mode, or the length.
pub open spec fn first_unsupported<V>(s: Seq<SplineKey<V>>, i: int) -> int
    decreases s.len() - i,
{
    if i < 0 || i >= s.len() {
        s.len() as int
    } else if !s[i].interpolation.is_supported() {
        i
    } else {
        first_unsupported(s, i + 1)
    }
}

/// The number of keys strictly before `now`.
pub open spec fn count_before<V>(s: Seq<SplineKey<V>>, now: int) -> nat
    decreases s.len(),
{
    if s.len() == 0 {
        0
    } else {
        count_before(s.drop_last(), now) + if s.last().t < now { 1nat } else { 0nat }
    }
}

/// The number of keys strictly after `now`.
pub open spec fn count_after<V>(s: Seq<SplineKey<V>>, now: int) -> nat
    decreases s.len(),
{
    if s.len() == 0 {
        0
    } else {
        count_after(s.drop_last(), now) + if s.last().t > now { 1nat } else { 0nat }
    }
}

/// The index of the last key strictly before `now`, or zero if there is none.
pub open spec fn active_index<V>(s: Seq<SplineKey<V>>, now: int) -> int
    decreases s.len(),
{
    if s.len() == 0 {
        0
    } else if s.last().t < now {
        s.len() - 1
    } else {
        active_index(s.drop_last(), now)
    }
}

/// A motion: a starting configuration and frames, each reached after its
/// duration (in nanoseconds) from the one before.
pub struct MotionFile<V> {
    pub initial_positions: V,
    pub frames: Vec<MotionFrame<V>>,
}

#[derive(Clone, Copy, Debug)]
pub struct MotionFrame<V> {
    pub duration: u64,
    pub positions: V,
}

/// The time at which frame `i` of a motion starts: the sum of the first `i` durations.
pub open spec fn elapsed<V>(frames: Seq<MotionFrame<V>>, i: int) -> int
    decreases i,
{
    if i <= 0 || i > frames.len() {
        0
    } else {
        elapsed(frames, i - 1) + frames[i - 1].duration
    }
}

/// The keys of a motion: the starting configuration at time zero, then each
/// frame at the end of its duration, all joined linearly.
pub open spec fn motion_keys<V>(initial: V, frames: Seq<MotionFrame<V>>) -> Seq<Key<V>> {
    Seq::new(
        frames.len() + 1,
        |i: int|
            Key {
                t: elapsed(frames, i) as u64,
                value: if i == 0 {
                    initial
                } else {
                    frames[i - 1].positions
                },
                interpolation: Interpolation::Linear,
            },
    )
}

proof fn lemma_elapsed_grows<V>(frames: Seq<MotionFrame<V>>, i: int, j: int)
    requires
        0 <= i <= j <= frames.len(),
    ensures
        0 <= elapsed(frames, i) <= elapsed(frames, j),
    decreases j,
{
    if j > 0 {
        if i == j {
            lemma_elapsed_grows(frames, i - 1, j - 1);
        } else {
            lemma_elapsed_grows(frames, i, j - 1);
        }
    }
}

/// Samples joint configurations along a spline over keyframes, driven by its
/// own playback clock.
pub struct SplineInterpolator<V> {
    spline: Vec<SplineKey<V>>,
    current_time: u64,
    end_time: u64,
}

impl<V: Copy> SplineInterpolator<V> {
    /// The spline's keys, boundary keys included.
    pub closed spec fn spec_keys(&self) -> Seq<SplineKey<V>> {
        self.spline@
    }

    /// The playback time in nanoseconds.
    pub closed spec fn spec_time(&self) -> u64 {
        self.current_time
    }

    /// The playback duration: the last keyframe's time less the first one's.
    pub closed spec fn spec_end(&self) -> u64 {
        self.end_time
    }

    pub closed spec fn wf(&self) -> bool {
        self.spline@.len() >= 4
    }

    pub open spec fn spec_finished(&self) -> bool {
        self.spec_time() >= self.spec_end()
    }

    /// What building an interpolator from `keys` gives: too few keys are
    /// refused, then the first unsupported mode in time order; otherwise the
    /// keyframes in time order from zero, framed by boundary keys, with the
    /// clock at zero.
    pub open spec fn built_from(keys: Seq<Key<V>>, r: Result<Self, InterpolatorError<V>>) -> bool {
        let norm = normalized_keys(keys);
        if keys.len() < 2 {
            r matches Err(InterpolatorError::TooFewKeysError)
        } else if !all_supported(norm) {
            &&& r matches Err(InterpolatorError::UnsupportedInterpolationMode { interpolation_mode })
            &&& interpolation_mode == norm[first_unsupported(norm, 0)].interpolation
        } else {
            &&& r matches Ok(s)
            &&& s.wf()
            &&& s.spec_keys() == with_boundaries(norm)
            &&& s.spec_time() == 0
            &&& s.spec_end() == norm.last().t
        }
    }

    pub fn try_new(keys: Vec<Key<V>>) -> (r: Result<Self, InterpolatorError<V>>)
        ensures
            Self::built_from(keys@, r),
    {
        if keys.len() < 2 {
            return Err(InterpolatorError::TooFewKeysError);
        }
        let ghost all = spline_keys_of(keys@);
        let mut sorted: Vec<SplineKey<V>> = Vec::new();
        let mut i: usize = 0;
        while i < keys.len()
            invariant
                0 <= i <= keys@.len(),
                all == spline_keys_of(keys@),
                sorted@ == sorted_by_time(all.subrange(0, i as int)),
            decreases keys@.len() - i,
        {
            let k = keys[i];
            add_sorted(&mut sorted, SplineKey { t: k.t as i128, value: k.value, interpolation: k.interpolation });
            assert(all.subrange(0, i + 1).drop_last() =~= all.subrange(0, i as int));
            i = i + 1;
        }
        assert(all.subrange(0, i as int) =~= all);
        proof {
            lemma_sorted_by_time(all);
            assert(times_within(all, 0, u64::MAX as int));
            lemma_sorted_by_time_within(all, 0, u64::MAX as int);
        }
        let ghost norm = normalized_keys(keys@);
        let start = sorted[0].t;
        let mut spline: Vec<SplineKey<V>> = Vec::new();
        let mut j: usize = 0;
        while j < sorted.len()
            invariant
                0 <= j <= sorted@.len(),
                keys@.len() >= 2,
                sorted@.len() == keys@.len(),
                sorted@ == sorted_by_time(all),
                is_sorted(sorted@),
                times_within(sorted@, 0, u64::MAX as int),
                start == sorted@[0].t,
                norm == normalized_keys(keys@),
                norm == shifted(sorted@, start as int),
                spline@ == norm.subrange(0, j as int),
                first_unsupported(norm, 0) == first_unsupported(norm, j as int),
            decreases sorted@.len() - j,
        {
            let k = sorted[j];
            assert(sorted@[0].t <= sorted@[j as int].t);
            match k.interpolation.map_argument() {
                Err(e) => {
                    assert(norm[j as int].interpolation == k.interpolation);
                    assert(first_unsupported(norm, j as int) == j);
                    assert(!norm[j as int].interpolation.is_supported());
                    assert(!all_supported(norm));
                    return Err(e);
                },
                Ok(mode) => {
                    spline.push(SplineKey { t: k.t - start, value: k.value, interpolation: mode });
                },
            }
            assert(spline@ =~= norm.subrange(0, j + 1));
            j = j + 1;
        }
        assert(spline@ =~= norm);
        assert(all_supported(norm)) by {
            assert forall|l: int| 0 <= l < norm.len() implies (#[trigger] norm[l]).interpolation.is_supported() by {
                lemma_first_unsupported(norm, 0, l);
            }
        }
        let n = spline.len();
        assert(times_within(norm, 0, u64::MAX as int)) by {
            assert forall|l: int| 0 <= l < norm.len() implies 0 <= #[trigger] norm[l].t <= u64::MAX by {
                assert(sorted@[0].t <= sorted@[l].t);
            }
        }
        let end_time = spline[n - 1].t as u64;
        let trailing = create_zero_gradient(&spline[n - 1], &spline[n - 2]);
        assert(-(u64::MAX as int) <= trailing.t <= 2 * (u64::MAX as int));
        add_sorted(&mut spline, trailing);
        let ghost with_trailing = spline@;
        proof {
            let p = first_after(norm, trailing.t as int, 0);
            lemma_first_after(norm, trailing.t as int, 0);
            assert forall|l: int| 0 <= l < with_trailing.len() implies -(u64::MAX as int)
                <= #[trigger] with_trailing[l].t <= 2 * (u64::MAX as int) by {
                if l < p {
                    assert(with_trailing[l] == norm[l]);
                } else if l > p {
                    assert(with_trailing[l] == norm[l - 1]);
                }
            }
            lemma_first_after(with_trailing, 2 * with_trailing[0].t - with_trailing[1].t, 0);
        }
        let leading = create_zero_gradient(&spline[0], &spline[1]);
        add_sorted(&mut spline, leading);
        Ok(SplineInterpolator { spline, current_time: 0, end_time })
    }

    /// Builds the interpolator of a motion: the starting configuration at time
    /// zero, then each frame after its duration, joined linearly.
    pub fn try_from(motion_file: MotionFile<V>) -> (r: Result<Self, InterpolatorError<V>>)
        requires
            elapsed(motion_file.frames@, motion_file.frames@.len() as int) <= u64::MAX,
        ensures
            Self::built_from(motion_keys(motion_file.initial_positions, motion_file.frames@), r),
    {
        let frames = &motion_file.frames;
        let ghost expected = motion_keys(motion_file.initial_positions, frames@);
        let mut current_time: u64 = 0;
        let mut keys: Vec<Key<V>> = Vec::new();
        keys.push(Key::new(current_time, motion_file.initial_positions, Interpolation::Linear));
        let mut i: usize = 0;
        while i < frames.len()
            invariant
                0 <= i <= frames@.len(),
                elapsed(frames@, frames@.len() as int) <= u64::MAX,
                expected == motion_keys(motion_file.initial_positions, frames@),
                current_time == elapsed(frames@, i as int),
                keys@ == expected.subrange(0, i + 1),
            decreases frames@.len() - i,
        {
            proof {
                lemma_elapsed_grows(frames@, i + 1, frames@.len() as int);
            }
            current_time = current_time + frames[i].duration;
            keys.push(Key::new(current_time, frames[i].positions, Interpolation::Linear));
            assert(keys@ =~= expected.subrange(0, i + 2));
            i = i + 1;
        }
        assert(keys@ =~= expected);
        Self::try_new(keys)
    }

    /// Moves the playback clock on by `time_step` nanoseconds.
    pub fn advance_by(&mut self, time_step: u64)
        requires
            old(self).wf(),
            old(self).spec_time() + time_step <= u64::MAX,
        ensures
            final(self).wf(),
            final(self).spec_time() == old(self).spec_time() + time_step,
            final(self).spec_keys() == old(self).spec_keys(),
            final(self).spec_end() == old(self).spec_end(),
    {
        self.current_time = self.current_time + time_step;
    }

    /// The configuration at the current time. Once playback is finished this is
    /// the last keyframe's value, whatever `sample` holds. Before that it is
    /// `sample`, the curve evaluated at the current time, where the curve could
    /// be evaluated there; where it could not, the error names the mode of the
    /// last key before the current time (or of the first key, if none is
    /// before it) and counts the keys strictly before and strictly after it.
    pub fn value(&self, sample: Option<V>) -> (r: Result<V, InterpolatorError<V>>)
        requires
            self.wf(),
        ensures
            self.spec_finished() ==> r == Ok::<V, InterpolatorError<V>>(
                self.spec_keys()[self.spec_keys().len() - 2].value,
            ),
            !self.spec_finished() && sample is Some ==> r == Ok::<V, InterpolatorError<V>>(
                sample->0,
            ),
            !self.spec_finished() && sample is None ==> Self::control_key_error(
                self.spec_keys(),
                self.spec_time() as int,
                r,
            ),
    {
        if self.current_time >= self.end_time {
            Ok(self.spline[self.spline.len() - 2].value)
        } else {
            match sample {
                Some(v) => Ok(v),
                None => Err(create_control_key_error(&self.spline, self.current_time)),
            }
        }
    }

    /// `r` is the error for a curve over `keys` that cannot be evaluated at `now`.
    pub open spec fn control_key_error(
        keys: Seq<SplineKey<V>>,
        now: int,
        r: Result<V, InterpolatorError<V>>,
    ) -> bool {
        &&& r matches Err(
            InterpolatorError::InterpolationControlKeyError {
                interpolation_mode,
                keys_before,
                keys_after,
            },
        )
        &&& interpolation_mode@ == keys[active_index(keys, now)].interpolation.spec_name()
        &&& keys_before == count_before(keys, now)
        &&& keys_after == count_after(keys, now)
    }

    pub fn is_finished(&self) -> (r: bool)
        ensures
            r == self.spec_finished(),
    {
        self.current_time >= self.end_time
    }

    /// Puts the playback clock back to zero; the keys stay as they are.
    pub fn reset(&mut self)
        requires
            old(self).wf(),
        ensures
            final(self).wf(),
            final(self).spec_time() == 0,
            final(self).spec_keys() == old(self).spec_keys(),
            final(self).spec_end() == old(self).spec_end(),
    {
        self.current_time = 0;
    }

    /// The spline's keys, boundary keys included, ordered by time.
    pub fn keys(&self) -> (r: &Vec<SplineKey<V>>)
        ensures
            r@ == self.spec_keys(),
    {
        &self.spline
    }

    /// The playback time in nanoseconds.
    pub fn current_time(&self) -> (r: u64)
        ensures
            r == self.spec_time(),
    {
        self.current_time
    }

    /// The playback duration in nanoseconds.
    pub fn end_time(&self) -> (r: u64)
        ensures
            r == self.spec_end(),
    {
        self.end_time
    }
}

/// The key that `key_center` mirrors about itself (see `boundary_key`).
fn create_zero_gradient<V: Copy>(key_center: &SplineKey<V>, key_other: &SplineKey<V>) -> (r:
    SplineKey<V>)
    requires
        i128::MIN <= 2 * key_center.t <= i128::MAX,
        i128::MIN <= 2 * key_center.t - key_other.t <= i128::MAX,
    ensures
        r == boundary_key(*key_center, *key_other),
{
    SplineKey {
        t: 2 * key_center.t - key_other.t,
        value: key_other.value,
        interpolation: key_center.interpolation,
    }
}

/// The error for a curve over `keys` that cannot be evaluated at `now`.
fn create_control_key_error<V: Copy>(keys: &Vec<SplineKey<V>>, now: u64) -> (r: InterpolatorError<V>)
    requires
        keys@.len() >= 1,
    ensures
        SplineInterpolator::<V>::control_key_error(keys@, now as int, Err(r)),
{
    let now = now as i128;
    let mut active: usize = 0;
    let mut keys_before: usize = 0;
    let mut keys_after: usize = 0;
    let mut i: usize = 0;
    while i < keys.len()
        invariant
            0 <= i <= keys@.len(),
            keys_before <= i,
            keys_after <= i,
            active < keys@.len(),
            active == active_index(keys@.subrange(0, i as int), now as int),
            keys_before == count_before(keys@.subrange(0, i as int), now as int),
            keys_after == count_after(keys@.subrange(0, i as int), now as int),
        decreases keys@.len() - i,
    {
        assert(keys@.subrange(0, i + 1).drop_last() =~= keys@.subrange(0, i as int));
        if keys[i].t < now {
            active = i;
            keys_before = keys_before + 1;
        }
        if keys[i].t > now {
            keys_after = keys_after + 1;
        }
        i = i + 1;
    }
    assert(keys@.subrange(0, i as int) =~= keys@);
    InterpolatorError::InterpolationControlKeyError {
        interpolation_mode: keys[active].interpolation.name(),
        keys_before,
        keys_after,
    }
}

/// The keyframes of a built spline are sorted, start at zero, and lie within
/// the range of a `u64`.
pub proof fn lemma_normalized<V>(keys: Seq<Key<V>>)
    requires
        keys.len() >= 1,
    ensures
        is_sorted(normalized_keys(keys)),
        normalized_keys(keys).len() == keys.len(),
        normalized_keys(keys)[0].t == 0,
        times_within(normalized_keys(keys), 0, u64::MAX as int),
{
    let all = spline_keys_of(keys);
    assert(times_within(all, 0, u64::MAX as int));
    lemma_sorted_by_time(all);
    lemma_sorted_by_time_within(all, 0, u64::MAX as int);
    let sorted = sorted_by_time(all);
    let norm = normalized_keys(keys);
    assert forall|i: int| 0 <= i < norm.len() implies 0 <= #[trigger] norm[i].t <= u64::MAX && norm[i].t
        == sorted[i].t - sorted[0].t by {
        assert(sorted[0].t <= sorted[i].t);
    }
}

/// On keyframes given in time order, the spline starts at zero with the
/// first keyframe's value and mode.
pub proof fn lemma_first_key_at_start<V>(keys: Seq<Key<V>>)
    requires
        keys.len() >= 2,
        forall|i: int, j: int| 0 <= i <= j < keys.len() ==> keys[i].t <= keys[j].t,
    ensures
        normalized_keys(keys)[0] == (SplineKey {
            t: 0,
            value: keys[0].value,
            interpolation: keys[0].interpolation,
        }),
{
    let all = spline_keys_of(keys);
    assert(is_sorted(all));
    lemma_sorted_stays(all);
}

/// Once playback is finished, the value handed out is that of the last
/// keyframe, not of the boundary key beyond it, provided that the keyframes
/// do not all share one time.
pub proof fn lemma_terminal_pose<V>(keys: Seq<Key<V>>)
    requires
        keys.len() >= 2,
        normalized_keys(keys).last().t > 0,
    ensures
        ({
            let norm = normalized_keys(keys);
            let spline = with_boundaries(norm);
            &&& spline.len() == norm.len() + 2
            &&& spline[spline.len() - 2] == norm.last()
        }),
{
    lemma_normalized(keys);
    let norm = normalized_keys(keys);
    let n = norm.len() as int;
    let trailing = boundary_key(norm[n - 1], norm[n - 2]);
    assert(norm[n - 2].t <= norm[n - 1].t);
    lemma_first_after(norm, trailing.t as int, 0);
    let p = first_after(norm, trailing.t as int, 0);
    if p < n {
        assert(norm[p].t <= norm[n - 1].t);
    }
    let wt = insert_sorted(norm, trailing);
    assert(wt == norm.push(trailing));
    let leading = boundary_key(wt[0], wt[1]);
    assert(norm[0].t <= norm[1].t);
    lemma_first_after(wt, leading.t as int, 0);
    let q = first_after(wt, leading.t as int, 0);
    if q > n - 1 {
        assert(wt[n - 1].t <= leading.t);
    }
}

/// Advancing the clock of a fresh interpolator and then resetting it gives
/// back the fresh playback state: the same keys, end and time zero, so the
/// same samples and the same answer to whether playback is finished.
/// `advanced` and `reset` are the states after `advance_by(step)` and `reset()`.
pub proof fn lemma_reset_after_advance<V: Copy>(
    fresh: SplineInterpolator<V>,
    advanced: SplineInterpolator<V>,
    reset: SplineInterpolator<V>,
    step: u64,
)
    requires
        fresh.spec_time() == 0,
        advanced.spec_time() == fresh.spec_time() + step,
        advanced.spec_keys() == fresh.spec_keys(),
        advanced.spec_end() == fresh.spec_end(),
        reset.spec_time() == 0,
        reset.spec_keys() == advanced.spec_keys(),
        reset.spec_end() == advanced.spec_end(),
    ensures
        reset.spec_keys() == fresh.spec_keys(),
        reset.spec_end() == fresh.spec_end(),
        reset.spec_time() == fresh.spec_time(),
        reset.spec_finished() == fresh.spec_finished(),
{
}

proof fn lemma_first_unsupported<V>(s: Seq<SplineKey<V>>, i: int, l: int)
    requires
        0 <= i <= l < s.len(),
        first_unsupported(s, i) == s.len(),
    ensures
        s[l].interpolation.is_supported(),
    decreases l - i,
{
    if i < l {
        lemma_first_unsupported(s, i + 1, l);
    }
}

} // verus!
