//! The sunrise/sunset schedule: which theme is in effect at an instant and
//! when the next transition is.
//!
//! The astronomy is done by the caller. For a UTC calendar day it hands in
//! that day's `(sunrise, sunset)` instants, or `None` on a day without them
//! (polar day or night). Instants are milliseconds since the Unix epoch,
//! UTC; days are counted from 1970-01-01.

use vstd::prelude::*;
use crate::theme::Theme;

verus! {

/// Milliseconds in a day.
pub const MS_PER_DAY: i64 = 86_400_000;

/// A transition: the instant and the theme in effect after it.
pub type Transition = (i64, Theme);

/// The UTC calendar day (days since 1970-01-01) holding instant `t`.
pub open spec fn utc_day_of(t: int) -> int {
    t / (MS_PER_DAY as int)
}

/// The transitions of one day: sunrise brings Light, sunset brings Dark.
pub open spec fn day_transitions(d: Option<(i64, i64)>) -> Seq<Transition> {
    match d {
        Some((rise, set)) => seq![(rise, Theme::Light), (set, Theme::Dark)],
        None => seq![],
    }
}

/// The transitions of consecutive days, day by day, sunrise before sunset.
pub open spec fn raw_transitions(days: Seq<Option<(i64, i64)>>) -> Seq<Transition>
    decreases days.len(),
{
    if days.len() == 0 {
        seq![]
    } else {
        raw_transitions(days.drop_last()) + day_transitions(days.last())
    }
}

/// How many leading transitions of `s` are at or before `t`.
pub open spec fn count_at_or_before(s: Seq<Transition>, t: i64) -> nat
    decreases s.len(),
{
    if s.len() == 0 {
        0
    } else if s[0].0 <= t {
        1 + count_at_or_before(s.drop_first(), t)
    } else {
        0
    }
}

/// Insert `e` after every leading transition at or before it.
pub open spec fn insert_by_time(s: Seq<Transition>, e: Transition) -> Seq<Transition> {
    s.insert(count_at_or_before(s, e.0) as int, e)
}

/// Stable sort by instant (insertion sort).
pub open spec fn sort_by_time(s: Seq<Transition>) -> Seq<Transition>
    decreases s.len(),
{
    if s.len() == 0 {
        s
    } else {
        insert_by_time(sort_by_time(s.drop_last()), s.last())
    }
}

/// The transitions of consecutive days, in time order.
pub open spec fn window_of(days: Seq<Option<(i64, i64)>>) -> Seq<Transition> {
    sort_by_time(raw_transitions(days))
}

/// Ordered by instant.
pub open spec fn sorted_by_time(s: Seq<Transition>) -> bool {
    forall|i: int, j: int| 0 <= i <= j < s.len() ==> s[i].0 <= s[j].0
}

/// The predicate "happens at instant `t`".
pub open spec fn at_instant(t: i64) -> spec_fn(Transition) -> bool {
    |e: Transition| e.0 == t
}

/// The theme of the last transition of `w` at or before `now`.
pub open spec fn last_at_or_before(w: Seq<Transition>, now: i64) -> Option<Theme>
    decreases w.len(),
{
    if w.len() == 0 {
        None
    } else if w.last().0 <= now {
        Some(w.last().1)
    } else {
        last_at_or_before(w.drop_last(), now)
    }
}

/// The instant of the first transition of `w` after `now`.
pub open spec fn first_after(w: Seq<Transition>, now: i64) -> Option<i64>
    decreases w.len(),
{
    if w.len() == 0 {
        None
    } else if w[0].0 > now {
        Some(w[0].0)
    } else {
        first_after(w.drop_first(), now)
    }
}

/// The first sunrise or sunset after `now` in the days of `later` (taken in
/// order), or one day after `now` when there is none.
pub open spec fn next_beyond(later: Seq<Option<(i64, i64)>>, now: i64) -> int
    decreases later.len(),
{
    if later.len() == 0 {
        now + MS_PER_DAY
    } else {
        match later[0] {
            Some((rise, set)) => if rise > now {
                rise as int
            } else if set > now {
                set as int
            } else {
                next_beyond(later.drop_first(), now)
            },
            None => next_beyond(later.drop_first(), now),
        }
    }
}

/// The theme in effect at `now` given the window and, for a window with no
/// transition at or before `now`, whether the sun is above the horizon.
pub open spec fn theme_at(w: Seq<Transition>, now: i64, sun_up: bool) -> Theme {
    match last_at_or_before(w, now) {
        Some(t) => t,
        None => if sun_up { Theme::Light } else { Theme::Dark },
    }
}

/// The next transition after `now`: from the window, else from the days
/// beyond it.
pub open spec fn next_transition(w: Seq<Transition>, later: Seq<Option<(i64, i64)>>, now: i64) -> int {
    match first_after(w, now) {
        Some(t) => t as int,
        None => next_beyond(later, now),
    }
}

/// The UTC calendar day holding instant `t`.
pub fn utc_day(t: i64) -> (d: i64)
    ensures
        d == utc_day_of(t as int),
{
    if t >= 0 {
        t / MS_PER_DAY
    } else {
        let back = -(t + 1);
        let d = -(back / MS_PER_DAY) - 1;
        assert(d == utc_day_of(t as int)) by (nonlinear_arith)
            requires
                back == -(t + 1),
                back >= 0,
                d == -(back / MS_PER_DAY) - 1,
                t < 0,
        {
        }
        d
    }
}

proof fn lemma_count_skip(s: Seq<Transition>, t: i64, p: int)
    requires
        0 <= p < s.len(),
        s[p].0 <= t,
        count_at_or_before(s, t) == p + count_at_or_before(s.subrange(p, s.len() as int), t),
    ensures
        count_at_or_before(s, t) == (p + 1) + count_at_or_before(s.subrange(p + 1, s.len() as int), t),
{
    let rest = s.subrange(p, s.len() as int);
    assert(rest.drop_first() =~= s.subrange(p + 1, s.len() as int));
}

/// Insert `e` into `w` after every leading transition at or before it.
fn insert_by_time_exec(w: &mut Vec<Transition>, e: Transition)
    ensures
        final(w)@ == insert_by_time(old(w)@, e),
{
    let mut p: usize = 0;
    assert(old(w)@.subrange(0, old(w)@.len() as int) =~= old(w)@);
    while p < w.len() && w[p].0 <= e.0
        invariant
            w@ == old(w)@,
            p <= w@.len(),
            count_at_or_before(w@, e.0) == p + count_at_or_before(w@.subrange(p as int, w@.len() as int), e.0),
        decreases w@.len() - p,
    {
        proof {
            lemma_count_skip(w@, e.0, p as int);
        }
        p = p + 1;
    }
    assert(count_at_or_before(w@.subrange(p as int, w@.len() as int), e.0) == 0);
    w.insert(p, e);
}

/// The transitions of consecutive days (typically the day before, the day
/// of and the day after an instant), stably sorted by instant.
pub fn transitions_window(days: &Vec<Option<(i64, i64)>>) -> (w: Vec<Transition>)
    ensures
        w@ == window_of(days@),
{
    let mut w: Vec<Transition> = Vec::new();
    let mut i: usize = 0;
    assert(days@.take(0) =~= seq![]);
    while i < days.len()
        invariant
            i <= days@.len(),
            w@ == sort_by_time(raw_transitions(days@.take(i as int))),
        decreases days@.len() - i,
    {
        let ghost before = raw_transitions(days@.take(i as int));
        assert(days@.take(i + 1).drop_last() =~= days@.take(i as int));
        match days[i] {
            Some((rise, set)) => {
                insert_by_time_exec(&mut w, (rise, Theme::Light));
                insert_by_time_exec(&mut w, (set, Theme::Dark));
                proof {
                    let a = (rise, Theme::Light);
                    let b = (set, Theme::Dark);
                    let full = raw_transitions(days@.take(i + 1));
                    assert(full =~= before.push(a).push(b));
                    assert(before.push(a).drop_last() =~= before);
                    assert(before.push(a).push(b).drop_last() =~= before.push(a));
                    assert(sort_by_time(before.push(a)) == insert_by_time(sort_by_time(before), a));
                    assert(sort_by_time(before.push(a).push(b))
                        == insert_by_time(sort_by_time(before.push(a)), b));
                }
            },
            None => {
                assert(raw_transitions(days@.take(i + 1)) =~= before);
            },
        }
        i = i + 1;
    }
    assert(days@.take(days@.len() as int) =~= days@);
    w
}

/// The first sunrise or sunset after `now` in the days of `later` (the
/// days after the window, in order), or one day after `now` when none.
pub fn next_transition_beyond_window(now: i64, later: &Vec<Option<(i64, i64)>>) -> (r: i64)
    requires
        now <= i64::MAX - MS_PER_DAY,
    ensures
        r == next_beyond(later@, now),
{
    let mut i: usize = 0;
    assert(later@.subrange(0, later@.len() as int) =~= later@);
    while i < later.len()
        invariant
            i <= later@.len(),
            next_beyond(later@, now) == next_beyond(later@.subrange(i as int, later@.len() as int), now),
        decreases later@.len() - i,
    {
        let ghost rest = later@.subrange(i as int, later@.len() as int);
        assert(rest.drop_first() =~= later@.subrange(i + 1, later@.len() as int));
        if let Some((rise, set)) = later[i] {
            if rise > now {
                return rise;
            }
            if set > now {
                return set;
            }
        }
        i = i + 1;
    }
    now + MS_PER_DAY
}

/// The theme in effect at `now` and the next transition instant.
///
/// `days` are the sunrise/sunset pairs of the UTC days around `now`
/// (the day before, the day of and the day after), `sun_up` tells whether
/// the sun is above the sunrise altitude at `now` (used when no transition
/// of the window is at or before `now`: polar day or night), and `later`
/// are the pairs of the days after the window, in order (used when no
/// transition of the window is after `now`).
pub fn schedule(
    now: i64,
    days: &Vec<Option<(i64, i64)>>,
    sun_up: bool,
    later: &Vec<Option<(i64, i64)>>,
) -> (r: (Theme, i64))
    requires
        now <= i64::MAX - MS_PER_DAY,
    ensures
        r.0 == theme_at(window_of(days@), now, sun_up),
        r.1 == next_transition(window_of(days@), later@, now),
{
    let w = transitions_window(days);
    // The theme of the last transition at or before `now`.
    let mut k: usize = w.len();
    let mut current: Option<Theme> = None;
    assert(w@.take(w@.len() as int) =~= w@);
    while k > 0
        invariant_except_break
            current is None,
            last_at_or_before(w@, now) == last_at_or_before(w@.take(k as int), now),
        invariant
            k <= w@.len(),
        ensures
            current is None ==> k == 0 && last_at_or_before(w@, now) == last_at_or_before(w@.take(0), now),
            current is Some ==> last_at_or_before(w@, now) == current,
        decreases k,
    {
        let ghost pre = w@.take(k as int);
        assert(pre.drop_last() =~= w@.take(k - 1));
        assert(pre.last() == w@[k - 1]);
        if w[k - 1].0 <= now {
            current = Some(w[k - 1].1);
            break;
        }
        k = k - 1;
    }
    let theme = match current {
        Some(t) => t,
        None => {
            assert(w@.take(0) =~= seq![]);
            if sun_up { Theme::Light } else { Theme::Dark }
        },
    };
    // The first transition after `now`.
    let mut j: usize = 0;
    let mut next: Option<i64> = None;
    assert(w@.subrange(0, w@.len() as int) =~= w@);
    while j < w.len()
        invariant_except_break
            next is None,
            first_after(w@, now) == first_after(w@.subrange(j as int, w@.len() as int), now),
        invariant
            j <= w@.len(),
        ensures
            next is None ==> j == w@.len() && first_after(w@, now) == first_after(w@.subrange(j as int, w@.len() as int), now),
            next is Some ==> first_after(w@, now) == next,
        decreases w@.len() - j,
    {
        let ghost rest = w@.subrange(j as int, w@.len() as int);
        assert(rest.drop_first() =~= w@.subrange(j + 1, w@.len() as int));
        assert(rest[0] == w@[j as int]);
        if w[j].0 > now {
            next = Some(w[j].0);
            break;
        }
        j = j + 1;
    }
    let next_instant = match next {
        Some(t) => t,
        None => {
            assert(w@.subrange(w@.len() as int, w@.len() as int) =~= seq![]);
            next_transition_beyond_window(now, later)
        },
    };
    (theme, next_instant)
}


proof fn lemma_count_bounds(s: Seq<Transition>, t: i64)
    ensures
        count_at_or_before(s, t) <= s.len(),
        forall|i: int| 0 <= i < count_at_or_before(s, t) ==> s[i].0 <= t,
        count_at_or_before(s, t) < s.len() ==> s[count_at_or_before(s, t) as int].0 > t,
    decreases s.len(),
{
    if s.len() > 0 && s[0].0 <= t {
        lemma_count_bounds(s.drop_first(), t);
        assert forall|i: int| 0 <= i < count_at_or_before(s, t) implies s[i].0 <= t by {
            if i > 0 {
                assert(s[i] == s.drop_first()[i - 1]);
            }
        }
    }
}

proof fn lemma_insert_sorted(s: Seq<Transition>, e: Transition)
    requires
        sorted_by_time(s),
    ensures
        sorted_by_time(insert_by_time(s, e)),
        insert_by_time(s, e).len() == s.len() + 1,
{
    let p = count_at_or_before(s, e.0) as int;
    lemma_count_bounds(s, e.0);
    s.insert_ensures(p, e);
    let r = insert_by_time(s, e);
    assert forall|i: int| 0 <= i < r.len() implies
        (i < p ==> r[i].0 <= e.0) && (i > p ==> r[i].0 > e.0) && (i != p ==> r[i] == s[if i < p { i } else { i - 1 }])
    by {
        if i > p {
            assert(r[i] == s[i - 1]);
            assert(s[p].0 <= s[i - 1].0);
        }
    }
}

proof fn lemma_insert_filter(s: Seq<Transition>, e: Transition, t: i64)
    requires
        sorted_by_time(s),
    ensures
        insert_by_time(s, e).filter(at_instant(t)) == if e.0 == t {
            s.filter(at_instant(t)).push(e)
        } else {
            s.filter(at_instant(t))
        },
{
    broadcast use Seq::filter_distributes_over_add, Seq::lemma_filter_push;
    let p = count_at_or_before(s, e.0) as int;
    lemma_count_bounds(s, e.0);
    let front = s.subrange(0, p);
    let back = s.subrange(p, s.len() as int);
    assert(s =~= front + back);
    assert(insert_by_time(s, e) == front.push(e) + back);
    let f = at_instant(t);
    if e.0 == t {
        assert forall|i: int| 0 <= i < back.len() implies !f(back[i]) by {
            assert(back[i] == s[p + i]);
            assert(s[p].0 <= s[p + i].0);
        }
        assert(back.all(|x: Transition| !f(x)));
        back.lemma_all_neg_filter_empty(f);
        assert(back.filter(f) =~= seq![]);
        assert(s.filter(f) == front.filter(f) + back.filter(f));
        assert(s.filter(f) =~= front.filter(f));
        assert((front.push(e) + back).filter(f) == front.push(e).filter(f) + back.filter(f));
        assert(front.push(e).filter(f) == front.filter(f).push(e));
        assert(insert_by_time(s, e).filter(f) =~= s.filter(f).push(e));
    } else {
        assert((front.push(e) + back).filter(f) == front.push(e).filter(f) + back.filter(f));
        assert(front.push(e).filter(f) == front.filter(f));
        assert(s.filter(f) == front.filter(f) + back.filter(f));
    }
}

/// The window is a stable sort of the days' transitions by instant: it is
/// in time order, and for every instant it lists the transitions at that
/// instant in the same order as the days do (so it holds exactly the days'
/// transitions).
pub proof fn lemma_window_is_stable_sort(days: Seq<Option<(i64, i64)>>)
    ensures
        sorted_by_time(window_of(days)),
        forall|t: i64| #[trigger] window_of(days).filter(at_instant(t)) == raw_transitions(days).filter(at_instant(t)),
{
    lemma_sort_stable(raw_transitions(days));
}

proof fn lemma_sort_stable(s: Seq<Transition>)
    ensures
        sorted_by_time(sort_by_time(s)),
        forall|t: i64| #[trigger] sort_by_time(s).filter(at_instant(t)) == s.filter(at_instant(t)),
    decreases s.len(),
{
    broadcast use Seq::lemma_filter_push;
    if s.len() > 0 {
        let prev = sort_by_time(s.drop_last());
        lemma_sort_stable(s.drop_last());
        lemma_insert_sorted(prev, s.last());
        assert(s.drop_last().push(s.last()) =~= s);
        assert forall|t: i64| #[trigger] sort_by_time(s).filter(at_instant(t)) == s.filter(at_instant(t)) by {
            lemma_insert_filter(prev, s.last(), t);
            assert(s.filter(at_instant(t)) == s.drop_last().push(s.last()).filter(at_instant(t)));
        }
    } else {
        assert(sort_by_time(s) == s);
    }
}

proof fn lemma_first_after_props(w: Seq<Transition>, now: i64)
    ensures
        first_after(w, now) matches Some(n) ==> n > now && exists|i: int| 0 <= i < w.len() && #[trigger] w[i].0 == n,
        sorted_by_time(w) && first_after(w, now) is Some ==>
            forall|i: int| 0 <= i < w.len() ==> (#[trigger] w[i].0 <= now || w[i].0 >= first_after(w, now)->0),
        first_after(w, now) is None ==> forall|i: int| 0 <= i < w.len() ==> #[trigger] w[i].0 <= now,
    decreases w.len(),
{
    if w.len() > 0 {
        let rest = w.drop_first();
        lemma_first_after_props(rest, now);
        if w[0].0 <= now {
            if first_after(rest, now) is Some {
                let n = first_after(rest, now)->0;
                let i = choose|i: int| 0 <= i < rest.len() && #[trigger] rest[i].0 == n;
                assert(w[i + 1].0 == n);
            }
            assert forall|i: int| 0 <= i < w.len() && i > 0 implies w[i] == rest[i - 1] by {}
            if sorted_by_time(w) {
                assert(sorted_by_time(rest)) by {
                    assert forall|i: int, j: int| 0 <= i <= j < rest.len() implies rest[i].0 <= rest[j].0 by {
                        assert(rest[i] == w[i + 1] && rest[j] == w[j + 1]);
                    }
                }
            }
        } else {
            assert(w[0].0 == first_after(w, now)->0);
        }
    }
}

/// The next transition is always strictly after `now`.
pub proof fn lemma_next_is_future(w: Seq<Transition>, later: Seq<Option<(i64, i64)>>, now: i64)
    ensures
        next_transition(w, later, now) > now,
{
    lemma_first_after_props(w, now);
    lemma_beyond_is_future(later, now);
}

proof fn lemma_beyond_is_future(later: Seq<Option<(i64, i64)>>, now: i64)
    ensures
        next_beyond(later, now) > now,
    decreases later.len(),
{
    if later.len() > 0 {
        lemma_beyond_is_future(later.drop_first(), now);
    }
}

proof fn lemma_last_at_or_before_props(w: Seq<Transition>, now: i64)
    ensures
        last_at_or_before(w, now) is None ==> forall|i: int| 0 <= i < w.len() ==> #[trigger] w[i].0 > now,
        last_at_or_before(w, now) is Some ==> exists|i: int| 0 <= i < w.len() && w[i].0 <= now
            && Some(w[i].1) == last_at_or_before(w, now)
            && forall|j: int| i < j < w.len() ==> #[trigger] w[j].0 > now,
    decreases w.len(),
{
    if w.len() > 0 {
        let pre = w.drop_last();
        lemma_last_at_or_before_props(pre, now);
        if w.last().0 > now {
            assert forall|i: int| 0 <= i < pre.len() implies w[i] == pre[i] by {}
            if last_at_or_before(pre, now) is Some {
                let i = choose|i: int| 0 <= i < pre.len() && pre[i].0 <= now
                    && Some(pre[i].1) == last_at_or_before(pre, now)
                    && forall|j: int| i < j < pre.len() ==> #[trigger] pre[j].0 > now;
                assert(w[i] == pre[i]);
                assert forall|j: int| i < j < w.len() implies #[trigger] w[j].0 > now by {
                    if j < pre.len() {
                        assert(w[j] == pre[j]);
                    }
                }
            }
        } else {
            let i = w.len() - 1;
            assert(w[i] == w.last());
        }
    }
}

/// The theme only changes at transitions: in a time-ordered window, every
/// instant from `now` up to (not including) the next transition has the
/// same theme as `now`.
pub proof fn lemma_theme_constant_until_next(w: Seq<Transition>, now: i64, later_instant: i64, sun_up: bool)
    requires
        sorted_by_time(w),
        now <= later_instant,
        first_after(w, now) matches Some(n) ==> later_instant < n,
    ensures
        theme_at(w, later_instant, sun_up) == theme_at(w, now, sun_up),
{
    lemma_first_after_props(w, now);
    lemma_same_last(w, now, later_instant);
}

proof fn lemma_same_last(w: Seq<Transition>, now: i64, later_instant: i64)
    requires
        now <= later_instant,
        forall|i: int| 0 <= i < w.len() ==> #[trigger] w[i].0 <= now || w[i].0 > later_instant,
    ensures
        last_at_or_before(w, later_instant) == last_at_or_before(w, now),
    decreases w.len(),
{
    if w.len() > 0 {
        let pre = w.drop_last();
        assert(w.last() == w[w.len() - 1]);
        assert forall|i: int| 0 <= i < pre.len() implies #[trigger] pre[i].0 <= now || pre[i].0 > later_instant by {
            assert(pre[i] == w[i]);
        }
        lemma_same_last(pre, now, later_instant);
    }
}

/// At the very instant of a transition, the theme is the one that
/// transition brings (for the last transition listed at that instant).
pub proof fn lemma_theme_flips_at_transition(w: Seq<Transition>, k: int, sun_up: bool)
    requires
        sorted_by_time(w),
        0 <= k < w.len(),
        forall|j: int| k < j < w.len() ==> #[trigger] w[j].0 > w[k].0,
    ensures
        theme_at(w, w[k].0, sun_up) == w[k].1,
    decreases w.len(),
{
    lemma_last_at_or_before_props(w, w[k].0);
    let t = w[k].0;
    if w.len() - 1 == k {
        assert(w.last() == w[k]);
    } else {
        assert(w.last() == w[w.len() - 1]);
        assert(w.last().0 > t);
        let pre = w.drop_last();
        assert(pre[k] == w[k]);
        assert(sorted_by_time(pre)) by {
            assert forall|i: int, j: int| 0 <= i <= j < pre.len() implies pre[i].0 <= pre[j].0 by {
                assert(pre[i] == w[i] && pre[j] == w[j]);
            }
        }
        assert forall|j: int| k < j < pre.len() implies #[trigger] pre[j].0 > pre[k].0 by {
            assert(pre[j] == w[j]);
        }
        lemma_theme_flips_at_transition(pre, k, sun_up);
    }
}


/// The forward scan over the days after the window takes a day's sunrise
/// before its sunset: when the first later day's sunrise is after `now`,
/// that sunrise is the next transition; when only its sunset is, the
/// sunset is; a day without transitions after `now` is passed over.
pub proof fn lemma_beyond_takes_sunrise_first(
    rise: i64,
    set: i64,
    rest: Seq<Option<(i64, i64)>>,
    now: i64,
)
    ensures
        rise > now ==> next_beyond(seq![Some((rise, set))] + rest, now) == rise,
        rise <= now < set ==> next_beyond(seq![Some((rise, set))] + rest, now) == set,
        rise <= now && set <= now ==> next_beyond(seq![Some((rise, set))] + rest, now) == next_beyond(rest, now),
        next_beyond(seq![None] + rest, now) == next_beyond(rest, now),
{
    let a = seq![Some((rise, set))] + rest;
    assert(a[0] == Some((rise, set)));
    assert(a.drop_first() =~= rest);
    let b = seq![None::<(i64, i64)>] + rest;
    assert(b[0] == None::<(i64, i64)>);
    assert(b.drop_first() =~= rest);
}

/// On days whose sunrise precedes their sunset, the next transition past
/// the window is the earliest sunrise or sunset after `now` of the first
/// day that has one; it is never later than that day's other event after
/// `now`.
pub proof fn lemma_beyond_is_earliest_of_day(rise: i64, set: i64, rest: Seq<Option<(i64, i64)>>, now: i64)
    requires
        rise <= set,
        rise > now || set > now,
    ensures
        next_beyond(seq![Some((rise, set))] + rest, now) > now,
        rise > now ==> next_beyond(seq![Some((rise, set))] + rest, now) <= set,
        next_beyond(seq![Some((rise, set))] + rest, now) == if rise > now { rise } else { set },
{
    lemma_beyond_takes_sunrise_first(rise, set, rest, now);
}

} // verus!
