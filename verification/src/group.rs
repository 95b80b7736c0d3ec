//! The index page and the admin page list exhibitions by year: the year is
//! the first four characters of the start date, and the newest year comes
//! first.

use crate::models::{DeleteExhibitionAdminTemp, Exhibition};
use crate::text::{chars_of, string_from_chars};
use vstd::prelude::*;

verus! {

// ---------------------------------------------------------------------------
// Text order
// ---------------------------------------------------------------------------

/// The order of `String`: character by character, a proper prefix first.
pub open spec fn text_lt(a: Seq<char>, b: Seq<char>) -> bool
    decreases a.len(),
{
    if b.len() == 0 {
        false
    } else if a.len() == 0 {
        true
    } else if a[0] != b[0] {
        a[0] < b[0]
    } else {
        text_lt(a.drop_first(), b.drop_first())
    }
}

pub proof fn lemma_text_lt_irreflexive(a: Seq<char>)
    ensures
        !text_lt(a, a),
    decreases a.len(),
{
    if a.len() > 0 {
        lemma_text_lt_irreflexive(a.drop_first());
    }
}

pub proof fn lemma_text_lt_total(a: Seq<char>, b: Seq<char>)
    requires
        a != b,
    ensures
        text_lt(a, b) || text_lt(b, a),
    decreases a.len(),
{
    if a.len() > 0 && b.len() > 0 && a[0] == b[0] {
        if a.drop_first() == b.drop_first() {
            assert(a == seq![a[0]] + a.drop_first());
            assert(b == seq![b[0]] + b.drop_first());
        }
        lemma_text_lt_total(a.drop_first(), b.drop_first());
    } else if a.len() == 0 && b.len() == 0 {
        assert(a == b);
    } else if a.len() > 0 && b.len() > 0 {
        assert(a[0] < b[0] || b[0] < a[0]);
    }
}

pub proof fn lemma_text_lt_transitive(a: Seq<char>, b: Seq<char>, c: Seq<char>)
    requires
        text_lt(a, b),
        text_lt(b, c),
    ensures
        text_lt(a, c),
    decreases a.len(),
{
    if a.len() > 0 && b.len() > 0 && c.len() > 0 && a[0] == b[0] && b[0] == c[0] {
        lemma_text_lt_transitive(a.drop_first(), b.drop_first(), c.drop_first());
    }
}

pub proof fn lemma_text_lt_asymmetric(a: Seq<char>, b: Seq<char>)
    requires
        text_lt(a, b),
    ensures
        !text_lt(b, a),
{
    if text_lt(b, a) {
        lemma_text_lt_transitive(a, b, a);
        lemma_text_lt_irreflexive(a);
    }
}

/// Whether `a` comes before `b` in the order of `String`.
pub fn text_less(a: &str, b: &str) -> (r: bool)
    ensures
        r == text_lt(a@, b@),
{
    let x = chars_of(a);
    let y = chars_of(b);
    let mut i: usize = 0;
    assert(x@.skip(0) == x@);
    assert(y@.skip(0) == y@);
    while i < x.len() && i < y.len()
        invariant
            x@ == a@,
            y@ == b@,
            i <= x@.len(),
            i <= y@.len(),
            text_lt(a@, b@) == text_lt(x@.skip(i as int), y@.skip(i as int)),
        decreases x@.len() - i,
    {
        if x[i] != y[i] {
            assert(x@.skip(i as int)[0] == x[i as int]);
            assert(y@.skip(i as int)[0] == y[i as int]);
            return x[i] < y[i];
        }
        assert(x@.skip(i as int).drop_first() == x@.skip(i + 1));
        assert(y@.skip(i as int).drop_first() == y@.skip(i + 1));
        i = i + 1;
    }
    i == x.len() && i < y.len()
}

/// The year of a date: its first four characters (all of it if shorter).
pub open spec fn year_of(date: Seq<char>) -> Seq<char> {
    if date.len() <= 4 {
        date
    } else {
        date.take(4)
    }
}

/// The year of a date, as `date.chars().take(4).collect()` gives it.
pub fn year_string(date: &str) -> (y: String)
    ensures
        y@ == year_of(date@),
{
    let cs = chars_of(date);
    let n = if cs.len() <= 4 {
        cs.len()
    } else {
        4
    };
    let y = string_from_chars(&cs, 0, n);
    assert(cs@.subrange(0, n as int) == year_of(date@));
    y
}

// ---------------------------------------------------------------------------
// Grouping
// ---------------------------------------------------------------------------

/// A record with a start date.
pub trait Dated {
    spec fn date(&self) -> Seq<char>;

    fn start_date_text(&self) -> (r: &str)
        ensures
            r@ == self.date(),
    ;
}

impl Dated for Exhibition {
    open spec fn date(&self) -> Seq<char> {
        self.start_date@
    }

    fn start_date_text(&self) -> (r: &str) {
        self.start_date.as_str()
    }
}

impl Dated for DeleteExhibitionAdminTemp {
    open spec fn date(&self) -> Seq<char> {
        self.start_date@
    }

    fn start_date_text(&self) -> (r: &str) {
        self.start_date.as_str()
    }
}

/// The records of one year.
pub struct YearGroup<T> {
    pub year: String,
    pub items: Vec<T>,
}

/// Whether a record starts in year `y`.
pub open spec fn in_year<T: Dated>(y: Seq<char>) -> spec_fn(T) -> bool {
    |x: T| year_of(x.date()) == y
}

/// Whether a year has a group.
pub open spec fn has_year<T>(gs: Seq<YearGroup<T>>, y: Seq<char>) -> bool {
    exists|k: int| 0 <= k < gs.len() && #[trigger] gs[k].year@ == y
}

/// The newest year first, each year once.
pub open spec fn years_descending<T>(gs: Seq<YearGroup<T>>) -> bool {
    forall|a: int, b: int| 0 <= a < b < gs.len() ==> text_lt(#[trigger] gs[b].year@, #[trigger] gs[a].year@)
}

/// Groups of `items` by year: the years in descending order, every year of
/// an item has a group, and each group holds exactly the items of its year
/// in their order (so no group is empty).
pub open spec fn groups_of<T: Dated>(gs: Seq<YearGroup<T>>, items: Seq<T>) -> bool {
    &&& years_descending(gs)
    &&& forall|k: int| 0 <= k < gs.len() ==> (#[trigger] gs[k]).items@ == items.filter(
        in_year::<T>(gs[k].year@),
    )
    &&& forall|k: int| 0 <= k < gs.len() ==> (#[trigger] gs[k]).items@.len() > 0
    &&& forall|j: int| 0 <= j < items.len() ==> has_year(gs, year_of(#[trigger] items[j].date()))
}

proof fn lemma_filter_push<T>(s: Seq<T>, x: T, p: spec_fn(T) -> bool)
    ensures
        s.push(x).filter(p) == if p(x) {
            s.filter(p).push(x)
        } else {
            s.filter(p)
        },
{
    reveal_with_fuel(Seq::filter, 1);
    assert(s.push(x).drop_last() == s);
}

proof fn lemma_filter_none<T>(s: Seq<T>, p: spec_fn(T) -> bool)
    requires
        forall|j: int| 0 <= j < s.len() ==> !p(#[trigger] s[j]),
    ensures
        s.filter(p) == Seq::<T>::empty(),
    decreases s.len(),
{
    reveal_with_fuel(Seq::filter, 1);
    if s.len() > 0 {
        assert(!p(s[s.len() - 1]));
        lemma_filter_none(s.drop_last(), p);
    }
}

/// Where a year goes among groups sorted newest first: `found` where a group
/// has it, else the place that keeps the order.
fn find_slot<T: Dated>(groups: &Vec<YearGroup<T>>, y: &str) -> (r: (usize, bool))
    requires
        years_descending(groups@),
    ensures
        r.1 ==> r.0 < groups@.len() && groups@[r.0 as int].year@ == y@,
        !r.1 ==> r.0 <= groups@.len() && (forall|j: int|
            0 <= j < r.0 ==> text_lt(y@, #[trigger] groups@[j].year@)) && (forall|j: int|
            r.0 <= j < groups@.len() ==> text_lt(#[trigger] groups@[j].year@, y@)),
{
    let n = groups.len();
    let mut k: usize = 0;
    while k < n
        invariant
            n == groups@.len(),
            k <= n,
            years_descending(groups@),
            forall|j: int| 0 <= j < k ==> text_lt(y@, #[trigger] groups@[j].year@),
        decreases n - k,
    {
        let g = &groups[k];
        if crate::text::str_eq(g.year.as_str(), y) {
            return (k, true);
        }
        if text_less(g.year.as_str(), y) {
            proof {
                assert forall|j: int| k <= j < groups@.len() implies text_lt(
                    #[trigger] groups@[j].year@,
                    y@,
                ) by {
                    if j > k {
                        assert(text_lt(groups@[j].year@, groups@[k as int].year@));
                        lemma_text_lt_transitive(groups@[j].year@, groups@[k as int].year@, y@);
                    }
                }
            }
            return (k, false);
        }
        proof {
            lemma_text_lt_total(g.year@, y@);
        }
        k = k + 1;
    }
    (k, false)
}

/// Groups records by the year they start in, newest year first; within a
/// year the records keep their order.
pub fn group_by_year<T: Dated>(items: Vec<T>) -> (gs: Vec<YearGroup<T>>)
    ensures
        groups_of(gs@, items@),
{
    let ghost all = items@;
    let mut rest = items;
    let mut groups: Vec<YearGroup<T>> = Vec::new();
    let mut i: usize = 0;
    let total = rest.len();
    assert(all.skip(0) == all);
    while rest.len() > 0
        invariant
            total == all.len(),
            i <= all.len(),
            rest@ == all.skip(i as int),
            years_descending(groups@),
            forall|k: int| 0 <= k < groups@.len() ==> (#[trigger] groups@[k]).items@
                == all.take(i as int).filter(in_year::<T>(groups@[k].year@)),
            forall|k: int| 0 <= k < groups@.len() ==> (#[trigger] groups@[k]).items@.len() > 0,
            forall|j: int| 0 <= j < i ==> has_year(groups@, year_of(#[trigger] all[j].date())),
        decreases rest@.len(),
    {
        let x = rest.remove(0);
        assert(x == all[i as int]);
        assert(all.take(i + 1) == all.take(i as int).push(x));
        assert(rest@ == all.skip(i + 1));
        let y = year_string(x.start_date_text());
        let ghost yv = y@;
        let ghost old_groups = groups@;
        proof {
            assert forall|k: int| 0 <= k < old_groups.len() implies (#[trigger] old_groups[k]).items@
                == all.take(i + 1).filter(in_year::<T>(old_groups[k].year@)) || old_groups[k].year@
                == yv by {
                lemma_filter_push(all.take(i as int), x, in_year::<T>(old_groups[k].year@));
            }
        }
        let (k, found) = find_slot(&groups, y.as_str());
        if found {
            let mut g = groups.remove(k);
            g.items.push(x);
            groups.insert(k, g);
            proof {
                lemma_filter_push(all.take(i as int), x, in_year::<T>(yv));
                assert forall|a: int| 0 <= a < groups@.len() implies (#[trigger] groups@[a]).year@
                    == old_groups[a].year@ by {
                    if a != k {
                        assert(groups@[a] == old_groups[a]);
                    }
                }
                assert forall|a: int| 0 <= a < groups@.len() implies (#[trigger] groups@[a]).items@
                    == all.take(i + 1).filter(in_year::<T>(groups@[a].year@)) by {
                    if a != k {
                        assert(groups@[a] == old_groups[a]);
                        lemma_text_lt_irreflexive(yv);
                        if a < k {
                            assert(text_lt(old_groups[k as int].year@, old_groups[a].year@));
                        } else {
                            assert(text_lt(old_groups[a].year@, old_groups[k as int].year@));
                        }
                    }
                }
                assert forall|a: int| 0 <= a < groups@.len() implies (#[trigger] groups@[a]).items@.len()
                    > 0 by {
                    if a != k {
                        assert(groups@[a] == old_groups[a]);
                    }
                }
                assert forall|j: int| 0 <= j < i + 1 implies has_year(
                    groups@,
                    year_of(#[trigger] all[j].date()),
                ) by {
                    if j < i {
                        let w = choose|w: int|
                            0 <= w < old_groups.len() && #[trigger] old_groups[w].year@ == year_of(
                                all[j].date(),
                            );
                        assert(groups@[w].year@ == old_groups[w].year@);
                    } else {
                        assert(groups@[k as int].year@ == yv);
                    }
                }
            }
        } else {
            let mut g = YearGroup { year: y, items: Vec::new() };
            g.items.push(x);
            groups.insert(k, g);
            proof {
                assert forall|a: int| 0 <= a < old_groups.len() implies #[trigger] old_groups[a].year@
                    != yv by {
                    lemma_text_lt_irreflexive(yv);
                }
                assert forall|j: int| 0 <= j < i implies !in_year::<T>(yv)(
                    #[trigger] all.take(i as int)[j],
                ) by {
                    assert(all.take(i as int)[j] == all[j]);
                    let w = choose|w: int|
                        0 <= w < old_groups.len() && #[trigger] old_groups[w].year@ == year_of(
                            all[j].date(),
                        );
                    assert(old_groups[w].year@ != yv);
                }
                lemma_filter_none(all.take(i as int), in_year::<T>(yv));
                lemma_filter_push(all.take(i as int), x, in_year::<T>(yv));
                assert(groups@[k as int].items@ == seq![x]);
                assert(all.take(i + 1).filter(in_year::<T>(yv)) == seq![x]);
                assert forall|a: int| 0 <= a < groups@.len() implies (#[trigger] groups@[a]).items@
                    == all.take(i + 1).filter(in_year::<T>(groups@[a].year@)) by {
                    if a < k {
                        assert(groups@[a] == old_groups[a]);
                    } else if a > k {
                        assert(groups@[a] == old_groups[a - 1]);
                    }
                }
                assert forall|a: int| 0 <= a < groups@.len() implies (#[trigger] groups@[a]).items@.len()
                    > 0 by {
                    if a < k {
                        assert(groups@[a] == old_groups[a]);
                    } else if a > k {
                        assert(groups@[a] == old_groups[a - 1]);
                    }
                }
                assert forall|a: int, b: int| 0 <= a < b < groups@.len() implies text_lt(
                    #[trigger] groups@[b].year@,
                    #[trigger] groups@[a].year@,
                ) by {
                    let ya = groups@[a].year@;
                    let yb = groups@[b].year@;
                    if a < k {
                        assert(groups@[a] == old_groups[a]);
                    } else if a > k {
                        assert(groups@[a] == old_groups[a - 1]);
                    }
                    if b < k {
                        assert(groups@[b] == old_groups[b]);
                    } else if b > k {
                        assert(groups@[b] == old_groups[b - 1]);
                    }
                    if a < k && b > k {
                        assert(text_lt(old_groups[b - 1].year@, old_groups[a].year@));
                    } else if a > k && b > k {
                        assert(text_lt(old_groups[b - 1].year@, old_groups[a - 1].year@));
                    }
                }
                assert forall|j: int| 0 <= j < i + 1 implies has_year(
                    groups@,
                    year_of(#[trigger] all[j].date()),
                ) by {
                    if j < i {
                        let w = choose|w: int|
                            0 <= w < old_groups.len() && #[trigger] old_groups[w].year@ == year_of(
                                all[j].date(),
                            );
                        if w < k {
                            assert(groups@[w] == old_groups[w]);
                        } else {
                            assert(groups@[w + 1] == old_groups[w]);
                        }
                    } else {
                        assert(groups@[k as int].year@ == yv);
                    }
                }
            }
        }
        i = i + 1;
    }
    assert(all.take(i as int) == all);
    groups
}

/// The exhibitions of the index page by year.
pub fn exhibitions_by_year(exhibitions: Vec<Exhibition>) -> (gs: Vec<YearGroup<Exhibition>>)
    ensures
        groups_of(gs@, exhibitions@),
{
    group_by_year(exhibitions)
}

/// The exhibitions the admin page offers for deletion, by year.
pub fn delete_exhibitions_by_year(exhibitions: Vec<DeleteExhibitionAdminTemp>) -> (gs: Vec<
    YearGroup<DeleteExhibitionAdminTemp>,
>)
    ensures
        groups_of(gs@, exhibitions@),
{
    group_by_year(exhibitions)
}

} // verus!
