//! The parameter sweep: a rent range cut into buckets, one search form
//! for each.

use crate::shorelandsearch::{date_text, FormView, ShoreLandSearchForm};
use vstd::prelude::*;

verus! {

/// How many buckets of width `step` it takes to cover `[lower, upper)`.
pub open spec fn bucket_count(lower: int, upper: int, step: int) -> int {
    if upper <= lower {
        0
    } else {
        (upper - lower + step - 1) / step
    }
}

/// The lowest rent of bucket `i`.
pub open spec fn bucket_min(lower: int, step: int, i: int) -> int {
    lower + i * step
}

/// The highest rent of bucket `i`: the last before the next bucket, and
/// below `upper` in any case.
pub open spec fn bucket_max(lower: int, upper: int, step: int, i: int) -> int {
    if lower + (i + 1) * step < upper {
        lower + (i + 1) * step - 1
    } else {
        upper - 1
    }
}

/// The bucket that a rent falls into.
pub open spec fn bucket_of(lower: int, step: int, rent: int) -> int {
    (rent - lower) / step
}

/// Whether bucket `i` holds `rent`.
pub open spec fn bucket_holds(lower: int, upper: int, step: int, i: int, rent: int) -> bool {
    bucket_min(lower, step, i) <= rent <= bucket_max(lower, upper, step, i)
}

/// The form of bucket `i` of a sweep.
pub open spec fn bucket_form(
    lower: u32,
    upper: u32,
    step: u32,
    bedrooms: Option<u8>,
    bathrooms: Option<u8>,
    year: u32,
    month: u32,
    day: u32,
    i: int,
) -> FormView {
    FormView {
        min_rent: Some(bucket_min(lower as int, step as int, i) as u32),
        max_rent: Some(bucket_max(lower as int, upper as int, step as int, i) as u32),
        bedrooms,
        bathrooms,
        move_in_date: date_text(year, month, day),
    }
}

/// A range that holds something has a bucket; the last bucket starts
/// inside the range and the buckets reach its end.
pub proof fn lemma_count_bounds(lower: int, upper: int, step: int)
    requires
        lower < upper,
        step > 0,
    ensures
        bucket_count(lower, upper, step) >= 1,
        lower + (bucket_count(lower, upper, step) - 1) * step < upper,
        upper <= lower + bucket_count(lower, upper, step) * step,
{
    let d = upper - lower;
    let n = (d + step - 1) / step;
    assert(n * step <= d + step - 1 < n * step + step) by (nonlinear_arith)
        requires
            n == (d + step - 1) / step,
            step > 0,
    ;
    assert((n - 1) * step == n * step - step) by (nonlinear_arith);
    assert(n >= 1) by (nonlinear_arith)
        requires
            d + step - 1 < n * step + step,
            d >= 1,
            step > 0,
    ;
}

proof fn lemma_count_is(lower: int, upper: int, step: int, n: int)
    requires
        lower < upper,
        step > 0,
        lower + (n - 1) * step < upper,
        upper <= lower + n * step,
    ensures
        bucket_count(lower, upper, step) == n,
{
    lemma_count_bounds(lower, upper, step);
    let m = bucket_count(lower, upper, step);
    assert(m == n) by (nonlinear_arith)
        requires
            step > 0,
            (n - 1) * step < upper - lower,
            upper - lower <= n * step,
            (m - 1) * step < upper - lower,
            upper - lower <= m * step,
    ;
}

/// The buckets of a sweep partition the rent range. The first starts at
/// `lower`; none is empty; each starts right after the one before it
/// ends; the last ends at `upper - 1`.
pub proof fn lemma_buckets_are_adjacent(lower: int, upper: int, step: int, i: int)
    requires
        lower < upper,
        step > 0,
        0 <= i < bucket_count(lower, upper, step),
    ensures
        bucket_min(lower, step, 0) == lower,
        lower <= bucket_min(lower, step, i) <= bucket_max(lower, upper, step, i) <= upper - 1,
        i + 1 < bucket_count(lower, upper, step) ==> bucket_max(lower, upper, step, i) + 1
            == bucket_min(lower, step, i + 1),
        i + 1 == bucket_count(lower, upper, step) ==> bucket_max(lower, upper, step, i) == upper
            - 1,
{
    lemma_count_bounds(lower, upper, step);
    let n = bucket_count(lower, upper, step);
    assert((i + 1) * step == i * step + step) by (nonlinear_arith);
    assert(i * step >= 0) by (nonlinear_arith)
        requires
            i >= 0,
            step > 0,
    ;
    assert(i * step <= (n - 1) * step) by (nonlinear_arith)
        requires
            i <= n - 1,
            step > 0,
    ;
    if i + 1 < n {
        assert((i + 1) * step <= (n - 1) * step) by (nonlinear_arith)
            requires
                i + 1 <= n - 1,
                step > 0,
        ;
    }
}

/// Every rent of the range lies in exactly one bucket of the sweep: the
/// sweep covers `[lower, upper)` without a gap and without an overlap.
pub proof fn lemma_buckets_cover_once(lower: int, upper: int, step: int, rent: int)
    requires
        lower < upper,
        step > 0,
        lower <= rent < upper,
    ensures
        0 <= bucket_of(lower, step, rent) < bucket_count(lower, upper, step),
        bucket_holds(lower, upper, step, bucket_of(lower, step, rent), rent),
        forall|i: int|
            0 <= i < bucket_count(lower, upper, step) && bucket_holds(lower, upper, step, i, rent)
                ==> i == bucket_of(lower, step, rent),
{
    lemma_count_bounds(lower, upper, step);
    let n = bucket_count(lower, upper, step);
    let k = bucket_of(lower, step, rent);
    let r = rent - lower;
    assert(k * step <= r < k * step + step && k >= 0) by (nonlinear_arith)
        requires
            k == r / step,
            r >= 0,
            step > 0,
    ;
    assert((k + 1) * step == k * step + step) by (nonlinear_arith);
    assert(k < n) by (nonlinear_arith)
        requires
            k * step <= r,
            r < upper - lower,
            upper - lower <= n * step,
            step > 0,
    ;
    assert forall|i: int|
        0 <= i < n && bucket_holds(lower, upper, step, i, rent) implies i == k by {
        assert((i + 1) * step == i * step + step) by (nonlinear_arith);
        assert(i == k) by (nonlinear_arith)
            requires
                i * step <= r,
                r < i * step + step,
                k * step <= r,
                r < k * step + step,
                step > 0,
        ;
    }
}

/// No bucket of a sweep reaches `upper`, and no rent outside the range
/// lies in one.
pub proof fn lemma_buckets_stay_in_range(lower: int, upper: int, step: int, i: int, rent: int)
    requires
        lower < upper,
        step > 0,
        0 <= i < bucket_count(lower, upper, step),
        bucket_holds(lower, upper, step, i, rent),
    ensures
        lower <= rent <= upper - 1,
{
    lemma_buckets_are_adjacent(lower, upper, step, i);
}

/// The forms of a sweep over `[rent_lower, rent_upper)` in buckets of
/// `step`, in rising order, each with the same filters and date. A range
/// that holds nothing gives no form.
pub fn sweep(
    rent_lower: u32,
    rent_upper: u32,
    step: u32,
    bedrooms: Option<u8>,
    bathrooms: Option<u8>,
    move_in_year: u32,
    move_in_month: u32,
    move_in_day: u32,
) -> (forms: Vec<ShoreLandSearchForm>)
    requires
        step > 0,
    ensures
        forms.len() == bucket_count(rent_lower as int, rent_upper as int, step as int),
        forall|i: int|
            0 <= i < forms.len() ==> (#[trigger] forms[i])@ == bucket_form(
                rent_lower,
                rent_upper,
                step,
                bedrooms,
                bathrooms,
                move_in_year,
                move_in_month,
                move_in_day,
                i,
            ),
{
    let mut forms: Vec<ShoreLandSearchForm> = Vec::new();
    let mut low: u64 = rent_lower as u64;
    assert(0 * step == 0) by (nonlinear_arith);
    while low < rent_upper as u64
        invariant
            step > 0,
            rent_lower < rent_upper ==> forms.len() <= bucket_count(
                rent_lower as int,
                rent_upper as int,
                step as int,
            ),
            low == rent_lower + forms.len() * step,
            rent_lower >= rent_upper ==> forms.len() == 0,
            rent_lower < rent_upper && forms.len() > 0 ==> rent_lower + (forms.len() - 1) * step
                < rent_upper,
            forall|i: int|
                0 <= i < forms.len() ==> (#[trigger] forms[i])@ == bucket_form(
                    rent_lower,
                    rent_upper,
                    step,
                    bedrooms,
                    bathrooms,
                    move_in_year,
                    move_in_month,
                    move_in_day,
                    i,
                ),
        decreases
                (if low < rent_upper {
                    rent_upper - low
                } else {
                    0
                }),
    {
        let ghost i = forms.len() as int;
        let next: u64 = low + step as u64;
        let high: u64 = if next < rent_upper as u64 {
            next - 1
        } else {
            rent_upper as u64 - 1
        };
        proof {
            assert((i + 1) * step == i * step + step) by (nonlinear_arith);
            lemma_count_bounds(rent_lower as int, rent_upper as int, step as int);
            let n = bucket_count(rent_lower as int, rent_upper as int, step as int);
            assert(i < n) by (nonlinear_arith)
                requires
                    i * step < rent_upper - rent_lower,
                    rent_upper - rent_lower <= n * step,
                    step > 0,
            ;
            assert(high == bucket_max(rent_lower as int, rent_upper as int, step as int, i));
            assert(low == bucket_min(rent_lower as int, step as int, i));
        }
        let form = ShoreLandSearchForm::new(
            Some(low as u32),
            Some(high as u32),
            bedrooms,
            bathrooms,
            move_in_year,
            move_in_month,
            move_in_day,
        );
        forms.push(form);
        low = next;
    }
    proof {
        if rent_lower < rent_upper {
            let n = forms.len() as int;
            assert(n > 0) by (nonlinear_arith)
                requires
                    rent_lower + n * step >= rent_upper,
                    rent_lower < rent_upper,
                    n >= 0,
            ;
            lemma_count_is(rent_lower as int, rent_upper as int, step as int, n);
        }
    }
    forms
}

} // verus!
