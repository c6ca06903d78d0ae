//! The final table: one record for each unit, in the order of the units.

use crate::shorelandsearch::{FullInfo, FullInfoView};
use crate::text::{
    comes_before, lemma_precedes_asymmetric, lemma_precedes_irreflexive, lemma_precedes_total,
    lemma_precedes_transitive, precedes,
};
use vstd::prelude::*;

verus! {

/// Whether the units of `t` rise strictly from each record to the next.
pub open spec fn strictly_rising(t: Seq<FullInfoView>) -> bool {
    forall|i: int, j: int|
        #![trigger t[i], t[j]]
        0 <= i < j < t.len() ==> precedes(t[i].bare.room, t[j].bare.room)
}

/// The order of the records of one unit: by bedrooms, then bathrooms,
/// area, listed rent, rent and lease period, the smaller first.
pub open spec fn numbers_before(x: FullInfoView, y: FullInfoView) -> bool {
    if x.bare.bedrooms != y.bare.bedrooms {
        x.bare.bedrooms < y.bare.bedrooms
    } else if x.bare.bathrooms != y.bare.bathrooms {
        x.bare.bathrooms < y.bare.bathrooms
    } else if x.bare.area != y.bare.area {
        x.bare.area < y.bare.area
    } else if x.bare.rent != y.bare.rent {
        x.bare.rent < y.bare.rent
    } else if x.rent != y.rent {
        x.rent < y.rent
    } else {
        x.period < y.period
    }
}

/// Whether `x` is the record that stands for its unit among `s`: one
/// of the records of `s`, and none of them for the same unit goes
/// before it.
pub open spec fn stands_for_unit(s: Seq<FullInfoView>, x: FullInfoView) -> bool {
    &&& s.contains(x)
    &&& forall|k: int|
        0 <= k < s.len() && (#[trigger] s[k]).bare.room == x.bare.room ==> !numbers_before(s[k], x)
}

/// Whether `t` holds a record for `unit`.
pub open spec fn has_unit(t: Seq<FullInfoView>, unit: Seq<char>) -> bool {
    exists|i: int| 0 <= i < t.len() && (#[trigger] t[i]).bare.room == unit
}

/// Whether `t` is the table of the records `s`: sorted by unit, each of
/// its rows the record that stands for its unit among `s`, and a row
/// for every unit of `s`.
pub open spec fn is_table_of(t: Seq<FullInfoView>, s: Seq<FullInfoView>) -> bool {
    &&& strictly_rising(t)
    &&& forall|i: int| 0 <= i < t.len() ==> stands_for_unit(s, #[trigger] t[i])
    &&& forall|k: int| 0 <= k < s.len() ==> has_unit(t, (#[trigger] s[k]).bare.room)
}

/// Two records of one unit, neither of which goes before the other,
/// are the same record.
pub proof fn lemma_numbers_tell_records_apart(x: FullInfoView, y: FullInfoView)
    requires
        x.bare.room == y.bare.room,
        !numbers_before(x, y),
        !numbers_before(y, x),
    ensures
        x == y,
{
}

proof fn lemma_stays_in_longer(s: Seq<FullInfoView>, k: int, x: FullInfoView)
    requires
        0 <= k < s.len(),
        s.take(k).contains(x),
    ensures
        s.take(k + 1).contains(x),
{
    let m = choose|m: int| 0 <= m < s.take(k).len() && s.take(k)[m] == x;
    assert(s.take(k + 1)[m] == x);
}

proof fn lemma_table_keeps(t: Seq<FullInfoView>, s: Seq<FullInfoView>, k: int, pos: int)
    requires
        0 <= k < s.len(),
        is_table_of(t, s.take(k)),
        0 <= pos < t.len(),
        t[pos].bare.room == s[k].bare.room,
        !numbers_before(s[k], t[pos]),
    ensures
        is_table_of(t, s.take(k + 1)),
{
    let before = s.take(k);
    let after = s.take(k + 1);
    assert forall|i: int| 0 <= i < t.len() implies stands_for_unit(after, #[trigger] t[i]) by {
        assert(stands_for_unit(before, t[i]));
        lemma_stays_in_longer(s, k, t[i]);
        assert forall|m: int|
            0 <= m < after.len() && (#[trigger] after[m]).bare.room
                == t[i].bare.room implies !numbers_before(after[m], t[i]) by {
            if m < k {
                assert(before[m].bare.room == t[i].bare.room);
            } else if i != pos {
                if i < pos {
                    assert(precedes(t[i].bare.room, t[pos].bare.room));
                } else {
                    assert(precedes(t[pos].bare.room, t[i].bare.room));
                }
                lemma_precedes_irreflexive(t[i].bare.room);
            }
        }
    }
    assert forall|m: int| 0 <= m < after.len() implies has_unit(
        t,
        (#[trigger] after[m]).bare.room,
    ) by {
        if m < k {
            assert(has_unit(t, before[m].bare.room));
        } else {
            assert(t[pos].bare.room == after[m].bare.room);
        }
    }
}

proof fn lemma_table_swaps(t: Seq<FullInfoView>, s: Seq<FullInfoView>, k: int, pos: int)
    requires
        0 <= k < s.len(),
        is_table_of(t, s.take(k)),
        0 <= pos < t.len(),
        t[pos].bare.room == s[k].bare.room,
        numbers_before(s[k], t[pos]),
    ensures
        is_table_of(t.update(pos, s[k]), s.take(k + 1)),
{
    let before = s.take(k);
    let after = s.take(k + 1);
    let u = t.update(pos, s[k]);
    assert forall|i: int, j: int|
        #![trigger u[i], u[j]]
        0 <= i < j < u.len() implies precedes(u[i].bare.room, u[j].bare.room) by {
        assert(precedes(t[i].bare.room, t[j].bare.room));
    }
    assert forall|i: int| 0 <= i < u.len() implies stands_for_unit(after, #[trigger] u[i]) by {
        assert(stands_for_unit(before, t[i]));
        if i == pos {
            assert(after[k] == u[i]);
            assert forall|m: int|
                0 <= m < after.len() && (#[trigger] after[m]).bare.room
                    == u[i].bare.room implies !numbers_before(after[m], u[i]) by {
                if m < k {
                    assert(before[m].bare.room == t[pos].bare.room);
                    assert(!numbers_before(before[m], t[pos]));
                }
            }
        } else {
            lemma_stays_in_longer(s, k, t[i]);
            assert forall|m: int|
                0 <= m < after.len() && (#[trigger] after[m]).bare.room
                    == u[i].bare.room implies !numbers_before(after[m], u[i]) by {
                if m < k {
                    assert(before[m].bare.room == t[i].bare.room);
                } else {
                    if i < pos {
                        assert(precedes(t[i].bare.room, t[pos].bare.room));
                    } else {
                        assert(precedes(t[pos].bare.room, t[i].bare.room));
                    }
                    lemma_precedes_irreflexive(t[i].bare.room);
                }
            }
        }
    }
    assert forall|m: int| 0 <= m < after.len() implies has_unit(
        u,
        (#[trigger] after[m]).bare.room,
    ) by {
        if m < k {
            assert(has_unit(t, before[m].bare.room));
            let i = choose|i: int| 0 <= i < t.len() && (#[trigger] t[i]).bare.room
                == before[m].bare.room;
            assert(u[i].bare.room == t[i].bare.room);
        } else {
            assert(u[pos].bare.room == after[m].bare.room);
        }
    }
}

proof fn lemma_table_takes(t: Seq<FullInfoView>, s: Seq<FullInfoView>, k: int, pos: int)
    requires
        0 <= k < s.len(),
        is_table_of(t, s.take(k)),
        0 <= pos <= t.len(),
        forall|j: int| 0 <= j < pos ==> precedes((#[trigger] t[j]).bare.room, s[k].bare.room),
        pos < t.len() ==> precedes(s[k].bare.room, t[pos].bare.room),
    ensures
        is_table_of(t.insert(pos, s[k]), s.take(k + 1)),
{
    let before = s.take(k);
    let after = s.take(k + 1);
    let unit = s[k].bare.room;
    let u = t.insert(pos, s[k]);
    assert forall|j: int| pos <= j < t.len() implies precedes(unit, (#[trigger] t[j]).bare.room) by {
        if j > pos {
            assert(precedes(t[pos].bare.room, t[j].bare.room));
            lemma_precedes_transitive(unit, t[pos].bare.room, t[j].bare.room);
        }
    }
    assert forall|j: int| 0 <= j < t.len() implies (#[trigger] t[j]).bare.room != unit by {
        lemma_precedes_irreflexive(unit);
    }
    assert forall|i: int, j: int|
        #![trigger u[i], u[j]]
        0 <= i < j < u.len() implies precedes(u[i].bare.room, u[j].bare.room) by {
        let a = if i < pos {
            i
        } else {
            i - 1
        };
        let b = if j < pos {
            j
        } else {
            j - 1
        };
        if i == pos {
            assert(u[j] == t[b]);
        } else if j == pos {
            assert(u[i] == t[a]);
        } else {
            assert(u[i] == t[a] && u[j] == t[b]);
            assert(precedes(t[a].bare.room, t[b].bare.room));
        }
    }
    assert forall|j: int| 0 <= j < k implies (#[trigger] after[j]).bare.room != unit by {
        assert(has_unit(t, before[j].bare.room));
    }
    assert forall|i: int| 0 <= i < u.len() implies stands_for_unit(after, #[trigger] u[i]) by {
        if i == pos {
            assert(after[k] == u[i]);
        } else {
            let a = if i < pos {
                i
            } else {
                i - 1
            };
            assert(u[i] == t[a]);
            assert(stands_for_unit(before, t[a]));
            lemma_stays_in_longer(s, k, t[a]);
            assert forall|m: int|
                0 <= m < after.len() && (#[trigger] after[m]).bare.room
                    == u[i].bare.room implies !numbers_before(after[m], u[i]) by {
                if m < k {
                    assert(before[m].bare.room == t[a].bare.room);
                }
            }
        }
    }
    assert forall|m: int| 0 <= m < after.len() implies has_unit(
        u,
        (#[trigger] after[m]).bare.room,
    ) by {
        if m < k {
            assert(has_unit(t, before[m].bare.room));
            let i = choose|i: int| 0 <= i < t.len() && (#[trigger] t[i]).bare.room
                == before[m].bare.room;
            let b = if i < pos {
                i
            } else {
                i + 1
            };
            assert(u[b] == t[i]);
        } else {
            assert(u[pos].bare.room == after[m].bare.room);
        }
    }
}

/// How many rows `t` holds for `unit`.
pub open spec fn rows_for(t: Seq<FullInfoView>, unit: Seq<char>) -> nat
    decreases t.len(),
{
    if t.len() == 0 {
        0
    } else {
        rows_for(t.drop_last(), unit) + if t.last().bare.room == unit {
            1nat
        } else {
            0nat
        }
    }
}

/// Whether two runs brought the same records, in whatever order and
/// however often.
pub open spec fn same_records(a: Seq<FullInfoView>, b: Seq<FullInfoView>) -> bool {
    forall|x: FullInfoView| a.contains(x) <==> b.contains(x)
}

proof fn lemma_rows_in_rising(t: Seq<FullInfoView>, unit: Seq<char>)
    requires
        strictly_rising(t),
    ensures
        rows_for(t, unit) == if has_unit(t, unit) {
            1nat
        } else {
            0nat
        },
    decreases t.len(),
{
    if t.len() > 0 {
        let head = t.drop_last();
        let n = t.len() - 1;
        assert forall|i: int, j: int|
            #![trigger head[i], head[j]]
            0 <= i < j < head.len() implies precedes(head[i].bare.room, head[j].bare.room) by {
            assert(precedes(t[i].bare.room, t[j].bare.room));
        }
        lemma_rows_in_rising(head, unit);
        if t.last().bare.room == unit {
            assert(has_unit(t, unit)) by {
                assert(t[n].bare.room == unit);
            }
            if has_unit(head, unit) {
                let i = choose|i: int| 0 <= i < head.len() && (#[trigger] head[i]).bare.room == unit;
                assert(precedes(t[i].bare.room, t[n].bare.room));
                lemma_precedes_irreflexive(unit);
            }
        } else {
            if has_unit(head, unit) {
                let i = choose|i: int| 0 <= i < head.len() && (#[trigger] head[i]).bare.room == unit;
                assert(t[i].bare.room == unit);
            }
            if has_unit(t, unit) {
                let i = choose|i: int| 0 <= i < t.len() && (#[trigger] t[i]).bare.room == unit;
                assert(head[i].bare.room == unit);
            }
        }
    }
}

/// The table holds exactly one row for every unit that the records
/// name, however many records name it.
pub proof fn lemma_one_row_for_each_unit(s: Seq<FullInfoView>, t: Seq<FullInfoView>, k: int)
    requires
        is_table_of(t, s),
        0 <= k < s.len(),
    ensures
        rows_for(t, s[k].bare.room) == 1,
{
    assert(has_unit(t, s[k].bare.room));
    lemma_rows_in_rising(t, s[k].bare.room);
}

/// The table holds no row for a unit that no record names.
pub proof fn lemma_no_row_for_other_units(s: Seq<FullInfoView>, t: Seq<FullInfoView>, unit: Seq<char>)
    requires
        is_table_of(t, s),
        !has_unit(s, unit),
    ensures
        rows_for(t, unit) == 0,
{
    lemma_rows_in_rising(t, unit);
    if has_unit(t, unit) {
        let i = choose|i: int| 0 <= i < t.len() && (#[trigger] t[i]).bare.room == unit;
        assert(stands_for_unit(s, t[i]));
        let k = choose|k: int| 0 <= k < s.len() && s[k] == t[i];
        assert(s[k].bare.room == unit);
    }
}

proof fn lemma_rising_with_same_units(a: Seq<FullInfoView>, b: Seq<FullInfoView>)
    requires
        strictly_rising(a),
        strictly_rising(b),
        forall|i: int| 0 <= i < a.len() ==> has_unit(b, (#[trigger] a[i]).bare.room),
        forall|i: int| 0 <= i < b.len() ==> has_unit(a, (#[trigger] b[i]).bare.room),
    ensures
        a.len() == b.len(),
        forall|i: int| 0 <= i < a.len() ==> (#[trigger] a[i]).bare.room == b[i].bare.room,
    decreases a.len(),
{
    if a.len() == 0 {
        if b.len() > 0 {
            assert(has_unit(a, b[0].bare.room));
        }
    } else if b.len() == 0 {
        assert(has_unit(b, a[0].bare.room));
    } else {
        assert(has_unit(b, a[0].bare.room));
        assert(has_unit(a, b[0].bare.room));
        let j = choose|j: int| 0 <= j < b.len() && (#[trigger] b[j]).bare.room == a[0].bare.room;
        let i = choose|i: int| 0 <= i < a.len() && (#[trigger] a[i]).bare.room == b[0].bare.room;
        if a[0].bare.room != b[0].bare.room {
            assert(precedes(b[0].bare.room, b[j].bare.room));
            assert(precedes(a[0].bare.room, a[i].bare.room));
            lemma_precedes_asymmetric(a[0].bare.room, b[0].bare.room);
        }
        let a1 = a.drop_first();
        let b1 = b.drop_first();
        assert forall|i: int, j: int|
            #![trigger a1[i], a1[j]]
            0 <= i < j < a1.len() implies precedes(a1[i].bare.room, a1[j].bare.room) by {
            assert(precedes(a[i + 1].bare.room, a[j + 1].bare.room));
        }
        assert forall|i: int, j: int|
            #![trigger b1[i], b1[j]]
            0 <= i < j < b1.len() implies precedes(b1[i].bare.room, b1[j].bare.room) by {
            assert(precedes(b[i + 1].bare.room, b[j + 1].bare.room));
        }
        assert forall|i: int| 0 <= i < a1.len() implies has_unit(
            b1,
            (#[trigger] a1[i]).bare.room,
        ) by {
            let unit = a[i + 1].bare.room;
            assert(has_unit(b, unit));
            let m = choose|m: int| 0 <= m < b.len() && (#[trigger] b[m]).bare.room == unit;
            assert(precedes(a[0].bare.room, a[i + 1].bare.room));
            lemma_precedes_irreflexive(unit);
            assert(b1[m - 1].bare.room == unit);
        }
        assert forall|i: int| 0 <= i < b1.len() implies has_unit(
            a1,
            (#[trigger] b1[i]).bare.room,
        ) by {
            let unit = b[i + 1].bare.room;
            assert(has_unit(a, unit));
            let m = choose|m: int| 0 <= m < a.len() && (#[trigger] a[m]).bare.room == unit;
            assert(precedes(b[0].bare.room, b[i + 1].bare.room));
            lemma_precedes_irreflexive(unit);
            assert(a1[m - 1].bare.room == unit);
        }
        lemma_rising_with_same_units(a1, b1);
        assert forall|i: int| 0 <= i < a.len() implies (#[trigger] a[i]).bare.room
            == b[i].bare.room by {
            if i > 0 {
                assert(a1[i - 1].bare.room == b1[i - 1].bare.room);
            }
        }
    }
}

/// Two runs that brought the same records give the same table, in
/// whatever order the records came and however often a record or a
/// unit was found.
pub proof fn lemma_table_is_order_independent(
    a: Seq<FullInfoView>,
    b: Seq<FullInfoView>,
    ta: Seq<FullInfoView>,
    tb: Seq<FullInfoView>,
)
    requires
        is_table_of(ta, a),
        is_table_of(tb, b),
        same_records(a, b),
    ensures
        ta == tb,
{
    assert forall|i: int| 0 <= i < ta.len() implies has_unit(tb, (#[trigger] ta[i]).bare.room) by {
        assert(stands_for_unit(a, ta[i]));
        assert(b.contains(ta[i]));
        let m = choose|m: int| 0 <= m < b.len() && b[m] == ta[i];
        assert(has_unit(tb, b[m].bare.room));
    }
    assert forall|i: int| 0 <= i < tb.len() implies has_unit(ta, (#[trigger] tb[i]).bare.room) by {
        assert(stands_for_unit(b, tb[i]));
        assert(a.contains(tb[i]));
        let m = choose|m: int| 0 <= m < a.len() && a[m] == tb[i];
        assert(has_unit(ta, a[m].bare.room));
    }
    lemma_rising_with_same_units(ta, tb);
    assert forall|i: int| 0 <= i < ta.len() implies ta[i] == tb[i] by {
        assert(stands_for_unit(a, ta[i]));
        assert(stands_for_unit(b, tb[i]));
        assert(ta[i].bare.room == tb[i].bare.room);
        assert(b.contains(ta[i]));
        assert(a.contains(tb[i]));
        let m = choose|m: int| 0 <= m < b.len() && b[m] == ta[i];
        let n = choose|n: int| 0 <= n < a.len() && a[n] == tb[i];
        assert(!numbers_before(b[m], tb[i]));
        assert(!numbers_before(a[n], ta[i]));
        lemma_numbers_tell_records_apart(ta[i], tb[i]);
    }
    assert(ta =~= tb);
}

/// The records have one table and no other.
pub proof fn lemma_table_is_unique(
    s: Seq<FullInfoView>,
    t1: Seq<FullInfoView>,
    t2: Seq<FullInfoView>,
)
    requires
        is_table_of(t1, s),
        is_table_of(t2, s),
    ensures
        t1 == t2,
{
    lemma_table_is_order_independent(s, s, t1, t2);
}

/// A table is its own table: building it again changes nothing.
pub proof fn lemma_table_of_table(s: Seq<FullInfoView>, t: Seq<FullInfoView>)
    requires
        is_table_of(t, s),
    ensures
        is_table_of(t, t),
{
    assert forall|i: int| 0 <= i < t.len() implies stands_for_unit(t, #[trigger] t[i]) by {
        assert(t[i] == t[i]);
        assert forall|k: int|
            0 <= k < t.len() && (#[trigger] t[k]).bare.room
                == t[i].bare.room implies !numbers_before(t[k], t[i]) by {
            if k < i {
                assert(precedes(t[k].bare.room, t[i].bare.room));
            } else if i < k {
                assert(precedes(t[i].bare.room, t[k].bare.room));
            }
            lemma_precedes_irreflexive(t[i].bare.room);
        }
    }
    assert forall|k: int| 0 <= k < t.len() implies has_unit(t, (#[trigger] t[k]).bare.room) by {
        assert(t[k].bare.room == t[k].bare.room);
    }
}

fn numbers_go_before(x: &FullInfo, y: &FullInfo) -> (r: bool)
    ensures
        r == numbers_before(x@, y@),
{
    if x.bare.bedrooms != y.bare.bedrooms {
        x.bare.bedrooms < y.bare.bedrooms
    } else if x.bare.bathrooms != y.bare.bathrooms {
        x.bare.bathrooms < y.bare.bathrooms
    } else if x.bare.area != y.bare.area {
        x.bare.area < y.bare.area
    } else if x.bare.rent != y.bare.rent {
        x.bare.rent < y.bare.rent
    } else if x.rent != y.rent {
        x.rent < y.rent
    } else {
        x.period < y.period
    }
}

/// Builds the final table: one row for each unit, in the order of the
/// units. Where a unit was found more than once, the record with the
/// smallest numbers stands for it, so that the table does not depend
/// on the order in which the records came.
pub fn finalize(records: Vec<FullInfo>) -> (table: Vec<FullInfo>)
    ensures
        is_table_of(table.deep_view(), records.deep_view()),
{
    let mut table: Vec<FullInfo> = Vec::new();
    let mut k: usize = 0;
    let ghost s = records.deep_view();
    assert(s.take(0).len() == 0);
    while k < records.len()
        invariant
            k <= records.len(),
            s == records.deep_view(),
            is_table_of(table.deep_view(), s.take(k as int)),
        decreases records.len() - k,
    {
        let ghost t = table.deep_view();
        let mut pos: usize = 0;
        while pos < table.len() && comes_before(
            table[pos].bare.room.as_str(),
            records[k].bare.room.as_str(),
        )
            invariant
                pos <= table.len(),
                k < records.len(),
                s == records.deep_view(),
                t == table.deep_view(),
                forall|j: int|
                    0 <= j < pos ==> precedes((#[trigger] t[j]).bare.room, s[k as int].bare.room),
            decreases table.len() - pos,
        {
            pos += 1;
        }
        if pos < table.len() && table[pos].bare.room == records[k].bare.room {
            if numbers_go_before(&records[k], &table[pos]) {
                proof {
                    lemma_table_swaps(t, s, k as int, pos as int);
                }
                let record = records[k].clone();
                table.set(pos, record);
                assert(table.deep_view() == t.update(pos as int, s[k as int]));
            } else {
                proof {
                    lemma_table_keeps(t, s, k as int, pos as int);
                }
            }
        } else {
            proof {
                if pos < table.len() {
                    lemma_precedes_total(t[pos as int].bare.room, s[k as int].bare.room);
                }
                lemma_table_takes(t, s, k as int, pos as int);
            }
            let record = records[k].clone();
            table.insert(pos, record);
            assert(table.deep_view() == t.insert(pos as int, s[k as int]));
        }
        k += 1;
    }
    assert(s.take(records.len() as int) == s);
    table
}

} // verus!
