//! Header conversion across the host boundary.
//!
//! The host keeps headers as an ordered, multi-valued string dictionary
//! ([`HostHeaders`]); the native exchange keeps them as a flat sequence of
//! name/value pairs in which a repeated name appears once per value.  Both
//! directions preserve repeated-key multiplicity and value order; validity
//! of names and values is decided by the same parsers the exchange itself
//! uses (see [`crate::outside`]).

use vstd::prelude::*;
use vstd::assert_seqs_equal;
use crate::errors::EngineError;
use crate::outside::{header_name_ok, header_value_ok, parse_header_name_ok, parse_header_value_ok};

verus! {

/// The host's ordered, multi-valued header dictionary: each name carries the
/// ordered list of its values.
pub struct HostHeaders {
    pub entries: Vec<(String, Vec<String>)>,
}

impl View for HostHeaders {
    type V = Seq<(Seq<char>, Seq<Seq<char>>)>;

    open spec fn view(&self) -> Self::V {
        self.entries@.map_values(|e: (String, Vec<String>)| (e.0@, e.1@.map_values(|v: String| v@)))
    }
}

/// View of a flat sequence of native name/value pairs.
pub open spec fn pairs_view(p: Seq<(String, String)>) -> Seq<(Seq<char>, Seq<char>)> {
    p.map_values(|e: (String, String)| (e.0@, e.1@))
}

/// One dictionary entry, flattened to a block of pairs: the name repeated
/// once per value, values in order.
pub open spec fn flatten_entry(name: Seq<char>, values: Seq<Seq<char>>) -> Seq<
    (Seq<char>, Seq<char>),
> {
    values.map_values(|v: Seq<char>| (name, v))
}

/// A whole dictionary, flattened entry by entry in order.
pub open spec fn flatten_host(h: Seq<(Seq<char>, Seq<Seq<char>>)>) -> Seq<(Seq<char>, Seq<char>)>
    decreases h.len(),
{
    if h.len() == 0 {
        Seq::empty()
    } else {
        flatten_host(h.drop_last()) + flatten_entry(h.last().0, h.last().1)
    }
}

/// Whether the dictionary already holds an entry for this name.
pub open spec fn has_name(g: Seq<(Seq<char>, Seq<Seq<char>>)>, name: Seq<char>) -> bool {
    exists|k: int| 0 <= k < g.len() && (#[trigger] g[k]).0 == name
}

/// Appending one pair to a dictionary: the value joins the first entry with
/// the same name, or opens a new entry at the end.
pub open spec fn group_insert(
    g: Seq<(Seq<char>, Seq<Seq<char>>)>,
    name: Seq<char>,
    value: Seq<char>,
) -> Seq<(Seq<char>, Seq<Seq<char>>)>
    decreases g.len(),
{
    if g.len() == 0 {
        seq![(name, seq![value])]
    } else if g.first().0 == name {
        seq![(g.first().0, g.first().1.push(value))] + g.drop_first()
    } else {
        seq![g.first()] + group_insert(g.drop_first(), name, value)
    }
}

/// A flat pair sequence, regrouped into the host dictionary form.
pub open spec fn group_pairs(p: Seq<(Seq<char>, Seq<char>)>) -> Seq<(Seq<char>, Seq<Seq<char>>)>
    decreases p.len(),
{
    if p.len() == 0 {
        Seq::empty()
    } else {
        group_insert(group_pairs(p.drop_last()), p.last().0, p.last().1)
    }
}

/// All values of one entry are valid header values.
pub open spec fn values_all_ok(values: Seq<Seq<char>>) -> bool {
    forall|i: int| 0 <= i < values.len() ==> #[trigger] header_value_ok(values[i])
}

/// The failure one dictionary entry produces, if any: an invalid name is
/// reported before an invalid value.
pub open spec fn entry_error(name: Seq<char>, values: Seq<Seq<char>>) -> Option<EngineError> {
    if !header_name_ok(name) {
        Some(EngineError::BadHeaderName)
    } else if !values_all_ok(values) {
        Some(EngineError::BadHeaderValue)
    } else {
        None
    }
}

/// The failure a whole dictionary produces: the first offending entry, in
/// order, decides.
pub open spec fn host_error(h: Seq<(Seq<char>, Seq<Seq<char>>)>) -> Option<EngineError>
    decreases h.len(),
{
    if h.len() == 0 {
        None
    } else if entry_error(h.first().0, h.first().1) is Some {
        entry_error(h.first().0, h.first().1)
    } else {
        host_error(h.drop_first())
    }
}

/// A well-formed host dictionary: names are distinct and no entry is empty.
pub open spec fn host_wf(h: Seq<(Seq<char>, Seq<Seq<char>>)>) -> bool {
    &&& forall|i: int, j: int| 0 <= i < j < h.len() ==> (#[trigger] h[i]).0 != (#[trigger] h[j]).0
    &&& forall|i: int| 0 <= i < h.len() ==> (#[trigger] h[i]).1.len() > 0
}

proof fn lemma_host_error_clean(h: Seq<(Seq<char>, Seq<Seq<char>>)>)
    requires
        forall|k: int| 0 <= k < h.len() ==> entry_error((#[trigger] h[k]).0, h[k].1) is None,
    ensures
        host_error(h) is None,
    decreases h.len(),
{
    if h.len() > 0 {
        assert(entry_error(h[0].0, h[0].1) is None);
        assert(forall|k: int|
            0 <= k < h.drop_first().len() ==> entry_error(
                (#[trigger] h.drop_first()[k]).0,
                h.drop_first()[k].1,
            ) is None) by {
            assert(forall|k: int|
                0 <= k < h.drop_first().len() ==> #[trigger] h.drop_first()[k] == h[k + 1]);
        }
        lemma_host_error_clean(h.drop_first());
    }
}

proof fn lemma_host_error_at(h: Seq<(Seq<char>, Seq<Seq<char>>)>, i: int)
    requires
        0 <= i < h.len(),
        forall|k: int| 0 <= k < i ==> entry_error((#[trigger] h[k]).0, h[k].1) is None,
        entry_error(h[i].0, h[i].1) is Some,
    ensures
        host_error(h) == entry_error(h[i].0, h[i].1),
    decreases h.len(),
{
    if i == 0 {
        assert(entry_error(h.first().0, h.first().1) is Some);
    } else {
        assert(entry_error(h[0].0, h[0].1) is None);
        assert(forall|k: int|
            0 <= k < h.drop_first().len() ==> #[trigger] h.drop_first()[k] == h[k + 1]);
        lemma_host_error_at(h.drop_first(), i - 1);
    }
}

proof fn lemma_flatten_take_step(h: Seq<(Seq<char>, Seq<Seq<char>>)>, i: int)
    requires
        0 <= i < h.len(),
    ensures
        flatten_host(h.take(i + 1)) == flatten_host(h.take(i)) + flatten_entry(h[i].0, h[i].1),
{
    let t = h.take(i + 1);
    assert(t.drop_last() =~= h.take(i));
    assert(t.last() == h[i]);
}

/// Converts the host's multi-valued dictionary into the flat native pair
/// form, validating every name and value against the exchange's own
/// parsers.  Fails exactly on the first entry that holds an invalid name or
/// value, an invalid name first.
pub fn jni_to_headers(headers: &HostHeaders) -> (r: Result<Vec<(String, String)>, EngineError>)
    ensures
        match r {
            Ok(p) => host_error(headers@) is None && pairs_view(p@) == flatten_host(headers@),
            Err(e) => host_error(headers@) == Some(e),
        },
{
    let ghost hv = headers@;
    let mut out: Vec<(String, String)> = Vec::new();
    let n = headers.entries.len();
    assert(hv.len() == n);
    let mut i: usize = 0;
    while i < n
        invariant
            0 <= i <= n,
            n == headers.entries.len(),
            hv == headers@,
            hv.len() == n,
            forall|k: int| 0 <= k < i ==> entry_error((#[trigger] hv[k]).0, hv[k].1) is None,
            pairs_view(out@) == flatten_host(hv.take(i as int)),
        decreases n - i,
    {
        let ghost gi = i as int;
        let entry = &headers.entries[i];
        let ghost name_v = hv[gi].0;
        let ghost values_v = hv[gi].1;
        assert(entry.0@ == name_v && entry.1@.map_values(|v: String| v@) == values_v);
        if !parse_header_name_ok(entry.0.as_str()) {
            proof {
                lemma_host_error_at(hv, gi);
            }
            return Err(EngineError::BadHeaderName);
        }
        let m = entry.1.len();
        assert(values_v.len() == m);
        let mut j: usize = 0;
        while j < m
            invariant
                0 <= j <= m,
                entry == &headers.entries[gi],
                hv == headers@,
                0 <= gi < hv.len(),
                name_v == hv[gi].0,
                values_v == hv[gi].1,
                entry.0@ == name_v,
                entry.1@.map_values(|v: String| v@) == values_v,
                m == entry.1.len(),
                values_v.len() == m,
                header_name_ok(name_v),
                forall|k: int| 0 <= k < gi ==> entry_error((#[trigger] hv[k]).0, hv[k].1) is None,
                forall|l: int| 0 <= l < j ==> #[trigger] header_value_ok(values_v[l]),
                pairs_view(out@) == flatten_host(hv.take(gi)) + flatten_entry(
                    name_v,
                    values_v.take(j as int),
                ),
            decreases m - j,
        {
            let v = &entry.1[j];
            assert(v@ == values_v[j as int]);
            if !parse_header_value_ok(v.as_str()) {
                proof {
                    assert(!values_all_ok(values_v));
                    lemma_host_error_at(hv, gi);
                }
                return Err(EngineError::BadHeaderValue);
            }
            let ghost old_out = out@;
            out.push((entry.0.clone(), v.clone()));
            proof {
                let f = |e: (String, String)| (e.0@, e.1@);
                assert(out@.drop_last() == old_out);
                assert_seqs_equal!(
                    pairs_view(out@) == pairs_view(old_out).push((name_v, values_v[j as int]))
                );
                assert_seqs_equal!(
                    flatten_entry(name_v, values_v.take(j + 1)) ==
                        flatten_entry(name_v, values_v.take(j as int)).push(
                            (name_v, values_v[j as int]))
                );
            }
            j += 1;
        }
        proof {
            assert(values_v.take(m as int) =~= values_v);
            assert(values_all_ok(values_v));
            assert(entry_error(name_v, values_v) is None);
            lemma_flatten_take_step(hv, gi);
        }
        i += 1;
    }
    proof {
        assert(hv.take(n as int) =~= hv);
        lemma_host_error_clean(hv);
    }
    Ok(out)
}

proof fn lemma_group_insert_found(
    g: Seq<(Seq<char>, Seq<Seq<char>>)>,
    name: Seq<char>,
    value: Seq<char>,
    j: int,
)
    requires
        0 <= j < g.len(),
        g[j].0 == name,
        forall|k: int| 0 <= k < j ==> (#[trigger] g[k]).0 != name,
    ensures
        group_insert(g, name, value) == g.update(j, (g[j].0, g[j].1.push(value))),
    decreases g.len(),
{
    if j == 0 {
        assert(g.first().0 == name);
        assert_seqs_equal!(
            group_insert(g, name, value) == g.update(0, (g[0].0, g[0].1.push(value)))
        );
    } else {
        assert(g.first().0 != name);
        assert(forall|k: int|
            0 <= k < g.drop_first().len() ==> #[trigger] g.drop_first()[k] == g[k + 1]);
        lemma_group_insert_found(g.drop_first(), name, value, j - 1);
        assert_seqs_equal!(
            seq![g.first()] + g.drop_first().update(j - 1, (g[j].0, g[j].1.push(value)))
                == g.update(j, (g[j].0, g[j].1.push(value)))
        );
    }
}

proof fn lemma_group_insert_absent(
    g: Seq<(Seq<char>, Seq<Seq<char>>)>,
    name: Seq<char>,
    value: Seq<char>,
)
    requires
        !has_name(g, name),
    ensures
        group_insert(g, name, value) == g.push((name, seq![value])),
    decreases g.len(),
{
    if g.len() == 0 {
        assert_seqs_equal!(group_insert(g, name, value) == g.push((name, seq![value])));
    } else {
        assert(g[0].0 != name);
        assert(forall|k: int|
            0 <= k < g.drop_first().len() ==> #[trigger] g.drop_first()[k] == g[k + 1]);
        assert(!has_name(g.drop_first(), name));
        lemma_group_insert_absent(g.drop_first(), name, value);
        assert_seqs_equal!(
            seq![g.first()] + g.drop_first().push((name, seq![value]))
                == g.push((name, seq![value]))
        );
    }
}

/// Converts native pairs back into the host's dictionary form: each value
/// joins the first entry with its name, preserving value order; a new name
/// opens an entry at the end.  This mirrors how the host's own header
/// builder accumulates appended pairs.
pub fn headers_to_jni(pairs: &Vec<(String, String)>) -> (r: HostHeaders)
    ensures
        r@ == group_pairs(pairs_view(pairs@)),
{
    let ghost pv = pairs_view(pairs@);
    let mut out = HostHeaders { entries: Vec::new() };
    let n = pairs.len();
    assert(pv.len() == n);
    let mut i: usize = 0;
    while i < n
        invariant
            0 <= i <= n,
            n == pairs.len(),
            pv == pairs_view(pairs@),
            pv.len() == n,
            out@ == group_pairs(pv.take(i as int)),
        decreases n - i,
    {
        let ghost gi = i as int;
        let ghost g = out@;
        let name = &pairs[i].0;
        let value = &pairs[i].1;
        assert(name@ == pv[gi].0 && value@ == pv[gi].1);

        let count = out.entries.len();
        let mut j: usize = 0;
        let mut found = false;
        while j < count && !found
            invariant
                0 <= j <= count,
                count == out.entries.len(),
                g == out@,
                g.len() == count,
                !found ==> forall|k: int| 0 <= k < j ==> (#[trigger] g[k]).0 != name@,
                found ==> j < count && g[j as int].0 == name@ && forall|k: int|
                    0 <= k < j ==> (#[trigger] g[k]).0 != name@,
            decreases count - j + (if found { 0int } else { 1int }),
        {
            if out.entries[j].0.eq(name) {
                found = true;
            } else {
                j += 1;
            }
        }

        if found {
            let ghost old_entries = out.entries@;
            let slot = &mut out.entries[j];
            slot.1.push(value.clone());
            proof {
                assert(out.entries@ == old_entries.update(
                    j as int,
                    (old_entries[j as int].0, out.entries@[j as int].1),
                ));
                lemma_group_insert_found(g, name@, value@, j as int);
                assert_seqs_equal!(out@ == group_insert(g, name@, value@));
            }
        } else {
            let mut values: Vec<String> = Vec::new();
            values.push(value.clone());
            let ghost old_entries = out.entries@;
            out.entries.push((name.clone(), values));
            proof {
                assert(values@.map_values(|v: String| v@) =~= seq![value@]);
                lemma_group_insert_absent(g, name@, value@);
                assert_seqs_equal!(out@ == group_insert(g, name@, value@));
            }
        }
        proof {
            assert(pv.take(gi + 1).drop_last() =~= pv.take(gi));
            assert(pv.take(gi + 1).last() == pv[gi]);
        }
        i += 1;
    }
    assert(pv.take(n as int) =~= pv);
    out
}

proof fn lemma_group_pairs_append_entry(
    p: Seq<(Seq<char>, Seq<char>)>,
    name: Seq<char>,
    values: Seq<Seq<char>>,
)
    requires
        !has_name(group_pairs(p), name),
        values.len() >= 1,
    ensures
        group_pairs(p + flatten_entry(name, values)) == group_pairs(p).push((name, values)),
    decreases values.len(),
{
    let block = flatten_entry(name, values);
    let whole = p + block;
    assert(whole.len() == p.len() + values.len());
    assert(whole.last() == (name, values.last()));
    assert(whole.drop_last() =~= p + flatten_entry(name, values.drop_last()));
    if values.len() == 1 {
        assert(whole.drop_last() =~= p) by {
            assert(flatten_entry(name, values.drop_last()).len() == 0);
        }
        lemma_group_insert_absent(group_pairs(p), name, values.last());
        assert(group_pairs(whole) == group_pairs(p).push((name, seq![values.last()])));
        assert(seq![values.last()] =~= values);
    } else {
        lemma_group_pairs_append_entry(p, name, values.drop_last());
        let g = group_pairs(p).push((name, values.drop_last()));
        assert(group_pairs(whole) == group_insert(g, name, values.last()));
        let j = group_pairs(p).len() as int;
        assert(g[j].0 == name);
        assert(forall|k: int| 0 <= k < j ==> (#[trigger] g[k]).0 != name) by {
            assert(forall|k: int| 0 <= k < j ==> g[k] == #[trigger] group_pairs(p)[k]);
        }
        lemma_group_insert_found(g, name, values.last(), j);
        assert(values.drop_last().push(values.last()) =~= values);
        assert_seqs_equal!(
            g.update(j, (g[j].0, g[j].1.push(values.last())))
                == group_pairs(p).push((name, values))
        );
    }
}

/// Header round-trip law: flattening a well-formed multi-valued header set
/// into native pairs and regrouping it restores the set exactly — every
/// name, every value, their multiplicity and their order — provided names
/// are distinct and each carries at least one value.
pub proof fn lemma_header_round_trip(h: Seq<(Seq<char>, Seq<Seq<char>>)>)
    requires
        host_wf(h),
    ensures
        group_pairs(flatten_host(h)) == h,
    decreases h.len(),
{
    if h.len() == 0 {
        assert(group_pairs(flatten_host(h)) =~= h);
    } else {
        let hh = h.drop_last();
        let e = h.last();
        assert(host_wf(hh)) by {
            assert(forall|k: int| 0 <= k < hh.len() ==> #[trigger] hh[k] == h[k]);
        }
        lemma_header_round_trip(hh);
        assert(!has_name(group_pairs(flatten_host(hh)), e.0)) by {
            assert(group_pairs(flatten_host(hh)) == hh);
            assert(forall|k: int| 0 <= k < hh.len() ==> #[trigger] hh[k] == h[k]);
            assert(forall|k: int| 0 <= k < hh.len() ==> (#[trigger] hh[k]).0 != e.0);
        }
        lemma_group_pairs_append_entry(flatten_host(hh), e.0, e.1);
        assert(hh.push(e) =~= h);
    }
}

} // verus!
