//! The aggregate (uniform struct) codec: given the fields of a user struct
//! in declared order, each as its std140 alignment and its std140 byte
//! image, compute every field's byte offset, the aggregate's base alignment
//! and size, and materialize the aggregate's bytes. Each field starts at
//! the previous field's end rounded up to the field's own alignment, and
//! the whole aggregate is aligned and sized to a multiple of at least 16.

use vstd::prelude::*;

use crate::layout::lemma_round_up;
use crate::layout::round_up_to;
use crate::layout::spec_round_up;
use crate::uniform::push_zeros;
use crate::uniform::spec_zeros;

verus! {

/// The alignments are all std140 alignments: 4, 8, 16 or 32 bytes.
pub open spec fn spec_aligns_wf(aligns: Seq<int>) -> bool {
    forall|i: int|
        0 <= i < aligns.len() ==> (#[trigger] aligns[i] == 4 || aligns[i] == 8 || aligns[i] == 16
            || aligns[i] == 32)
}

/// Byte offset of each field: the previous field's end, rounded up to the
/// field's own alignment; the first field sits at offset 0.
pub open spec fn spec_field_offsets(aligns: Seq<int>, sizes: Seq<int>) -> Seq<int>
    recommends
        aligns.len() == sizes.len(),
    decreases aligns.len(),
{
    if aligns.len() == 0 {
        Seq::empty()
    } else {
        let prev = spec_field_offsets(aligns.drop_last(), sizes.drop_last());
        let end = if aligns.len() == 1 {
            0
        } else {
            prev.last() + sizes[aligns.len() - 2]
        };
        prev.push(spec_round_up(end, aligns.last()))
    }
}

/// End of the last field: its offset plus its size; 0 with no fields.
pub open spec fn spec_fields_end(aligns: Seq<int>, sizes: Seq<int>) -> int
    recommends
        aligns.len() == sizes.len(),
{
    if aligns.len() == 0 {
        0
    } else {
        spec_field_offsets(aligns, sizes).last() + sizes.last()
    }
}

/// Base alignment of the aggregate: the largest field alignment, rounded
/// up to 16, with a floor of 16.
pub open spec fn spec_struct_align(aligns: Seq<int>) -> int
    decreases aligns.len(),
{
    if aligns.len() == 0 {
        16
    } else {
        let rest = spec_struct_align(aligns.drop_last());
        let a = spec_round_up(aligns.last(), 16);
        if a > rest {
            a
        } else {
            rest
        }
    }
}

/// Byte size of the aggregate: the end of its last field rounded up to
/// the aggregate's base alignment.
pub open spec fn spec_struct_size(aligns: Seq<int>, sizes: Seq<int>) -> int
    recommends
        aligns.len() == sizes.len(),
{
    spec_round_up(spec_fields_end(aligns, sizes), spec_struct_align(aligns))
}

/// Bytes of the fields laid out in order: before each field, zero padding
/// up to the field's offset; no padding after the last field.
pub open spec fn spec_fields_raw(fields: Seq<Seq<u8>>, aligns: Seq<int>) -> Seq<u8>
    recommends
        fields.len() == aligns.len(),
    decreases fields.len(),
{
    if fields.len() == 0 {
        Seq::empty()
    } else {
        let p = spec_fields_raw(fields.drop_last(), aligns.drop_last());
        let off = spec_round_up(p.len() as int, aligns.last());
        p + spec_zeros(off - p.len()) + fields.last()
    }
}

/// Bytes of the whole aggregate: the fields in order, then zero padding up
/// to the aggregate's size.
pub open spec fn spec_struct_raw(fields: Seq<Seq<u8>>, aligns: Seq<int>) -> Seq<u8> {
    let sizes = fields.map_values(|f: Seq<u8>| f.len() as int);
    spec_fields_raw(fields, aligns) + spec_zeros(
        spec_struct_size(aligns, sizes) - spec_fields_raw(fields, aligns).len(),
    )
}

/// There is one offset per field.
pub proof fn lemma_field_offsets_len(aligns: Seq<int>, sizes: Seq<int>)
    ensures
        spec_field_offsets(aligns, sizes).len() == aligns.len(),
    decreases aligns.len(),
{
    if aligns.len() > 0 {
        lemma_field_offsets_len(aligns.drop_last(), sizes.drop_last());
    }
}

/// The offsets of the first `k` fields do not depend on the fields after
/// them.
pub proof fn lemma_field_offsets_prefix(aligns: Seq<int>, sizes: Seq<int>, k: int)
    requires
        aligns.len() == sizes.len(),
        0 <= k <= aligns.len(),
    ensures
        spec_field_offsets(aligns.take(k), sizes.take(k)) == spec_field_offsets(
            aligns,
            sizes,
        ).take(k),
    decreases aligns.len(),
{
    lemma_field_offsets_len(aligns, sizes);
    if k == aligns.len() {
        assert(aligns.take(k) =~= aligns);
        assert(sizes.take(k) =~= sizes);
        assert(spec_field_offsets(aligns, sizes).take(k) =~= spec_field_offsets(aligns, sizes));
    } else {
        lemma_field_offsets_prefix(aligns.drop_last(), sizes.drop_last(), k);
        lemma_field_offsets_len(aligns.drop_last(), sizes.drop_last());
        assert(aligns.drop_last().take(k) =~= aligns.take(k));
        assert(sizes.drop_last().take(k) =~= sizes.take(k));
        assert(spec_field_offsets(aligns, sizes).take(k) =~= spec_field_offsets(
            aligns.drop_last(),
            sizes.drop_last(),
        ).take(k));
    }
}

/// Each field's offset is the prior field's end rounded up to the field's
/// own alignment; the first field sits at offset 0; offsets strictly
/// increase past any field of positive size.
pub proof fn lemma_field_offsets_rule(aligns: Seq<int>, sizes: Seq<int>, i: int)
    requires
        aligns.len() == sizes.len(),
        forall|j: int| 0 <= j < aligns.len() ==> #[trigger] aligns[j] > 0,
        forall|j: int| 0 <= j < sizes.len() ==> #[trigger] sizes[j] >= 0,
        0 <= i < aligns.len(),
    ensures
        i == 0 ==> spec_field_offsets(aligns, sizes)[0] == 0,
        i > 0 ==> spec_field_offsets(aligns, sizes)[i] == spec_round_up(
            spec_field_offsets(aligns, sizes)[i - 1] + sizes[i - 1],
            aligns[i],
        ),
        spec_field_offsets(aligns, sizes)[i] >= 0,
        i > 0 ==> spec_field_offsets(aligns, sizes)[i] >= spec_field_offsets(aligns, sizes)[i - 1]
            + sizes[i - 1],
        i > 0 && sizes[i - 1] > 0 ==> spec_field_offsets(aligns, sizes)[i] > spec_field_offsets(
            aligns,
            sizes,
        )[i - 1],
    decreases aligns.len(),
{
    lemma_field_offsets_len(aligns, sizes);
    assert(aligns.last() == aligns[aligns.len() - 1] && aligns.last() > 0);
    if i == aligns.len() - 1 {
        let prev = spec_field_offsets(aligns.drop_last(), sizes.drop_last());
        lemma_field_offsets_len(aligns.drop_last(), sizes.drop_last());
        if i == 0 {
            lemma_round_up(0, aligns.last());
            vstd::arithmetic::div_mod::lemma_mod_multiples_basic(0int, aligns.last());
            assert(0int % aligns.last() == 0);
            assert(spec_round_up(0, aligns.last()) == 0);
            assert(spec_field_offsets(aligns, sizes)[0] == spec_round_up(0, aligns.last()));
        } else {
            lemma_field_offsets_rule(aligns.drop_last(), sizes.drop_last(), i - 1);
            assert(prev[i - 1] == spec_field_offsets(aligns, sizes)[i - 1]);
            lemma_round_up(prev.last() + sizes[i - 1], aligns.last());
        }
    } else {
        let prev = spec_field_offsets(aligns.drop_last(), sizes.drop_last());
        assert(forall|j: int|
            0 <= j < aligns.drop_last().len() ==> #[trigger] aligns.drop_last()[j] > 0);
        assert(forall|j: int|
            0 <= j < sizes.drop_last().len() ==> #[trigger] sizes.drop_last()[j] >= 0);
        lemma_field_offsets_rule(aligns.drop_last(), sizes.drop_last(), i);
        lemma_field_offsets_len(aligns.drop_last(), sizes.drop_last());
        assert(spec_field_offsets(aligns, sizes)[i] == prev[i]);
        if i > 0 {
            assert(spec_field_offsets(aligns, sizes)[i - 1] == prev[i - 1]);
            assert(aligns.drop_last()[i] == aligns[i]);
            assert(sizes.drop_last()[i - 1] == sizes[i - 1]);
        }
    }
}

/// The aggregate's base alignment is at least 16 and is itself one of the
/// std140 alignments.
pub proof fn lemma_struct_align_wf(aligns: Seq<int>)
    requires
        spec_aligns_wf(aligns),
    ensures
        spec_struct_align(aligns) == 16 || spec_struct_align(aligns) == 32,
    decreases aligns.len(),
{
    if aligns.len() > 0 {
        assert(spec_aligns_wf(aligns.drop_last()));
        lemma_struct_align_wf(aligns.drop_last());
    }
}

/// The aggregate's size is a multiple of its base alignment, so a finished
/// aggregate can stand as a `Structure` leaf of the kind model.
pub proof fn lemma_struct_size_aligned(aligns: Seq<int>, sizes: Seq<int>)
    requires
        aligns.len() == sizes.len(),
        forall|j: int| 0 <= j < aligns.len() ==> #[trigger] aligns[j] > 0,
        forall|j: int| 0 <= j < sizes.len() ==> #[trigger] sizes[j] >= 0,
    ensures
        spec_struct_size(aligns, sizes) % spec_struct_align(aligns) == 0,
{
    lemma_struct_align_min(aligns);
    let end = spec_fields_end(aligns, sizes);
    if aligns.len() > 0 {
        lemma_field_offsets_rule(aligns, sizes, aligns.len() - 1);
        lemma_field_offsets_len(aligns, sizes);
        assert(sizes.last() == sizes[sizes.len() - 1]);
        assert(end >= 0);
    }
    lemma_round_up(end, spec_struct_align(aligns));
}

/// The laid-out fields cover exactly the bytes up to the last field's end.
pub proof fn lemma_fields_raw_len(fields: Seq<Seq<u8>>, aligns: Seq<int>)
    requires
        fields.len() == aligns.len(),
        forall|j: int| 0 <= j < aligns.len() ==> #[trigger] aligns[j] > 0,
    ensures
        spec_fields_raw(fields, aligns).len() == spec_fields_end(
            aligns,
            fields.map_values(|f: Seq<u8>| f.len() as int),
        ),
        spec_fields_raw(fields, aligns).len() >= 0,
    decreases fields.len(),
{
    let sizes = fields.map_values(|f: Seq<u8>| f.len() as int);
    if fields.len() > 0 {
        lemma_fields_raw_len(fields.drop_last(), aligns.drop_last());
        let psizes = fields.drop_last().map_values(|f: Seq<u8>| f.len() as int);
        assert(psizes =~= sizes.drop_last());
        let p = spec_fields_raw(fields.drop_last(), aligns.drop_last());
        lemma_round_up(p.len() as int, aligns.last());
        lemma_field_offsets_len(aligns.drop_last(), sizes.drop_last());
        assert(spec_fields_end(aligns.drop_last(), sizes.drop_last()) == if aligns.len() == 1 {
            0
        } else {
            spec_field_offsets(aligns, sizes)[aligns.len() - 2] + sizes[aligns.len() - 2]
        });
    }
}

/// Every field ends at or before the end of the whole field list.
pub proof fn lemma_fields_end_bound(aligns: Seq<int>, sizes: Seq<int>, i: int)
    requires
        aligns.len() == sizes.len(),
        forall|j: int| 0 <= j < aligns.len() ==> #[trigger] aligns[j] > 0,
        forall|j: int| 0 <= j < sizes.len() ==> #[trigger] sizes[j] >= 0,
        0 <= i < aligns.len(),
    ensures
        spec_field_offsets(aligns, sizes)[i] + sizes[i] <= spec_fields_end(aligns, sizes),
    decreases aligns.len(),
{
    lemma_field_offsets_len(aligns, sizes);
    if i == aligns.len() - 1 {
    } else {
        assert(forall|j: int|
            0 <= j < aligns.drop_last().len() ==> #[trigger] aligns.drop_last()[j] > 0);
        assert(forall|j: int|
            0 <= j < sizes.drop_last().len() ==> #[trigger] sizes.drop_last()[j] >= 0);
        lemma_fields_end_bound(aligns.drop_last(), sizes.drop_last(), i);
        lemma_field_offsets_len(aligns.drop_last(), sizes.drop_last());
        assert(spec_field_offsets(aligns, sizes)[i] == spec_field_offsets(
            aligns.drop_last(),
            sizes.drop_last(),
        )[i]);
        let pend = spec_fields_end(aligns.drop_last(), sizes.drop_last());
        assert(aligns.last() > 0) by {
            assert(aligns.last() == aligns[aligns.len() - 1]);
        }
        assert(sizes.last() >= 0) by {
            assert(sizes.last() == sizes[sizes.len() - 1]);
        }
        lemma_round_up(if pend >= 0 {
            pend
        } else {
            0
        }, aligns.last());
        assert(spec_fields_end(aligns, sizes) == spec_round_up(pend, aligns.last())
            + sizes.last()) by {
            lemma_field_offsets_len(aligns.drop_last(), sizes.drop_last());
            if aligns.len() >= 2 {
                assert(spec_fields_end(aligns.drop_last(), sizes.drop_last())
                    == spec_field_offsets(aligns, sizes)[aligns.len() - 2] + sizes[aligns.len()
                    - 2]);
            }
        }
        if pend >= 0 {
            assert(spec_round_up(pend, aligns.last()) >= pend);
        } else {
            assert(spec_round_up(pend, aligns.last()) >= pend);
        }
    }
}

/// The aggregate's base alignment is never below 16.
pub proof fn lemma_struct_align_min(aligns: Seq<int>)
    ensures
        spec_struct_align(aligns) >= 16,
    decreases aligns.len(),
{
    if aligns.len() > 0 {
        lemma_struct_align_min(aligns.drop_last());
    }
}

/// Reading the aggregate's bytes back at a field's offset, for the field's
/// length, reproduces that field's bytes exactly.
pub proof fn lemma_field_recovery(fields: Seq<Seq<u8>>, aligns: Seq<int>, i: int)
    requires
        fields.len() == aligns.len(),
        forall|j: int| 0 <= j < aligns.len() ==> #[trigger] aligns[j] > 0,
        0 <= i < fields.len(),
    ensures
        spec_fields_raw(fields, aligns).subrange(
            spec_field_offsets(aligns, fields.map_values(|f: Seq<u8>| f.len() as int))[i],
            spec_field_offsets(aligns, fields.map_values(|f: Seq<u8>| f.len() as int))[i]
                + fields[i].len(),
        ) == fields[i],
    decreases fields.len(),
{
    let sizes = fields.map_values(|f: Seq<u8>| f.len() as int);
    let offs = spec_field_offsets(aligns, sizes);
    let w = spec_fields_raw(fields, aligns);
    let p = spec_fields_raw(fields.drop_last(), aligns.drop_last());
    let psizes = fields.drop_last().map_values(|f: Seq<u8>| f.len() as int);
    assert(psizes =~= sizes.drop_last());
    lemma_field_offsets_len(aligns, sizes);
    lemma_fields_raw_len(fields.drop_last(), aligns.drop_last());
    assert(aligns.last() > 0) by {
        assert(aligns.last() == aligns[aligns.len() - 1]);
    }
    let off = spec_round_up(p.len() as int, aligns.last());
    lemma_round_up(p.len() as int, aligns.last());
    if i == fields.len() - 1 {
        assert(offs[i] == off) by {
            lemma_field_offsets_len(aligns.drop_last(), sizes.drop_last());
            if aligns.len() >= 2 {
                assert(spec_fields_end(aligns.drop_last(), sizes.drop_last()) == offs[aligns.len()
                    - 2] + sizes[aligns.len() - 2]);
            }
        }
        assert(w.subrange(off, off + fields[i].len() as int) =~= fields[i]) by {
            assert(w == p + spec_zeros(off - p.len()) + fields.last());
            assert((p + spec_zeros(off - p.len())).len() == off);
        }
    } else {
        lemma_field_recovery(fields.drop_last(), aligns.drop_last(), i);
        assert(offs[i] == spec_field_offsets(aligns.drop_last(), sizes.drop_last())[i]);
        assert(forall|j: int|
            0 <= j < aligns.drop_last().len() ==> #[trigger] aligns.drop_last()[j] > 0);
        assert(forall|j: int| 0 <= j < sizes.len() ==> #[trigger] sizes[j] >= 0);
        assert(forall|j: int|
            0 <= j < psizes.len() ==> #[trigger] psizes[j] >= 0);
        lemma_fields_end_bound(aligns.drop_last(), sizes.drop_last(), i);
        assert(fields.drop_last()[i] == fields[i]);
        assert(sizes[i] == fields[i].len());
        assert(offs[i] + fields[i].len() <= p.len());
        assert(offs[i] >= 0) by {
            lemma_field_offsets_rule(aligns, sizes, i);
        }
        assert(w.subrange(offs[i], offs[i] + fields[i].len() as int) =~= p.subrange(
            offs[i],
            offs[i] + fields[i].len() as int,
        )) by {
            assert(w == p + spec_zeros(off - p.len()) + fields.last());
            assert forall|j: int| 0 <= j < p.len() implies #[trigger] w[j] == p[j] by {}
        }
    }
}

/// The aggregate's bytes cover exactly its computed size.
pub proof fn lemma_struct_raw_len(fields: Seq<Seq<u8>>, aligns: Seq<int>)
    requires
        fields.len() == aligns.len(),
        forall|j: int| 0 <= j < aligns.len() ==> #[trigger] aligns[j] > 0,
    ensures
        spec_struct_raw(fields, aligns).len() == spec_struct_size(
            aligns,
            fields.map_values(|f: Seq<u8>| f.len() as int),
        ),
{
    let sizes = fields.map_values(|f: Seq<u8>| f.len() as int);
    lemma_fields_raw_len(fields, aligns);
    lemma_struct_align_min(aligns);
    let end = spec_fields_end(aligns, sizes);
    if fields.len() == 0 {
        lemma_round_up(0, spec_struct_align(aligns));
    } else {
        lemma_field_offsets_len(aligns, sizes);
        assert(forall|j: int| 0 <= j < sizes.len() ==> #[trigger] sizes[j] >= 0);
        lemma_fields_end_bound(aligns, sizes, (aligns.len() - 1) as int);
        assert(end >= 0) by {
            lemma_field_offsets_rule(aligns, sizes, (aligns.len() - 1) as int);
            assert(sizes[aligns.len() - 1] >= 0);
        }
        lemma_round_up(end, spec_struct_align(aligns));
    }
}

/// Reading the whole aggregate's bytes back at a field's offset, for the
/// field's length, reproduces that field's bytes exactly: the round trip
/// through the raw-byte view recovers every field bit for bit.
pub proof fn lemma_struct_field_recovery(fields: Seq<Seq<u8>>, aligns: Seq<int>, i: int)
    requires
        fields.len() == aligns.len(),
        forall|j: int| 0 <= j < aligns.len() ==> #[trigger] aligns[j] > 0,
        0 <= i < fields.len(),
    ensures
        spec_struct_raw(fields, aligns).subrange(
            spec_field_offsets(aligns, fields.map_values(|f: Seq<u8>| f.len() as int))[i],
            spec_field_offsets(aligns, fields.map_values(|f: Seq<u8>| f.len() as int))[i]
                + fields[i].len(),
        ) == fields[i],
{
    let sizes = fields.map_values(|f: Seq<u8>| f.len() as int);
    let offs = spec_field_offsets(aligns, sizes);
    let w = spec_fields_raw(fields, aligns);
    let s = spec_struct_raw(fields, aligns);
    lemma_field_recovery(fields, aligns, i);
    lemma_fields_raw_len(fields, aligns);
    lemma_field_offsets_len(aligns, sizes);
    assert(forall|j: int| 0 <= j < sizes.len() ==> #[trigger] sizes[j] >= 0);
    lemma_fields_end_bound(aligns, sizes, i);
    assert(sizes[i] == fields[i].len());
    assert(offs[i] >= 0) by {
        lemma_field_offsets_rule(aligns, sizes, i);
    }
    assert(s.subrange(offs[i], offs[i] + fields[i].len() as int) =~= w.subrange(
        offs[i],
        offs[i] + fields[i].len() as int,
    )) by {
        assert forall|j: int| 0 <= j < w.len() implies #[trigger] s[j] == w[j] by {}
    }
}

/// The numeric values of a sequence of machine words.
pub open spec fn spec_to_ints(v: Seq<usize>) -> Seq<int> {
    v.map_values(|a: usize| a as int)
}

/// The byte contents of a list of field images.
pub open spec fn spec_to_views(v: Seq<Vec<u8>>) -> Seq<Seq<u8>> {
    v.map_values(|f: Vec<u8>| f@)
}

/// Base alignment of an aggregate with the given field alignments.
pub fn struct_align(aligns: &Vec<usize>) -> (r: usize)
    requires
        spec_aligns_wf(spec_to_ints(aligns@)),
    ensures
        r as int == spec_struct_align(spec_to_ints(aligns@)),
{
    let ghost ints = spec_to_ints(aligns@);
    let mut acc: usize = 16;
    let mut i: usize = 0;
    while i < aligns.len()
        invariant
            i <= aligns@.len(),
            spec_aligns_wf(ints),
            ints == spec_to_ints(aligns@),
            acc as int == spec_struct_align(ints.take(i as int)),
        decreases aligns@.len() - i,
    {
        let a = aligns[i];
        assert(a as int == ints[i as int]);
        let ra = round_up_to(a, 16);
        if ra > acc {
            acc = ra;
        }
        proof {
            assert(ints.take(i as int + 1).drop_last() =~= ints.take(i as int));
        }
        i = i + 1;
    }
    proof {
        assert(ints.take(aligns@.len() as int) =~= ints);
    }
    acc
}

/// Byte offset of each field of an aggregate, given the fields' std140
/// alignments and byte sizes in declared order. Each offset is the prior
/// field's end rounded up to the field's own alignment.
pub fn field_offsets(aligns: &Vec<usize>, sizes: &Vec<usize>) -> (r: Vec<usize>)
    requires
        aligns@.len() == sizes@.len(),
        spec_aligns_wf(spec_to_ints(aligns@)),
        spec_fields_end(spec_to_ints(aligns@), spec_to_ints(sizes@)) <= usize::MAX,
    ensures
        r@.map_values(|o: usize| o as int) == spec_field_offsets(
            spec_to_ints(aligns@),
            spec_to_ints(sizes@),
        ),
{
    let ghost ia = spec_to_ints(aligns@);
    let ghost is = spec_to_ints(sizes@);
    proof {
        lemma_field_offsets_len(ia, is);
    }
    let mut out: Vec<usize> = Vec::new();
    let mut end: usize = 0;
    let mut i: usize = 0;
    while i < aligns.len()
        invariant
            i <= aligns@.len(),
            ia == spec_to_ints(aligns@),
            is == spec_to_ints(sizes@),
            ia.len() == is.len(),
            spec_aligns_wf(ia),
            spec_fields_end(ia, is) <= usize::MAX,
            out@.map_values(|o: usize| o as int) == spec_field_offsets(
                ia.take(i as int),
                is.take(i as int),
            ),
            end as int == spec_fields_end(ia.take(i as int), is.take(i as int)),
        decreases aligns@.len() - i,
    {
        let ghost pa = ia.take(i as int);
        let ghost ps = is.take(i as int);
        let ghost na = ia.take(i as int + 1);
        let ghost ns = is.take(i as int + 1);
        proof {
            assert(na.drop_last() =~= pa);
            assert(ns.drop_last() =~= ps);
            assert(forall|j: int| 0 <= j < na.len() ==> #[trigger] na[j] > 0) by {
                assert(forall|j: int| 0 <= j < na.len() ==> na[j] == ia[j]);
            }
            assert(forall|j: int| 0 <= j < ns.len() ==> #[trigger] ns[j] >= 0) by {
                assert(forall|j: int| 0 <= j < ns.len() ==> ns[j] == is[j]);
            }
            lemma_field_offsets_len(pa, ps);
            lemma_field_offsets_len(na, ns);
            lemma_field_offsets_len(ia, is);
            assert(na.last() == ia[i as int]);
            assert(ns.last() == is[i as int]);
            lemma_field_offsets_prefix(ia, is, i as int + 1);
            assert(forall|j: int| 0 <= j < ia.len() ==> #[trigger] ia[j] > 0);
            assert(forall|j: int| 0 <= j < is.len() ==> #[trigger] is[j] >= 0);
            lemma_fields_end_bound(ia, is, i as int);
            assert(spec_field_offsets(na, ns) == spec_field_offsets(ia, is).take(i as int + 1));
            assert(spec_field_offsets(na, ns).last() == spec_field_offsets(ia, is)[i as int]);
            assert(spec_field_offsets(na, ns).last() == spec_round_up(
                spec_fields_end(pa, ps),
                na.last(),
            )) by {
                if i > 0 {
                    assert(ns[na.len() - 2] == ps.last());
                }
            }
            assert(spec_round_up(end as int, ia[i as int]) == spec_field_offsets(
                ia,
                is,
            )[i as int]);
        }
        let a = aligns[i];
        let off = round_up_to(end, a);
        out.push(off);
        end = off + sizes[i];
        proof {
            assert(spec_fields_end(na, ns) == spec_field_offsets(na, ns).last() + ns.last());
            assert(out@.map_values(|o: usize| o as int) =~= spec_field_offsets(na, ns)) by {
                lemma_field_offsets_prefix(ia, is, i as int);
            }
        }
        i = i + 1;
    }
    proof {
        assert(ia.take(aligns@.len() as int) =~= ia);
        assert(is.take(aligns@.len() as int) =~= is);
    }
    out
}

/// Byte size of an aggregate with the given field alignments and sizes:
/// the end of the last field rounded up to the aggregate's base alignment.
pub fn struct_size(aligns: &Vec<usize>, sizes: &Vec<usize>) -> (r: usize)
    requires
        aligns@.len() == sizes@.len(),
        spec_aligns_wf(spec_to_ints(aligns@)),
        spec_struct_size(spec_to_ints(aligns@), spec_to_ints(sizes@)) <= usize::MAX,
    ensures
        r as int == spec_struct_size(spec_to_ints(aligns@), spec_to_ints(sizes@)),
{
    let ghost ia = spec_to_ints(aligns@);
    let ghost is = spec_to_ints(sizes@);
    proof {
        lemma_struct_align_min(ia);
        assert(forall|j: int| 0 <= j < is.len() ==> #[trigger] is[j] >= 0);
        if ia.len() > 0 {
            lemma_field_offsets_len(ia, is);
            lemma_fields_end_bound(ia, is, ia.len() - 1);
            lemma_field_offsets_rule(ia, is, ia.len() - 1);
        }
        lemma_round_up(spec_fields_end(ia, is), spec_struct_align(ia));
    }
    let offs = field_offsets(aligns, sizes);
    let n = aligns.len();
    let end: usize = if n == 0 {
        0
    } else {
        proof {
            lemma_field_offsets_len(ia, is);
            assert(offs@.map_values(|o: usize| o as int)[n - 1] == spec_field_offsets(
                ia,
                is,
            )[n - 1]);
        }
        offs[n - 1] + sizes[n - 1]
    };
    let salign = struct_align(aligns);
    round_up_to(end, salign)
}

/// The bytes of an aggregate: each field's std140 byte image laid out in
/// declared order, preceded by zero padding up to the field's offset, and
/// the whole image zero-padded to the aggregate's size.
pub fn struct_raw(fields: &Vec<Vec<u8>>, aligns: &Vec<usize>) -> (r: Vec<u8>)
    requires
        fields@.len() == aligns@.len(),
        spec_aligns_wf(spec_to_ints(aligns@)),
    ensures
        r@ == spec_struct_raw(spec_to_views(fields@), spec_to_ints(aligns@)),
{
    let ghost ia = spec_to_ints(aligns@);
    let ghost fv = spec_to_views(fields@);
    let mut out: Vec<u8> = Vec::new();
    let mut i: usize = 0;
    while i < fields.len()
        invariant
            i <= fields@.len(),
            ia == spec_to_ints(aligns@),
            fv == spec_to_views(fields@),
            fv.len() == ia.len(),
            spec_aligns_wf(ia),
            out@ == spec_fields_raw(fv.take(i as int), ia.take(i as int)),
        decreases fields@.len() - i,
    {
        let a = aligns[i];
        assert(a as int == ia[i as int]);
        let rem = out.len() % a;
        let pad: usize = if rem == 0 {
            0
        } else {
            a - rem
        };
        let ghost p = out@;
        push_zeros(&mut out, pad);
        assert(out@.len() as int == spec_round_up(p.len() as int, ia[i as int]));
        let ghost mid = out@;
        let f = &fields[i];
        assert(f@ == fv[i as int]);
        let mut j: usize = 0;
        while j < f.len()
            invariant
                j <= f@.len(),
                out@ == mid + f@.take(j as int),
            decreases f@.len() - j,
        {
            let b = f[j];
            out.push(b);
            proof {
                assert(out@ =~= mid + f@.take(j as int + 1));
            }
            j = j + 1;
        }
        proof {
            assert(fv.take(i as int + 1).drop_last() =~= fv.take(i as int));
            assert(ia.take(i as int + 1).drop_last() =~= ia.take(i as int));
            assert(f@.take(f@.len() as int) =~= f@);
            assert(fv.take(i as int + 1).last() == fv[i as int]);
            assert(ia.take(i as int + 1).last() == ia[i as int]);
            assert(out@ =~= spec_fields_raw(fv.take(i as int + 1), ia.take(i as int + 1)));
        }
        i = i + 1;
    }
    proof {
        assert(fv.take(fields@.len() as int) =~= fv);
        assert(ia.take(fields@.len() as int) =~= ia);
    }
    let salign = struct_align(aligns);
    proof {
        lemma_struct_align_min(ia);
    }
    let rem = out.len() % salign;
    let pad: usize = if rem == 0 {
        0
    } else {
        salign - rem
    };
    let ghost w = out@;
    push_zeros(&mut out, pad);
    proof {
        lemma_fields_raw_len(fv, ia);
        let sizes = fv.map_values(|f: Seq<u8>| f.len() as int);
        assert(w.len() + pad == spec_round_up(spec_fields_end(ia, sizes), spec_struct_align(ia)));
        assert(out@ =~= spec_struct_raw(fv, ia));
    }
    out
}

/// Copy `size` bytes of an aggregate's image starting at `offset`: with a
/// field's offset and size, this reads that field's bytes back.
pub fn read_field(raw: &Vec<u8>, offset: usize, size: usize) -> (r: Vec<u8>)
    requires
        offset + size <= raw@.len(),
    ensures
        r@ == raw@.subrange(offset as int, offset as int + size as int),
{
    let mut out: Vec<u8> = Vec::new();
    let n = raw.len();
    let mut j: usize = 0;
    while j < size
        invariant
            j <= size,
            offset + size <= raw@.len(),
            n == raw@.len(),
            out@ == raw@.subrange(offset as int, offset as int + j as int),
        decreases size - j,
    {
        let b = raw[offset + j];
        out.push(b);
        proof {
            assert(out@ =~= raw@.subrange(offset as int, offset as int + j as int + 1));
        }
        j = j + 1;
    }
    out
}

} // verus!
