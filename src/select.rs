use vstd::prelude::*;

use crate::catalog::{
    disposition_has, has_flag, MediaKind, DISPOSITION_ATTACHED_PIC, DISPOSITION_DEFAULT,
    DISPOSITION_FORCED,
};
use crate::codec::{CodecParameters, StreamEntry};

verus! {

/// How rich a stream is for its category, compared first by the first
/// component, then by the second: resolution then bit rate for video,
/// channel count then sample rate for audio, and for subtitles whether the
/// stream is neither forced nor an attached picture. A stream without
/// resolved parameters scores nothing.
pub open spec fn richness(e: StreamEntry) -> (int, int) {
    if e.descriptor.kind == MediaKind::Subtitle {
        if !has_flag(e.descriptor.disposition, DISPOSITION_FORCED) && !has_flag(
            e.descriptor.disposition,
            DISPOSITION_ATTACHED_PIC,
        ) {
            (1, 0)
        } else {
            (0, 0)
        }
    } else {
        match e.params {
            Some(CodecParameters::Video(v)) => (v.width * v.height, v.bit_rate as int),
            Some(CodecParameters::Audio(a)) => (a.channels as int, a.sample_rate as int),
            None => (0, 0),
        }
    }
}

/// The rank of a stream: the default flag first, then its richness.
pub open spec fn rank(e: StreamEntry) -> (int, int, int) {
    (
        if has_flag(e.descriptor.disposition, DISPOSITION_DEFAULT) {
            1int
        } else {
            0int
        },
        richness(e).0,
        richness(e).1,
    )
}

/// Whether `a` is to be chosen over `b`, or is as good: a higher rank, or
/// an equal rank and an index no greater.
pub open spec fn prefers(a: StreamEntry, b: StreamEntry) -> bool {
    let (a0, a1, a2) = rank(a);
    let (b0, b1, b2) = rank(b);
    a0 > b0 || (a0 == b0 && (a1 > b1 || (a1 == b1 && (a2 > b2 || (a2 == b2
        && a.descriptor.index <= b.descriptor.index)))))
}

/// Whether `r` is the selection among the streams `s` of category `kind`:
/// `None` when there is none, else the index of one that is preferred to
/// every stream of that category.
pub open spec fn selects(s: Seq<StreamEntry>, kind: MediaKind, r: Option<usize>) -> bool {
    match r {
        None => forall|i: int| 0 <= i < s.len() ==> s[i].descriptor.kind != kind,
        Some(x) => exists|j: int|
            #![trigger s[j]]
            0 <= j < s.len() && s[j].descriptor.kind == kind && s[j].descriptor.index == x
                && forall|k: int|
                0 <= k < s.len() && s[k].descriptor.kind == kind ==> prefers(s[j], s[k]),
    }
}

proof fn lemma_prefers_total_transitive(a: StreamEntry, b: StreamEntry, c: StreamEntry)
    ensures
        prefers(a, b) || prefers(b, a),
        prefers(a, b) && prefers(b, c) ==> prefers(a, c),
{
}

/// The rank of a stream, computed.
fn rank_of(e: &StreamEntry) -> (r: (u64, u64, u64))
    ensures
        r.0 as int == rank(*e).0,
        r.1 as int == rank(*e).1,
        r.2 as int == rank(*e).2,
{
    let d: u64 = if disposition_has(e.descriptor.disposition, DISPOSITION_DEFAULT) {
        1
    } else {
        0
    };
    if e.descriptor.kind == MediaKind::Subtitle {
        if !disposition_has(e.descriptor.disposition, DISPOSITION_FORCED) && !disposition_has(
            e.descriptor.disposition,
            DISPOSITION_ATTACHED_PIC,
        ) {
            (d, 1, 0)
        } else {
            (d, 0, 0)
        }
    } else {
        match e.params {
            Some(CodecParameters::Video(v)) => {
                assert(v.width * v.height <= 0xffff_ffff * 0xffff_ffff) by (nonlinear_arith)
                    requires
                        v.width <= 0xffff_ffff,
                        v.height <= 0xffff_ffff,
                ;
                (d, (v.width as u64) * (v.height as u64), v.bit_rate)
            },
            Some(CodecParameters::Audio(a)) => (d, a.channels as u64, a.sample_rate as u64),
            None => (d, 0, 0),
        }
    }
}

/// Whether stream `a` is to be chosen over stream `b`, or is as good.
pub fn prefers_stream(a: &StreamEntry, b: &StreamEntry) -> (r: bool)
    ensures
        r == prefers(*a, *b),
{
    let (a0, a1, a2) = rank_of(a);
    let (b0, b1, b2) = rank_of(b);
    a0 > b0 || (a0 == b0 && (a1 > b1 || (a1 == b1 && (a2 > b2 || (a2 == b2
        && a.descriptor.index <= b.descriptor.index)))))
}

/// Chooses the most suitable stream of category `kind`: a declared default
/// first, then the richest, then the lowest index. `None` when the category
/// is absent.
pub fn select_best(s: &Vec<StreamEntry>, kind: MediaKind) -> (r: Option<usize>)
    ensures
        selects(s@, kind, r),
        r.is_none() <==> forall|i: int| 0 <= i < s@.len() ==> s@[i].descriptor.kind != kind,
{
    let mut best: Option<usize> = None;
    let mut i: usize = 0;
    while i < s.len()
        invariant
            i <= s.len(),
            match best {
                None => forall|k: int| 0 <= k < i ==> s@[k].descriptor.kind != kind,
                Some(p) => p < i && s@[p as int].descriptor.kind == kind && forall|k: int|
                    0 <= k < i && s@[k].descriptor.kind == kind ==> prefers(
                        s@[p as int],
                        s@[k],
                    ),
            },
        decreases s.len() - i,
    {
        if s[i].descriptor.kind == kind {
            match best {
                None => {
                    best = Some(i);
                },
                Some(p) => {
                    if !prefers_stream(&s[p], &s[i]) {
                        proof {
                            assert forall|k: int|
                                0 <= k < i + 1 && s@[k].descriptor.kind == kind implies prefers(
                                s@[i as int],
                                s@[k],
                            ) by {
                                lemma_prefers_total_transitive(s@[i as int], s@[p as int], s@[k]);
                            }
                        }
                        best = Some(i);
                    }
                },
            }
        }
        i = i + 1;
    }
    match best {
        None => None,
        Some(p) => Some(s[p].descriptor.index),
    }
}

/// The selection is a function of which streams there are: over two lists
/// holding the same streams, in whatever order, it gives the same index,
/// the lowest index among equally ranked candidates.
pub proof fn lemma_selection_order_free(
    s1: Seq<StreamEntry>,
    s2: Seq<StreamEntry>,
    kind: MediaKind,
    r1: Option<usize>,
    r2: Option<usize>,
)
    requires
        forall|e: StreamEntry| s1.contains(e) <==> s2.contains(e),
        selects(s1, kind, r1),
        selects(s2, kind, r2),
    ensures
        r1 == r2,
{
    match r1 {
        None => {
            if r2.is_some() {
                let j2 = choose|j: int|
                    #![trigger s2[j]]
                    0 <= j < s2.len() && s2[j].descriptor.kind == kind && s2[j].descriptor.index
                        == r2.unwrap() && forall|k: int|
                        0 <= k < s2.len() && s2[k].descriptor.kind == kind ==> prefers(
                            s2[j],
                            s2[k],
                        );
                assert(s2.contains(s2[j2]));
            }
        },
        Some(x1) => {
            let j1 = choose|j: int|
                #![trigger s1[j]]
                0 <= j < s1.len() && s1[j].descriptor.kind == kind && s1[j].descriptor.index == x1
                    && forall|k: int|
                    0 <= k < s1.len() && s1[k].descriptor.kind == kind ==> prefers(s1[j], s1[k]);
            assert(s1.contains(s1[j1]));
            let m2 = choose|m: int| 0 <= m < s2.len() && s2[m] == s1[j1];
            match r2 {
                None => {},
                Some(x2) => {
                    let j2 = choose|j: int|
                        #![trigger s2[j]]
                        0 <= j < s2.len() && s2[j].descriptor.kind == kind && s2[j].descriptor.index
                            == x2 && forall|k: int|
                            0 <= k < s2.len() && s2[k].descriptor.kind == kind ==> prefers(
                                s2[j],
                                s2[k],
                            );
                    assert(s2.contains(s2[j2]));
                    let m1 = choose|m: int| 0 <= m < s1.len() && s1[m] == s2[j2];
                    assert(prefers(s1[j1], s1[m1]));
                    assert(prefers(s2[j2], s2[m2]));
                },
            }
        },
    }
}

/// Over one list the selection has a single possible result.
pub proof fn lemma_selection_unique(s: Seq<StreamEntry>, kind: MediaKind, r1: Option<usize>, r2: Option<usize>)
    requires
        selects(s, kind, r1),
        selects(s, kind, r2),
    ensures
        r1 == r2,
{
    lemma_selection_order_free(s, s, kind, r1, r2);
}

} // verus!
