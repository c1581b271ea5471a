//! Changing one part of a video tree, found by its number in the tree's preorder.

use vstd::prelude::*;
use crate::video::{
    Video, VideoV, VideoTypeV, VideoTypeEnum, VideoTypeEnumV, VideoChanges, VideoChangesV, video_applied, preorder,
    preorder_all, children_v, lemma_preorder_children, lemma_list_view, videos_v, VideoTypeChanges,
    VideoTypeChangesV, VideoTypeChanges_List, ListChangeV, list_applied, list_step, seq_weight, list_change_weight,
    lemma_seq_weight_insert, lemma_list_changes_view, list_changes_v,
};
use crate::useful::get_elem_from_index_recursive;
use crate::useful::lemma_preorder_all_prefix;

verus! {

/// `v` with the video at place `i` of its preorder (see `preorder`) replaced by `n`;
/// `v` itself where there is no such place.
pub open spec fn replaced_at(v: VideoV, i: int, n: VideoV) -> VideoV
    decreases v, 0int,
{
    if i == 0 {
        n
    } else if i < 0 {
        v
    } else {
        match v.video.vt {
            VideoTypeEnumV::List(vs) => VideoV {
                video: VideoTypeV { vt: VideoTypeEnumV::List(replaced_all(vs, 0, i - 1, n)), ..v.video },
                ..v
            },
            VideoTypeEnumV::AspectRatio(c, w, h) => VideoV {
                video: VideoTypeV { vt: VideoTypeEnumV::AspectRatio(Box::new(replaced_at(*c, i - 1, n)), w, h), ..v.video },
                ..v
            },
            VideoTypeEnumV::WithEffect(c, e) => VideoV {
                video: VideoTypeV { vt: VideoTypeEnumV::WithEffect(Box::new(replaced_at(*c, i - 1, n)), e), ..v.video },
                ..v
            },
            _ => v,
        }
    }
}

/// The videos `vs` with the video at place `i` of the preorders of `vs[k..]`, one after
/// the other, replaced by `n`.
pub open spec fn replaced_all(vs: Seq<VideoV>, k: int, i: int, n: VideoV) -> Seq<VideoV>
    decreases vs, vs.len() - k,
{
    if k < 0 || k >= vs.len() || i < 0 {
        vs
    } else if i < preorder(vs[k]).len() {
        vs.update(k, replaced_at(vs[k], i, n))
    } else {
        replaced_all(vs, k + 1, i - preorder(vs[k]).len(), n)
    }
}

/// The video at place `i` of `v`'s preorder with the changes `c` waiting.
pub open spec fn part_with_changes(v: VideoV, i: int, c: VideoChangesV) -> VideoV {
    VideoV { changes: c, ..preorder(v)[i] }
}

/// The video that the changes `c` make of the part at place `i` of `v`'s preorder.
pub open spec fn changed_part(v: VideoV, i: int, c: VideoChangesV) -> VideoV {
    match video_applied(part_with_changes(v, i, c)) {
        Some((x, _)) => x,
        None => v,
    }
}

/// Place `i` of the preorder of `v`, which shows the videos `vs`, lies in the child
/// `k` where the preorders of the children before it are shorter than `i`.
pub proof fn lemma_place_in_child(v: VideoV, vs: Seq<VideoV>, k: int, i: int)
    requires
        preorder(v) == seq![v] + preorder_all(vs, vs.len() as int),
        0 <= k < vs.len(),
        preorder_all(vs, k).len() <= i - 1 < preorder_all(vs, k).len() + preorder(vs[k]).len(),
    ensures
        preorder(v)[i] == preorder(vs[k])[i - 1 - preorder_all(vs, k).len()],
        i < preorder(v).len(),
{
    lemma_preorder_all_prefix(vs, k + 1, vs.len() as int);
    let p = preorder_all(vs, k);
    let q = preorder_all(vs, k + 1);
    assert(q == p + preorder(vs[k]));
    assert(q[i - 1] == preorder(vs[k])[i - 1 - p.len()]);
    assert(preorder_all(vs, vs.len() as int)[i - 1] == q[i - 1]);
}

/// The preorders of the first `k` videos depend on those videos alone.
proof fn lemma_preorder_all_same_prefix(vs: Seq<VideoV>, ws: Seq<VideoV>, k: int)
    requires
        0 <= k <= vs.len(),
        k <= ws.len(),
        forall|j: int| 0 <= j < k ==> vs[j] == ws[j],
    ensures
        preorder_all(vs, k) == preorder_all(ws, k),
    decreases k,
{
    if k > 0 {
        lemma_preorder_all_same_prefix(vs, ws, k - 1);
    }
}

/// The video of `vs[k..]` that holds place `i` of their preorders, one after the
/// other, and the place in that video's preorder.
pub open spec fn child_place(vs: Seq<VideoV>, k: int, i: int) -> (int, int)
    decreases vs.len() - k,
{
    if k < 0 || k >= vs.len() || i < 0 || i < preorder(vs[k]).len() {
        (k, i)
    } else {
        child_place(vs, k + 1, i - preorder(vs[k]).len())
    }
}

/// Replacing a video inside `vs[k..]` at place `i` of their preorders replaces it in the
/// child that holds that place (see `child_place`).
pub proof fn lemma_replaced_all_child(vs: Seq<VideoV>, k: int, i: int, n: VideoV) -> (r: (int, int))
    requires
        0 <= k <= vs.len(),
        0 <= i,
        preorder_all(vs, k).len() + i < preorder_all(vs, vs.len() as int).len(),
    ensures
        r == child_place(vs, k, i),
        k <= r.0 < vs.len(),
        0 <= r.1 < preorder(vs[r.0]).len(),
        preorder_all(vs, r.0).len() + r.1 == preorder_all(vs, k).len() + i,
        replaced_all(vs, k, i, n) == vs.update(r.0, replaced_at(vs[r.0], r.1, n)),
    decreases vs.len() - k,
{
    if k == vs.len() {
        assert(false);
        (k, i)
    } else {
        lemma_preorder_all_prefix(vs, k + 1, vs.len() as int);
        assert(preorder_all(vs, k + 1) == preorder_all(vs, k) + preorder(vs[k]));
        if i < preorder(vs[k]).len() {
            (k, i)
        } else {
            lemma_replaced_all_child(vs, k + 1, i - preorder(vs[k]).len(), n)
        }
    }
}

/// After the video at place `i` of `v`'s preorder was replaced by `n`, that place
/// holds `n`: reading a part back gives what was written there.
pub proof fn lemma_replaced_part_reads_back(v: VideoV, i: int, n: VideoV)
    requires
        0 <= i < preorder(v).len(),
    ensures
        i < preorder(replaced_at(v, i, n)).len(),
        preorder(replaced_at(v, i, n))[i] == n,
    decreases v, 0int,
{
    if i > 0 {
        lemma_preorder_children(v);
        let w = replaced_at(v, i, n);
        lemma_preorder_children(w);
        match v.video.vt {
            VideoTypeEnumV::List(vs) => {
                let (k, j) = lemma_replaced_all_child(vs, 0, i - 1, n);
                let c = replaced_at(vs[k], j, n);
                lemma_replaced_part_reads_back(vs[k], j, n);
                let ws = vs.update(k, c);
                assert(children_v(w) == ws);
                lemma_preorder_all_same_prefix(vs, ws, k);
                lemma_preorder_all_prefix(ws, k + 1, ws.len() as int);
                assert(preorder_all(ws, k + 1) == preorder_all(ws, k) + preorder(ws[k]));
                let p = preorder_all(ws, k);
                assert(p.len() + j == i - 1);
                assert(j < preorder(c).len());
                assert(preorder_all(ws, k + 1)[p.len() + j] == preorder(c)[j]);
                assert(preorder_all(ws, ws.len() as int)[i - 1] == preorder_all(ws, k + 1)[i - 1]);
            },
            VideoTypeEnumV::AspectRatio(c, _, _) => {
                lemma_replaced_part_reads_back(*c, i - 1, n);
            },
            VideoTypeEnumV::WithEffect(c, _) => {
                lemma_replaced_part_reads_back(*c, i - 1, n);
            },
            _ => {},
        }
    }
}

/// Putting back the video found at place `i` of `v`'s preorder, as it was, leaves `v`
/// as it was: a part reached through `get_elem_from_index_recursive_mut` and not
/// changed there changes no video of the tree.
pub proof fn lemma_replaced_by_itself(v: VideoV, i: int)
    requires
        0 <= i < preorder(v).len(),
    ensures
        replaced_at(v, i, preorder(v)[i]) == v,
    decreases v, 0int,
{
    if i > 0 {
        lemma_preorder_children(v);
        let n = preorder(v)[i];
        match v.video.vt {
            VideoTypeEnumV::List(vs) => {
                let (k, j) = lemma_replaced_all_child(vs, 0, i - 1, n);
                assert(preorder_all(vs, 0) =~= Seq::<VideoV>::empty());
                lemma_place_in_child(v, vs, k, i);
                assert(preorder(vs[k])[j] == n);
                lemma_replaced_by_itself(vs[k], j);
                assert(vs.update(k, replaced_at(vs[k], j, n)) =~= vs);
            },
            VideoTypeEnumV::AspectRatio(c, _, _) => {
                assert(preorder(v)[i] == preorder(*c)[i - 1]);
                lemma_replaced_by_itself(*c, i - 1);
            },
            VideoTypeEnumV::WithEffect(c, _) => {
                assert(preorder(v)[i] == preorder(*c)[i - 1]);
                lemma_replaced_by_itself(*c, i - 1);
            },
            _ => {},
        }
    }
}

/// Gives the changes `changes` to the video at place `*index` of `vid`'s preorder and
/// applies them, counting `index` down as the walk goes. Hands the changes back where
/// there is no such video.
#[verifier::spinoff_prover]
#[verifier::rlimit(40)]
fn apply_at_index(vid: &mut Video, index: &mut u32, changes: VideoChanges) -> (r: Result<bool, VideoChanges>)
    requires
        *old(index) < preorder(old(vid)@).len() ==> video_applied(part_with_changes(old(vid)@, *old(index) as int, changes@))
            is Some,
    ensures
        *old(index) < preorder(old(vid)@).len() ==> match video_applied(
            part_with_changes(old(vid)@, *old(index) as int, changes@),
        ) {
            Some((nv, ok)) => (r matches Ok(b) && b == ok) && final(vid)@ == replaced_at(old(vid)@, *old(index) as int, nv),
            None => false,
        },
        *old(index) >= preorder(old(vid)@).len() ==> (r matches Err(c) && c@ == changes@) && final(vid)@ == old(vid)@
            && *final(index) == *old(index) - (preorder(old(vid)@).len() - 1),
    decreases preorder(old(vid)@).len(),
{
    let ghost v0 = vid@;
    let ghost i0 = *index as int;
    proof {
        lemma_preorder_children(v0);
    }
    if *index == 0 {
        vid.set_changes(changes);
        let ok = vid.apply_changes();
        return Ok(ok);
    }
    let ghost nv = changed_part(v0, i0, changes@);
    let vt = vid.take_content();
    let ghost emptied = vid@;
    match vt {
        VideoTypeEnum::List(mut vec) => {
            proof {
                lemma_list_view(&vec);
            }
            let ghost vs = videos_v(vec@);
            let ghost n = vs.len() as int;
            assert(children_v(v0) == vs);
            let mut pending = changes;
            let mut k: usize = 0;
            while k < vec.len()
                invariant
                    0 <= k <= n,
                    n == vec@.len(),
                    videos_v(vec@) == vs,
                    pending@ == changes@,
                    v0.video.vt == VideoTypeEnumV::List(vs),
                    preorder(v0) == seq![v0] + preorder_all(vs, n),
                    i0 >= 1,
                    i0 - 1 >= preorder_all(vs, k as int).len(),
                    *index == i0 - preorder_all(vs, k as int).len(),
                    nv == changed_part(v0, i0, changes@),
                    i0 < preorder(v0).len() ==> video_applied(part_with_changes(v0, i0, changes@)) is Some,
                    replaced_all(vs, 0, i0 - 1, nv) == replaced_all(vs, k as int, i0 - 1 - preorder_all(vs, k as int).len(), nv),
                    vid@ == emptied,
                    v0 == old(vid)@,
                    i0 == *old(index),
                    emptied == (VideoV { video: VideoTypeV { vt: VideoTypeEnumV::List(Seq::empty()), ..v0.video }, ..v0 }),
                decreases n - k,
            {
                let ghost before = (*index - 1) as int;
                let ghost p = preorder_all(vs, k as int);
                proof {
                    lemma_preorder_all_prefix(vs, k as int + 1, n);
                    assert(preorder_all(vs, k as int + 1) == p + preorder(vs[k as int]));
                    assert(preorder(vs[k as int]).len() < preorder(v0).len());
                    if before < preorder(vs[k as int]).len() {
                        lemma_place_in_child(v0, vs, k as int, i0);
                        assert(part_with_changes(vs[k as int], before, changes@) == part_with_changes(v0, i0, changes@));
                    }
                }
                *index = *index - 1;
                let mut child = vec.remove(k);
                assert(child@ == vs[k as int]);
                let r = apply_at_index(&mut child, index, pending);
                let ghost c1 = child@;
                vec.insert(k, child);
                match r {
                    Ok(b) => {
                        proof {
                            assert(before < preorder(vs[k as int]).len());
                            lemma_place_in_child(v0, vs, k as int, i0);
                            assert(part_with_changes(vs[k as int], before, changes@) == part_with_changes(v0, i0, changes@));
                            assert(c1 == replaced_at(vs[k as int], before, nv));
                            assert(replaced_all(vs, k as int, before, nv) == vs.update(k as int, c1));
                            assert(videos_v(vec@) =~= vs.update(k as int, c1));
                        }
                        proof {
                            lemma_list_view(&vec);
                        }
                        vid.put_content(VideoTypeEnum::List(vec));
                        assert(vid@ == replaced_at(v0, i0, nv));
                        return Ok(b);
                    },
                    Err(c) => {
                        pending = c;
                        assert(videos_v(vec@) =~= vs);
                    },
                }
                k = k + 1;
            }
            proof {
                lemma_list_view(&vec);
            }
            vid.put_content(VideoTypeEnum::List(vec));
            Err(pending)
        },
        VideoTypeEnum::AspectRatio(mut c, w, h) => {
            proof {
                if i0 - 1 < preorder(c@).len() {
                    assert(preorder(v0)[i0] == preorder(c@)[i0 - 1]);
                }
            }
            *index = *index - 1;
            let r = apply_at_index(&mut c, index, changes);
            vid.put_content(VideoTypeEnum::AspectRatio(c, w, h));
            r
        },
        VideoTypeEnum::WithEffect(mut c, e) => {
            proof {
                if i0 - 1 < preorder(c@).len() {
                    assert(preorder(v0)[i0] == preorder(c@)[i0 - 1]);
                }
            }
            *index = *index - 1;
            let r = apply_at_index(&mut c, index, changes);
            vid.put_content(VideoTypeEnum::WithEffect(c, e));
            r
        },
        other => {
            vid.put_content(other);
            Err(changes)
        },
    }
}

/// Gives the changes `changes` to the video at place `index` of `vid`'s preorder (`vid`
/// itself at 0) and applies them (see `Video::apply_changes`): whether that changed
/// something, or `None` where there is no such video.
pub fn apply_changes_to_part(vid: &mut Video, index: u32, changes: VideoChanges) -> (r: Option<bool>)
    requires
        index < preorder(old(vid)@).len() ==> video_applied(part_with_changes(old(vid)@, index as int, changes@)) is Some,
    ensures
        index < preorder(old(vid)@).len() ==> match video_applied(part_with_changes(old(vid)@, index as int, changes@)) {
            Some((nv, ok)) => r == Some(ok) && final(vid)@ == replaced_at(old(vid)@, index as int, nv),
            None => false,
        },
        index >= preorder(old(vid)@).len() ==> r is None && final(vid)@ == old(vid)@,
{
    let mut i = index;
    match apply_at_index(vid, &mut i, changes) {
        Ok(b) => Some(b),
        Err(_) => None,
    }
}

/// Changes that can be applied to a video that shows `vt`, whatever else it holds:
/// those that leave what it shows alone, and one insertion at the front of a list, into
/// a list.
pub open spec fn applies_to_kind(c: VideoChangesV, vt: VideoTypeEnumV) -> bool {
    match c.video {
        None => true,
        Some(VideoTypeChangesV::List(lcs)) => vt is List && lcs.len() == 1 && (lcs[0] matches ListChangeV::Insert(i, _)
            && i == 0),
        _ => false,
    }
}

/// Changes that `applies_to_kind` admits can be applied.
pub proof fn lemma_applies_to_kind(v: VideoV, c: VideoChangesV)
    requires
        applies_to_kind(c, v.video.vt),
    ensures
        video_applied(VideoV { changes: c, ..v }) is Some,
{
    match c.video {
        Some(VideoTypeChangesV::List(lcs)) => {
            if let VideoTypeEnumV::List(vs) = v.video.vt {
                if let ListChangeV::Insert(i, x) = lcs[0] {
                    lemma_seq_weight_insert(vs, 0, x);
                    let vs2 = vs.insert(0, x);
                    assert(list_step(vs, lcs[0]) == Some(vs2));
                    reveal_with_fuel(list_applied, 2);
                    assert(list_applied(vs2, lcs, 1) == Some(vs2));
                    assert(list_applied(vs, lcs, 0) == Some(vs2));
                }
            }
        },
        _ => {},
    }
}

/// Whether the changes `c` can be applied to `part` by the rule of `applies_to_kind`.
fn changes_fit(c: &VideoChanges, part: &Video) -> (r: bool)
    ensures
        r == applies_to_kind(c@, part@.video.vt),
{
    match &c.video {
        None => true,
        Some(VideoTypeChanges::List(lcs)) => {
            proof { lemma_list_changes_view(lcs); }
            let is_list = match part.content() {
                VideoTypeEnum::List(_) => true,
                _ => false,
            };
            is_list && lcs.len() == 1 && match &lcs[0] {
                VideoTypeChanges_List::Insert(i, _) => *i == 0,
                _ => false,
            }
        },
        _ => false,
    }
}

/// Gives the changes `changes` to the video at place `index` of `vid`'s preorder and
/// applies them (see `apply_changes_to_part`) where they can be seen to apply (see
/// `applies_to_kind`): whether that changed something, or `None` where there is no
/// such video. Hands the changes back, leaving `vid` as it is, where they cannot.
pub fn apply_changes_checked(vid: &mut Video, index: u32, changes: VideoChanges) -> (r: Result<Option<bool>, VideoChanges>)
    ensures
        index >= preorder(old(vid)@).len() ==> (r matches Ok(None)) && final(vid)@ == old(vid)@,
        index < preorder(old(vid)@).len() && applies_to_kind(changes@, preorder(old(vid)@)[index as int].video.vt) ==> match video_applied(
            part_with_changes(old(vid)@, index as int, changes@),
        ) {
            Some((nv, ok)) => r == Ok::<Option<bool>, VideoChanges>(Some(ok)) && final(vid)@ == replaced_at(old(vid)@, index as int, nv),
            None => false,
        },
        index < preorder(old(vid)@).len() && !applies_to_kind(changes@, preorder(old(vid)@)[index as int].video.vt) ==> (r matches Err(
            c,
        ) && c@ == changes@) && final(vid)@ == old(vid)@,
{
    let mut i = index;
    let fits = match get_elem_from_index_recursive(&*vid, &mut i) {
        Some(part) => changes_fit(&changes, part),
        None => {
            return Ok(None);
        },
    };
    if !fits {
        return Err(changes);
    }
    proof {
        lemma_applies_to_kind(preorder(vid@)[index as int], changes@);
        assert(part_with_changes(vid@, index as int, changes@) == VideoV { changes: changes@, ..preorder(vid@)[index as int] });
    }
    Ok(apply_changes_to_part(vid, index, changes))
}

} // verus!
