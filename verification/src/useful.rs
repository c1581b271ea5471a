//! Small helpers: values that may be borrowed, keys read as actions, and finding a
//! video in the tree by its number.

use vstd::prelude::*;
use crate::video::{Video, VideoV, VideoTypeEnumV, preorder, preorder_all, children_v, lemma_preorder_children, with_child};
use crate::tree_edit::{replaced_at, child_place, lemma_replaced_all_child, lemma_place_in_child, lemma_replaced_by_itself};

verus! {

/// A value that is either owned or borrowed.
pub enum MightBeRef<'a, T> {
    Owned(T),
    Ref(&'a T),
}

impl<'a, T> MightBeRef<'a, T> {
    /// The value, however it is held.
    pub fn get_ref(&self) -> (r: &T)
        ensures
            *r == match *self {
                MightBeRef::Owned(d) => d,
                MightBeRef::Ref(d) => *d,
            },
    {
        match self {
            MightBeRef::Owned(d) => d,
            MightBeRef::Ref(d) => d,
        }
    }
}

/// A typed character, or the action that a control character stands for.
#[derive(Clone, Copy, PartialEq, Eq, Structural, Debug)]
pub enum CharOrAction {
    Char(char),
    Enter,
    Backspace,
    Delete,
    Tab,
    Ignored,
    Esc,
}

/// The action that the character `ch` stands for: newline and carriage return are
/// Enter, backspace (0x08) is Backspace, delete (0x7F) is Delete, tab is Tab, escape
/// (0x1B) is Esc; any other character is typed as it is.
pub open spec fn char_action(ch: char) -> CharOrAction {
    if ch == '\n' || ch == '\r' {
        CharOrAction::Enter
    } else if ch == '\x08' {
        CharOrAction::Backspace
    } else if ch == '\x7F' {
        CharOrAction::Delete
    } else if ch == '\t' {
        CharOrAction::Tab
    } else if ch == '\u{1b}' {
        CharOrAction::Esc
    } else {
        CharOrAction::Char(ch)
    }
}

impl<'a> From<&'a char> for CharOrAction {
    fn from(ch: &'a char) -> (r: CharOrAction) {
        match *ch {
            '\n' | '\r' => CharOrAction::Enter,
            '\x08' => CharOrAction::Backspace,
            '\x7F' => CharOrAction::Delete,
            '\t' => CharOrAction::Tab,
            '\u{1b}' => CharOrAction::Esc,
            c => CharOrAction::Char(c),
        }
    }
}

impl<'a> vstd::std_specs::convert::FromSpecImpl<&'a char> for CharOrAction {
    open spec fn obeys_from_spec() -> bool {
        true
    }

    open spec fn from_spec(ch: &'a char) -> CharOrAction {
        char_action(*ch)
    }
}

/// The first `m` videos' preorders begin the first `n` videos' preorders.
pub proof fn lemma_preorder_all_prefix(vs: Seq<VideoV>, m: int, n: int)
    requires
        0 <= m <= n <= vs.len(),
    ensures
        preorder_all(vs, m).len() <= preorder_all(vs, n).len(),
        forall|x: int| 0 <= x < preorder_all(vs, m).len() ==> preorder_all(vs, n)[x] == preorder_all(vs, m)[x],
    decreases n - m,
{
    if m < n {
        lemma_preorder_all_prefix(vs, m, n - 1);
    }
}

/// The video that comes `index` places after `vid` when the tree below `vid` is
/// walked in preorder (`vid` itself at 0); `index` is counted down as the walk
/// goes. When there is none, `None`, and `index` is less by the number of videos
/// below `vid`.
pub fn get_elem_from_index_recursive<'a>(vid: &'a Video, index: &mut u32) -> (r: Option<&'a Video>)
    ensures
        *old(index) < preorder(vid@).len() ==> r is Some && r->0@ == preorder(vid@)[*old(index) as int] && *final(index) == 0,
        *old(index) >= preorder(vid@).len() ==> r is None && *final(index) == *old(index) - (preorder(vid@).len() - 1),
    decreases preorder(vid@).len(),
{
    if *index == 0 {
        return Some(vid);
    }
    let children = vid.children();
    let ghost ch = children_v(vid@);
    let ghost n = ch.len() as int;
    let ghost k0 = *index as int;
    proof {
        lemma_preorder_children(vid@);
    }
    let mut i: usize = 0;
    while i < children.len()
        invariant
            0 <= i <= n,
            n == children@.len(),
            n == ch.len(),
            forall|j: int| 0 <= j < n ==> (#[trigger] children@[j])@ == ch[j],
            preorder(vid@) == seq![vid@] + preorder_all(ch, n),
            k0 >= 1,
            k0 - 1 >= preorder_all(ch, i as int).len(),
            *index == k0 - preorder_all(ch, i as int).len(),
            k0 == *old(index),
        decreases n - i,
    {
        *index = *index - 1;
        let ghost before = *index as int;
        proof {
            lemma_preorder_all_prefix(ch, i as int + 1, n);
            assert(preorder_all(ch, i as int + 1) == preorder_all(ch, i as int) + preorder(ch[i as int]));
        }
        match get_elem_from_index_recursive(children[i], index) {
            Some(v) => {
                proof {
                    let p = preorder_all(ch, i as int);
                    let q = preorder_all(ch, i as int + 1);
                    assert(q[p.len() + before] == preorder(ch[i as int])[before]);
                    assert(preorder_all(ch, n)[k0 - 1] == q[k0 - 1]);
                    assert(preorder(vid@)[k0] == preorder_all(ch, n)[k0 - 1]);
                }
                return Some(v);
            },
            None => {},
        }
        i = i + 1;
    }
    proof {
        assert(preorder(vid@).len() == 1 + preorder_all(ch, n).len());
    }
    None
}

/// Which child of `vid` holds place `index` (at least 1) of `vid`'s preorder, and the
/// place in that child's preorder (see `child_place`); `None` where the preorder is
/// shorter.
fn locate_child(vid: &Video, index: u32) -> (r: Option<(usize, u32)>)
    requires
        index >= 1,
    ensures
        index < preorder(vid@).len() ==> (r matches Some((k, j)) && (k as int, j as int) == child_place(
            children_v(vid@),
            0,
            index - 1,
        ) && k < children_v(vid@).len()),
        index >= preorder(vid@).len() ==> r is None,
{
    let children = vid.children();
    let ghost ch = children_v(vid@);
    let ghost n = ch.len() as int;
    proof {
        lemma_preorder_children(vid@);
    }
    let mut rem: u32 = index - 1;
    let mut k: usize = 0;
    while k < children.len()
        invariant
            0 <= k <= n,
            n == children@.len(),
            n == ch.len(),
            ch == children_v(vid@),
            forall|j: int| 0 <= j < n ==> (#[trigger] children@[j])@ == ch[j],
            preorder(vid@) == seq![vid@] + preorder_all(ch, n),
            index - 1 >= preorder_all(ch, k as int).len(),
            rem == index - 1 - preorder_all(ch, k as int).len(),
            child_place(ch, 0, index - 1) == child_place(ch, k as int, rem as int),
        decreases n - k,
    {
        let mut t = rem;
        proof {
            lemma_preorder_all_prefix(ch, k as int + 1, n);
            assert(preorder_all(ch, k as int + 1) == preorder_all(ch, k as int) + preorder(ch[k as int]));
        }
        match get_elem_from_index_recursive(children[k], &mut t) {
            Some(_) => {
                assert(rem < preorder(ch[k as int]).len());
                assert(child_place(ch, k as int, rem as int) == (k as int, rem as int));
                return Some((k, rem));
            },
            None => {
                rem = t - 1;
            },
        }
        k = k + 1;
    }
    None
}

/// Replacing the video at place `i` of `v`'s preorder replaces it inside the child
/// that holds that place.
proof fn lemma_replaced_in_child(v: VideoV, i: int, k: int, j: int)
    requires
        1 <= i < preorder(v).len(),
        (k, j) == child_place(children_v(v), 0, i - 1),
    ensures
        forall|x: VideoV| #[trigger] replaced_at(v, i, x) == with_child(v, k, replaced_at(children_v(v)[k], j, x)),
{
    lemma_preorder_children(v);
    let ch = children_v(v);
    assert forall|x: VideoV| #[trigger] replaced_at(v, i, x) == with_child(v, k, replaced_at(children_v(v)[k], j, x)) by {
        let _ = lemma_replaced_all_child(ch, 0, i - 1, x);
        match v.video.vt {
            VideoTypeEnumV::AspectRatio(c, _, _) => {
                assert(preorder(v) == seq![v] + preorder(*c));
            },
            VideoTypeEnumV::WithEffect(c, _) => {
                assert(preorder(v) == seq![v] + preorder(*c));
            },
            _ => {},
        }
    }
}

/// Like `get_elem_from_index_recursive`, but the video found can be changed: changing
/// it changes `vid` at that place of its preorder.
pub fn get_elem_from_index_recursive_mut<'a>(vid: &'a mut Video, index: &mut u32) -> (r: Option<&'a mut Video>)
    ensures
        *old(index) < preorder(old(vid)@).len() ==> r is Some && (*r.unwrap())@ == preorder(old(vid)@)[*old(index) as int]
            && *final(index) == 0 && final(vid)@ == replaced_at(old(vid)@, *old(index) as int, (*final(r.unwrap()))@),
        *old(index) < preorder(old(vid)@).len() && (*final(r.unwrap()))@ == (*r.unwrap())@ ==> final(vid)@ == old(vid)@,
        *old(index) >= preorder(old(vid)@).len() ==> r is None && final(vid)@ == old(vid)@ && *final(index) == *old(index) - (
        preorder(old(vid)@).len() - 1),
    decreases preorder(old(vid)@).len(),
{
    if *index == 0 {
        return Some(vid);
    }
    let ghost v0 = vid@;
    let ghost i0 = *index as int;
    let ghost ch = children_v(v0);
    proof {
        lemma_preorder_children(v0);
        if i0 < preorder(v0).len() {
            lemma_replaced_by_itself(v0, i0);
        }
    }
    match locate_child(&*vid, *index) {
        None => {
            let mut t = *index;
            let _ = get_elem_from_index_recursive(&*vid, &mut t);
            *index = t;
            None
        },
        Some((k, j)) => {
            proof {
                let (k2, j2) = lemma_replaced_all_child(ch, 0, i0 - 1, v0);
                lemma_place_in_child(v0, ch, k as int, i0);
                lemma_preorder_all_prefix(ch, k as int + 1, ch.len() as int);
                assert(preorder_all(ch, k as int + 1) == preorder_all(ch, k as int) + preorder(ch[k as int]));
                lemma_replaced_in_child(v0, i0, k as int, j as int);
            }
            *index = j;
            let child = vid.child_mut(k);
            get_elem_from_index_recursive_mut(child, index)
        },
    }
}

} // verus!
