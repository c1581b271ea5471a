//! Paths, kept as their text. The project's paths are Unix paths: `/` separates
//! components and a path that starts with `/` is absolute.

use vstd::prelude::*;
use crate::strings::chars_of;

verus! {

/// The path `base` with `part` added as `PathBuf::push` does on Unix: an absolute
/// `part` replaces `base`; otherwise a `/` goes between them unless `base` is empty or
/// already ends in one.
pub open spec fn pushed(base: Seq<char>, part: Seq<char>) -> Seq<char> {
    if part.len() > 0 && part[0] == '/' {
        part
    } else if base.len() == 0 || base.last() == '/' {
        base + part
    } else {
        base.push('/') + part
    }
}

/// Adds `part` to the path `base`.
pub fn push_path(base: &mut String, part: &str)
    ensures
        final(base)@ == pushed(old(base)@, part@),
{
    let cs = chars_of(part);
    let bs = chars_of(base.as_str());
    if cs.len() > 0 && cs[0] == '/' {
        *base = part.to_string();
        return;
    }
    if !(bs.len() == 0 || bs[bs.len() - 1] == '/') {
        base.push('/');
    }
    let ghost start = base@;
    let mut i: usize = 0;
    while i < cs.len()
        invariant
            i <= cs.len(),
            cs@ == part@,
            base@ == start + cs@.take(i as int),
        decreases cs.len() - i,
    {
        base.push(cs[i]);
        assert(cs@.take(i as int).push(cs@[i as int]) =~= cs@.take(i + 1));
        i = i + 1;
    }
    assert(cs@.take(cs.len() as int) =~= cs@);
}

} // verus!
