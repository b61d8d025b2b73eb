use vstd::prelude::*;
use vstd::string::{StrSliceExecFns, StringExecFns};

verus! {

/// The opening body tag that a reply splice anchors on.
pub open spec fn body_open_tag() -> Seq<char> {
    seq!['<', 'b', 'o', 'd', 'y', '>']
}

/// Whether the opening body tag stands at position `i` of `s`.
pub open spec fn tag_at(s: Seq<char>, i: int) -> bool {
    0 <= i && i + 6 <= s.len() && s.subrange(i, i + 6) == body_open_tag()
}

/// The position of the first opening body tag of `s` at or after `i`, or -1
/// when there is none.
pub open spec fn first_tag_from(s: Seq<char>, i: int) -> int
    decreases s.len() - i,
{
    if i + 6 > s.len() {
        -1
    } else if tag_at(s, i) {
        i
    } else {
        first_tag_from(s, i + 1)
    }
}

/// The position of the first opening body tag of `s`, or -1 when `s` has
/// none.
pub open spec fn first_body_tag(s: Seq<char>) -> int {
    first_tag_from(s, 0)
}

/// `s` with `content` inserted immediately after the tag that opens at `i`:
/// everything up to and including the tag, then `content`, then all original
/// trailing content, preserved below the insertion point.
pub open spec fn spliced(s: Seq<char>, content: Seq<char>, i: int) -> Seq<char> {
    s.subrange(0, i + 6) + content + s.subrange(i + 6, s.len() as int)
}

fn tag_matches_at(s: &str, i: usize) -> (b: bool)
    requires
        i + 6 <= s@.len(),
        i + 6 <= usize::MAX,
    ensures
        b == tag_at(s@, i as int),
{
    let b = s.get_char(i) == '<' && s.get_char(i + 1) == 'b' && s.get_char(i + 2) == 'o'
        && s.get_char(i + 3) == 'd' && s.get_char(i + 4) == 'y' && s.get_char(i + 5) == '>';
    proof {
        if b {
            assert(s@.subrange(i as int, i as int + 6) =~= body_open_tag());
        } else if tag_at(s@, i as int) {
            assert(s@.subrange(i as int, i as int + 6)[0] == body_open_tag()[0]);
            assert(s@.subrange(i as int, i as int + 6)[1] == body_open_tag()[1]);
            assert(s@.subrange(i as int, i as int + 6)[2] == body_open_tag()[2]);
            assert(s@.subrange(i as int, i as int + 6)[3] == body_open_tag()[3]);
            assert(s@.subrange(i as int, i as int + 6)[4] == body_open_tag()[4]);
            assert(s@.subrange(i as int, i as int + 6)[5] == body_open_tag()[5]);
            assert(false);
        }
    }
    b
}

/// Insert `content` immediately after the first opening body tag of `draft`,
/// preserving all trailing content as quoted history below the insertion
/// point. Returns nothing exactly when `draft` holds no opening body tag.
pub fn splice_into_body(draft: &str, content: &str) -> (r: Option<String>)
    ensures
        match r {
            Some(out) => {
                &&& first_body_tag(draft@) >= 0
                &&& out@ == spliced(draft@, content@, first_body_tag(draft@))
            },
            None => first_body_tag(draft@) == -1,
        },
{
    let n = draft.unicode_len();
    if n < 6 {
        proof {
            assert(first_tag_from(draft@, 0) == -1);
        }
        return None;
    }
    let mut i: usize = 0;
    while i <= n - 6
        invariant
            n == draft@.len(),
            6 <= n,
            i <= n,
            first_tag_from(draft@, 0) == first_tag_from(draft@, i as int),
        decreases n - i,
    {
        if tag_matches_at(draft, i) {
            proof {
                assert(first_tag_from(draft@, i as int) == i as int);
            }
            let cut = i + 6;
            let prefix = draft.substring_char(0, cut);
            let suffix = draft.substring_char(cut, n);
            let mut out = prefix.to_owned();
            out.append(content);
            out.append(suffix);
            return Some(out);
        }
        proof {
            assert(first_tag_from(draft@, i as int) == first_tag_from(draft@, i as int + 1));
        }
        i = i + 1;
    }
    proof {
        assert(first_tag_from(draft@, i as int) == -1);
    }
    None
}

} // verus!
