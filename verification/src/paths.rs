use vstd::prelude::*;
use vstd::string::StrSliceExecFns;
use vstd::string::StringExecFns;

verus! {

/// Appends one path segment to a base path under Unix path-joining
/// rules: an absolute segment replaces the base; otherwise the segment
/// is appended, separated by `/` unless the base is empty or already
/// ends with one.
pub open spec fn spec_push_segment(base: Seq<char>, seg: Seq<char>) -> Seq<char> {
    if seg.len() > 0 && seg[0] == '/' {
        seg
    } else if base.len() == 0 {
        seg
    } else if base[base.len() - 1] == '/' {
        base + seg
    } else {
        base + "/"@ + seg
    }
}

/// The path obtained by pushing each segment onto `base`, left to right.
pub open spec fn spec_join_paths(base: Seq<char>, segs: Seq<Seq<char>>) -> Seq<char>
    decreases segs.len(),
{
    if segs.len() == 0 {
        base
    } else {
        spec_join_paths(spec_push_segment(base, segs[0]), segs.drop_first())
    }
}

/// Index just past the last `/` in `p`; 0 when `p` holds no `/`.
/// The file name of a path is the suffix that starts here.
pub open spec fn spec_name_start(p: Seq<char>) -> int
    decreases p.len(),
{
    if p.len() == 0 {
        0
    } else if p[p.len() - 1] == '/' {
        p.len() as int
    } else {
        spec_name_start(p.drop_last())
    }
}

/// The final component of a path: the characters after the last `/`
/// (empty when the path is empty or ends in a separator).
pub open spec fn spec_file_name(p: Seq<char>) -> Seq<char> {
    p.subrange(spec_name_start(p), p.len() as int)
}

/// Pushes one segment onto the path accumulated in `acc`.
fn push_segment(acc: &mut String, seg: &str)
    ensures
        final(acc)@ == spec_push_segment(old(acc)@, seg@),
{
    let seg_len = seg.unicode_len();
    if seg_len > 0 && seg.get_char(0) == '/' {
        *acc = seg.to_owned();
        return;
    }
    let n = acc.as_str().unicode_len();
    if n == 0 {
        *acc = seg.to_owned();
        return;
    }
    let last = acc.as_str().get_char(n - 1);
    if last != '/' {
        acc.append("/");
    }
    acc.append(seg);
}

/// Joins each segment onto the base path, left to right, under the
/// host separator convention; no existence check, never fails.
pub fn join_paths(base_path: &str, segments: &Vec<String>) -> (r: String)
    ensures
        r@ == spec_join_paths(base_path@, segments@.map_values(|s: String| s@)),
{
    let ghost segs: Seq<Seq<char>> = segments@.map_values(|s: String| s@);
    let mut acc: String = base_path.to_owned();
    proof {
        assert(segs.skip(0) =~= segs);
    }
    let mut i: usize = 0;
    while i < segments.len()
        invariant
            i <= segments.len(),
            segs == segments@.map_values(|s: String| s@),
            spec_join_paths(acc@, segs.skip(i as int)) == spec_join_paths(base_path@, segs),
        decreases segments.len() - i,
    {
        let ghost acc_before: Seq<char> = acc@;
        let seg: &String = &segments[i];
        push_segment(&mut acc, seg.as_str());
        proof {
            assert(segs[i as int] == seg@);
            assert(segs.skip(i as int)[0] == segs[i as int]);
            assert(segs.skip(i as int).drop_first() =~= segs.skip(i as int + 1));
            assert(spec_join_paths(acc_before, segs.skip(i as int)) == spec_join_paths(
                acc@,
                segs.skip(i as int + 1),
            ));
        }
        i += 1;
    }
    proof {
        assert(segs.skip(segments@.len() as int) =~= Seq::<Seq<char>>::empty());
    }
    acc
}

/// The final component of `path`: everything after the last `/`.
/// Empty for an empty path or one that ends in a separator.
pub fn file_name_of(path: &str) -> (r: String)
    ensures
        r@ == spec_file_name(path@),
{
    let n = path.unicode_len();
    let mut cut: usize = 0;
    let mut i: usize = 0;
    proof {
        assert(path@.take(0) =~= Seq::<char>::empty());
    }
    while i < n
        invariant
            i <= n,
            n == path@.len(),
            cut <= i,
            cut as int == spec_name_start(path@.take(i as int)),
        decreases n - i,
    {
        let c = path.get_char(i);
        proof {
            assert(path@.take(i as int + 1).drop_last() =~= path@.take(i as int));
            assert(path@.take(i as int + 1).last() == path@[i as int]);
        }
        if c == '/' {
            cut = i + 1;
        }
        i += 1;
    }
    proof {
        assert(path@.take(n as int) =~= path@);
    }
    let name = path.substring_char(cut, n);
    name.to_owned()
}

} // verus!
