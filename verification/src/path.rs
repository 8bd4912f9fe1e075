//! Sanitized relative paths.
//!
//! A [`RelativePath`] is the single gate through which every externally
//! supplied path string must pass before it reaches a filesystem call. It
//! wraps a string whose `'/'`-separated segments are all acceptable: no
//! segment is empty, `.` or `..`, which in particular rules out strings that
//! begin with the root separator.

use vstd::prelude::*;
use vstd::string::{StrSliceExecFns, StringExecFns};

verus! {

/// A path segment is acceptable when it is non-empty and is neither the
/// current-directory component `.` nor the parent-directory component `..`.
pub open spec fn seg_ok(seg: Seq<char>) -> bool {
    &&& seg.len() > 0
    &&& seg != seq!['.']
    &&& seg != seq!['.', '.']
}

/// Splits `s` on the `'/'` separator. Mirrors how `str::split` yields its
/// pieces: the result always holds at least one (possibly empty) segment, and
/// empty segments mark leading, trailing or doubled separators.
pub open spec fn split_path(s: Seq<char>) -> Seq<Seq<char>>
    decreases s.len(),
{
    if s.len() == 0 {
        seq![Seq::<char>::empty()]
    } else {
        let rest = split_path(s.drop_first());
        if s[0] == '/' {
            seq![Seq::<char>::empty()] + rest
        } else {
            seq![seq![s[0]] + rest[0]] + rest.drop_first()
        }
    }
}

/// Joins segments back together with the `'/'` separator; the inverse of
/// [`split_path`].
pub open spec fn join_segs(segs: Seq<Seq<char>>) -> Seq<char>
    decreases segs.len(),
{
    if segs.len() == 0 {
        Seq::<char>::empty()
    } else if segs.len() == 1 {
        segs[0]
    } else {
        segs[0] + seq!['/'] + join_segs(segs.drop_first())
    }
}

/// A raw string is a well-formed relative path exactly when every segment of
/// its `'/'`-split is acceptable.
pub open spec fn path_str_valid(s: Seq<char>) -> bool {
    forall|i: int| 0 <= i < split_path(s).len() ==> seg_ok(#[trigger] split_path(s)[i])
}

/// The absolute location of the relative path `rel` under the directory
/// `base`.
pub open spec fn resolved_under(base: Seq<char>, rel: Seq<char>) -> Seq<char> {
    base + seq!['/'] + rel
}

/// Splitting always yields at least one segment.
pub proof fn lemma_split_path_len(s: Seq<char>)
    ensures
        split_path(s).len() >= 1,
    decreases s.len(),
{
    if s.len() > 0 {
        lemma_split_path_len(s.drop_first());
    }
}

/// A string without separators is a single segment.
pub proof fn lemma_split_path_no_sep(s: Seq<char>)
    requires
        forall|i: int| 0 <= i < s.len() ==> s[i] != '/',
    ensures
        split_path(s) == seq![s],
    decreases s.len(),
{
    if s.len() == 0 {
        assert(split_path(s) =~~= seq![s]);
    } else {
        lemma_split_path_no_sep(s.drop_first());
        lemma_split_path_len(s.drop_first());
        assert(seq![s[0]] + s.drop_first() =~= s);
        assert(split_path(s) =~~= seq![s]);
    }
}

/// Splitting a string assembled from two halves around a separator yields the
/// concatenation of the halves' splits.
pub proof fn lemma_split_path_concat(a: Seq<char>, b: Seq<char>)
    ensures
        split_path(a + seq!['/'] + b) == split_path(a) + split_path(b),
    decreases a.len(),
{
    let s = a + seq!['/'] + b;
    if a.len() == 0 {
        assert(s.drop_first() =~= b);
        assert(split_path(s) =~~= split_path(a) + split_path(b));
    } else {
        lemma_split_path_concat(a.drop_first(), b);
        lemma_split_path_len(a.drop_first());
        assert(s.drop_first() =~= a.drop_first() + seq!['/'] + b);
        if a[0] == '/' {
            assert(split_path(s) =~~= split_path(a) + split_path(b));
        } else {
            let ra = split_path(a.drop_first());
            let rb = split_path(b);
            assert((ra + rb).drop_first() =~~= ra.drop_first() + rb);
            assert(split_path(s) =~~= split_path(a) + split_path(b));
        }
    }
}

/// Error of parsing a [`RelativePath`] from a [`String`].
#[derive(Clone, Copy, Debug, PartialEq, Eq, Structural)]
pub struct InvalidRelativePathError;

/// Filesystem path relative to a configured root folder.
///
/// # Format
///
/// The following components are forbidden:
/// - root (leading `/`)
/// - current directory (`.`)
/// - parent directory (`..`)
/// - empty component (`//`)
#[derive(Debug)]
pub struct RelativePath {
    repr: String,
}

impl Clone for RelativePath {
    fn clone(&self) -> (r: Self)
        ensures
            r@ == self@,
    {
        proof {
            use_type_invariant(&*self);
        }
        RelativePath { repr: self.repr.clone() }
    }
}

impl View for RelativePath {
    type V = Seq<char>;

    closed spec fn view(&self) -> Seq<char> {
        self.repr@
    }
}

impl RelativePath {
    /// The type's invariant: the wrapped string is always a well-formed
    /// relative path. Constructors establish it, so any holder of a
    /// [`RelativePath`] obtains `path_str_valid(p@)` from
    /// `use_type_invariant` — enough to apply [`lemma_resolution_confined`]
    /// or to conclude validity of a [`RelativePath::join`] result.
    #[verifier::type_invariant]
    pub open spec fn wf(self) -> bool {
        path_str_valid(self@)
    }

    /// The `'/'`-separated segments of this path.
    pub open spec fn segments(self) -> Seq<Seq<char>> {
        split_path(self@)
    }

    /// Parses the provided [`String`] into a [`RelativePath`]. Succeeds
    /// exactly when no `'/'`-separated segment of the string is empty, `.` or
    /// `..`; the accepted string is kept unchanged.
    pub fn try_from(s: String) -> (r: Result<Self, InvalidRelativePathError>)
        ensures
            r is Ok <==> path_str_valid(s@),
            r matches Ok(p) ==> p@ == s@,
    {
        let st = s.as_str();
        let n = st.unicode_len();
        let mut start: usize = 0;
        let mut j: usize = 0;
        let ghost mut done: Seq<Seq<char>> = Seq::empty();
        proof {
            assert(s@.subrange(0, n as int) =~= s@);
            assert(done + split_path(s@) =~~= split_path(s@));
        }
        while j < n
            invariant
                start <= j <= n,
                n == s@.len(),
                st@ == s@,
                forall|m: int| start <= m < j ==> s@[m] != '/',
                split_path(s@) == done + split_path(s@.subrange(start as int, n as int)),
                forall|k: int| 0 <= k < done.len() ==> seg_ok(#[trigger] done[k]),
            decreases n - j,
        {
            let c = st.get_char(j);
            if c == '/' {
                proof {
                    let seg = s@.subrange(start as int, j as int);
                    let restp = s@.subrange(j + 1, n as int);
                    assert(s@.subrange(start as int, n as int) =~= seg + seq!['/'] + restp);
                    lemma_split_path_concat(seg, restp);
                    assert forall|i: int| 0 <= i < seg.len() implies seg[i] != '/' by {
                        assert(seg[i] == s@[start + i]);
                    }
                    lemma_split_path_no_sep(seg);
                    lemma_split_path_len(restp);
                    assert(split_path(s@) == done + (seq![seg] + split_path(restp)));
                    assert(split_path(s@)[done.len() as int] == seg);
                }
                if seg_is_forbidden(st, start, j) {
                    return Err(InvalidRelativePathError);
                }
                proof {
                    let seg = s@.subrange(start as int, j as int);
                    let restp = s@.subrange(j + 1, n as int);
                    done = done.push(seg);
                    assert(done + split_path(restp) =~~= split_path(s@));
                }
                start = j + 1;
            }
            j += 1;
        }
        proof {
            let seg = s@.subrange(start as int, n as int);
            assert forall|i: int| 0 <= i < seg.len() implies seg[i] != '/' by {
                assert(seg[i] == s@[start + i]);
            }
            lemma_split_path_no_sep(seg);
            assert(split_path(s@) == done + seq![seg]);
            assert(split_path(s@)[done.len() as int] == seg);
        }
        if seg_is_forbidden(st, start, n) {
            return Err(InvalidRelativePathError);
        }
        proof {
            let seg = s@.subrange(start as int, n as int);
            done = done.push(seg);
            assert(split_path(s@) =~~= done);
            assert forall|i: int| 0 <= i < split_path(s@).len() implies seg_ok(
                #[trigger] split_path(s@)[i],
            ) by {
                assert(split_path(s@)[i] == done[i]);
            }
        }
        Ok(RelativePath { repr: s })
    }

    /// The raw relative-path string.
    pub fn as_str(&self) -> (r: &str)
        ensures
            r@ == self@,
    {
        self.repr.as_str()
    }

    /// Joins another [`RelativePath`] to this one. Both operands already
    /// satisfy the path invariant, so the concatenation does too and no
    /// re-validation is performed.
    #[must_use]
    pub fn join(self, other: RelativePath) -> (r: Self)
        ensures
            r@ == self@ + seq!['/'] + other@,
            r.segments() == self.segments() + other.segments(),
    {
        let ghost a0 = self@;
        let ghost b0 = other@;
        proof {
            use_type_invariant(&self);
            use_type_invariant(&other);
            lemma_split_path_concat(a0, b0);
        }
        let RelativePath { repr: mut a } = self;
        a.append("/");
        a.append(other.repr.as_str());
        proof {
            reveal_strlit("/");
            assert(("/")@ =~= seq!['/']);
            assert(a@ == a0 + seq!['/'] + b0);
            assert forall|i: int| 0 <= i < split_path(a@).len() implies seg_ok(
                #[trigger] split_path(a@)[i],
            ) by {
                if i < split_path(a0).len() {
                    assert(split_path(a@)[i] == split_path(a0)[i]);
                } else {
                    assert(split_path(a@)[i] == split_path(b0)[i - split_path(a0).len()]);
                }
            }
        }
        RelativePath { repr: a }
    }

    /// The path without its last segment, or `None` when there is only one
    /// segment.
    pub fn parent(&self) -> (r: Option<RelativePath>)
        ensures
            r is Some <==> self.segments().len() > 1,
            r matches Some(p) ==> p.segments() == self.segments().drop_last(),
            r matches Some(p) ==> self@ == p@ + seq!['/'] + self.segments().last(),
    {
        proof {
            use_type_invariant(&*self);
        }
        let st = self.repr.as_str();
        let n = st.unicode_len();
        let mut j: usize = n;
        while j > 0
            invariant
                j <= n,
                n == self@.len(),
                st@ == self@,
                forall|m: int| j <= m < n ==> self@[m] != '/',
            decreases j,
        {
            let c = st.get_char(j - 1);
            if c == '/' {
                let prefix = st.substring_char(0, j - 1);
                let p = String::from_str(prefix);
                proof {
                    use_type_invariant(&*self);
                    let pre = self@.subrange(0, j as int - 1);
                    let last = self@.subrange(j as int, n as int);
                    assert(p@ == pre);
                    assert(self@ =~= pre + seq!['/'] + last);
                    lemma_split_path_concat(pre, last);
                    assert forall|i: int| 0 <= i < last.len() implies last[i] != '/' by {
                        assert(last[i] == self@[j + i]);
                    }
                    lemma_split_path_no_sep(last);
                    lemma_split_path_len(pre);
                    assert(split_path(self@) == split_path(pre) + seq![last]);
                    assert(split_path(pre) =~~= split_path(self@).drop_last());
                    assert(split_path(self@).last() == last);
                    assert forall|i: int| 0 <= i < split_path(p@).len() implies seg_ok(
                        #[trigger] split_path(p@)[i],
                    ) by {
                        assert(path_str_valid(self@));
                        assert(split_path(p@) == split_path(pre));
                        assert(i < split_path(pre).len());
                        assert(split_path(self@)[i] == split_path(pre)[i]);
                        assert(seg_ok(split_path(self@)[i]));
                    }
                }
                return Some(RelativePath { repr: p });
            }
            j -= 1;
        }
        proof {
            lemma_split_path_no_sep(self@);
        }
        None
    }
}

fn seg_is_forbidden(s: &str, start: usize, end: usize) -> (r: bool)
    requires
        start <= end <= s@.len(),
    ensures
        r == !seg_ok(s@.subrange(start as int, end as int)),
{
    let ghost seg = s@.subrange(start as int, end as int);
    let len = end - start;
    if len == 0 {
        proof {
            assert(!seg_ok(seg));
        }
        true
    } else if len == 1 {
        let c = s.get_char(start);
        proof {
            assert(seg =~= seq![s@[start as int]]);
            assert(seq!['.', '.'].len() == 2);
            assert(seg != seq!['.', '.']);
            if c == '.' {
                assert(seg =~= seq!['.']);
            } else {
                assert(seg[0] != '.' && seq!['.'][0] == '.');
                assert(seg != seq!['.']);
            }
        }
        c == '.'
    } else if len == 2 {
        let c0 = s.get_char(start);
        let c1 = s.get_char(start + 1);
        proof {
            assert(seg =~= seq![s@[start as int], s@[start + 1]]);
            assert(seq!['.'].len() == 1);
            assert(seg != seq!['.']);
            if c0 == '.' && c1 == '.' {
                assert(seg =~= seq!['.', '.']);
            } else {
                assert(seq!['.', '.'][0] == '.' && seq!['.', '.'][1] == '.');
                assert(seg[0] == c0 && seg[1] == c1);
                assert(seg != seq!['.', '.']);
            }
        }
        c0 == '.' && c1 == '.'
    } else {
        proof {
            assert(seg.len() > 2);
            assert(seq!['.'].len() == 1 && seq!['.', '.'].len() == 2);
            assert(seg_ok(seg));
        }
        false
    }
}

/// Law: joining the segments of any raw string back together with the
/// separator reproduces that string exactly. Together with the parsing
/// contract — which returns the accepted string unchanged — this is the
/// round-trip guarantee of sanitization.
pub proof fn lemma_join_split_round_trip(s: Seq<char>)
    ensures
        join_segs(split_path(s)) == s,
    decreases s.len(),
{
    if s.len() == 0 {
        assert(join_segs(split_path(s)) =~= s);
    } else {
        lemma_join_split_round_trip(s.drop_first());
        lemma_split_path_len(s.drop_first());
        let rest = split_path(s.drop_first());
        if s[0] == '/' {
            assert(split_path(s)[0] =~= Seq::<char>::empty());
            assert(split_path(s).drop_first() =~~= rest);
            assert(split_path(s).len() == 1 + rest.len());
            assert(join_segs(split_path(s)) == split_path(s)[0] + seq!['/'] + join_segs(
                split_path(s).drop_first(),
            ));
            assert(join_segs(rest) == s.drop_first());
            assert(join_segs(split_path(s)) == Seq::<char>::empty() + seq!['/'] + join_segs(rest));
            assert(Seq::<char>::empty() + seq!['/'] + s.drop_first() =~= s);
            assert(join_segs(split_path(s)) == s);
        } else if rest.len() == 1 {
            assert(split_path(s) =~~= seq![seq![s[0]] + rest[0]]);
            assert(join_segs(split_path(s)) =~= s);
        } else {
            let j = join_segs(rest.drop_first());
            assert(split_path(s).drop_first() =~~= rest.drop_first());
            assert(split_path(s)[0] == seq![s[0]] + rest[0]);
            assert(split_path(s).len() == rest.len());
            assert(join_segs(rest) == rest[0] + seq!['/'] + j);
            assert(join_segs(split_path(s)) == (seq![s[0]] + rest[0]) + seq!['/'] + j);
            assert((seq![s[0]] + rest[0]) + seq!['/'] + j =~= seq![s[0]] + (rest[0] + seq!['/'] + j));
            assert(seq![s[0]] + s.drop_first() =~= s);
            assert(join_segs(split_path(s)) == s);
        }
    }
}

/// Law: a string that begins with the root separator is never accepted as a
/// relative path.
pub proof fn lemma_leading_separator_rejected(s: Seq<char>)
    requires
        s.len() > 0,
        s[0] == '/',
    ensures
        !path_str_valid(s),
{
    assert(split_path(s)[0] =~= Seq::<char>::empty());
    assert(!seg_ok(split_path(s)[0]));
}

/// Law: resolution confines a well-formed relative path to its base
/// directory. The resolved absolute path splits into exactly the base's
/// segments followed by the relative path's segments, and every added
/// segment is acceptable — in particular none is a parent-directory
/// component, so the resolved path can never climb out of the base.
pub proof fn lemma_resolution_confined(base: Seq<char>, rel: Seq<char>)
    requires
        path_str_valid(rel),
    ensures
        split_path(resolved_under(base, rel)) == split_path(base) + split_path(rel),
        forall|i: int|
            split_path(base).len() <= i < split_path(base).len() + split_path(rel).len()
                ==> seg_ok(#[trigger] split_path(resolved_under(base, rel))[i]),
{
    lemma_split_path_concat(base, rel);
    assert forall|i: int|
        split_path(base).len() <= i < split_path(base).len() + split_path(rel).len() implies seg_ok(
        #[trigger] split_path(resolved_under(base, rel))[i],
    ) by {
        assert(split_path(resolved_under(base, rel))[i] == split_path(rel)[i - split_path(
            base,
        ).len()]);
    }
}

/// Law: joining paths is associative with respect to resolution — resolving
/// `a.join(b).join(c)` and `a.join(b.join(c))` under any base directory
/// yields the same absolute path.
pub proof fn lemma_join_associative(base: Seq<char>, a: Seq<char>, b: Seq<char>, c: Seq<char>)
    ensures
        resolved_under(base, (a + seq!['/'] + b) + seq!['/'] + c)
            == resolved_under(base, a + seq!['/'] + (b + seq!['/'] + c)),
{
    assert(resolved_under(base, (a + seq!['/'] + b) + seq!['/'] + c)
        =~= resolved_under(base, a + seq!['/'] + (b + seq!['/'] + c)));
}

} // verus!
