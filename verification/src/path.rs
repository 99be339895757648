use vstd::prelude::*;

use crate::filters::{filter_step, RejectionKind, warp_and, warp_path_end, warp_path_segment, UnitFilter};

verus! {

/// Index of the first `'/'` in `s`, or `s.len()` when there is none.
pub open spec fn first_slash(s: Seq<char>) -> nat
    decreases s.len(),
{
    if s.len() == 0 || s[0] == '/' {
        0
    } else {
        1 + first_slash(s.drop_first())
    }
}

/// `s` holds no `'/'`.
pub open spec fn slash_free(s: Seq<char>) -> bool {
    forall|j: int| 0 <= j < s.len() ==> s[j] != '/'
}

/// The segments of a `'/'`-separated path: its maximal non-empty runs of
/// characters other than `'/'`, in order.  Leading, trailing and repeated
/// slashes contribute nothing.
pub open spec fn segments(s: Seq<char>) -> Seq<Seq<char>>
    decreases s.len(),
{
    if s.len() == 0 {
        seq![]
    } else if s[0] == '/' {
        segments(s.drop_first())
    } else {
        let k = first_slash(s);
        proof {
            lemma_first_slash_bounds(s);
        }
        seq![s.take(k as int)] + segments(s.skip(k as int))
    }
}

pub proof fn lemma_first_slash_bounds(s: Seq<char>)
    ensures
        first_slash(s) <= s.len(),
        s.len() > 0 && s[0] != '/' ==> first_slash(s) > 0,
        first_slash(s) < s.len() ==> s[first_slash(s) as int] == '/',
        forall|j: int| 0 <= j < first_slash(s) ==> s[j] != '/',
    decreases s.len(),
{
    if s.len() > 0 && s[0] != '/' {
        lemma_first_slash_bounds(s.drop_first());
        assert forall|j: int| 0 <= j < first_slash(s) implies s[j] != '/' by {
            if j > 0 {
                assert(s[j] == s.drop_first()[j - 1]);
            }
        }
    }
}


/// `first_slash` of a concatenation: the first slash of `s` if it has one,
/// otherwise the first slash of `t` shifted past `s`.
pub proof fn lemma_first_slash_concat(s: Seq<char>, t: Seq<char>)
    ensures
        first_slash(s + t) == if first_slash(s) < s.len() {
            first_slash(s)
        } else {
            s.len() + first_slash(t)
        },
    decreases s.len(),
{
    lemma_first_slash_bounds(s);
    if s.len() == 0 {
        assert(s + t =~= t);
    } else if s[0] == '/' {
    } else {
        lemma_first_slash_concat(s.drop_first(), t);
        assert((s + t).drop_first() =~= s.drop_first() + t);
    }
}

/// A slash splits a path: the segments of `a + "/" + b` are those of `a`
/// followed by those of `b`.
pub proof fn lemma_segments_split(a: Seq<char>, b: Seq<char>)
    ensures
        segments(a + seq!['/'] + b) == segments(a) + segments(b),
    decreases a.len(),
{
    let s = a + seq!['/'] + b;
    lemma_first_slash_bounds(a);
    if a.len() == 0 {
        assert(s.drop_first() =~= b);
        assert(segments(a) =~= Seq::<Seq<char>>::empty());
        assert(segments(a) + segments(b) =~= segments(b));
    } else if a[0] == '/' {
        assert(s.drop_first() =~= a.drop_first() + seq!['/'] + b);
        lemma_segments_split(a.drop_first(), b);
    } else {
        let k = first_slash(a);
        lemma_first_slash_concat(a, seq!['/'] + b);
        assert(s =~= a + (seq!['/'] + b));
        if k < a.len() {
            assert(s.take(k as int) =~= a.take(k as int));
            assert(s.skip(k as int) =~= a.skip(k as int) + seq!['/'] + b);
            lemma_segments_split(a.skip(k as int), b);
            assert(segments(s) =~= segments(a) + segments(b));
        } else {
            // `a` holds no slash, so it is one segment, ended by the slash.
            let rest = seq!['/'] + b;
            assert(rest[0] == '/');
            assert(rest.drop_first() =~= b);
            assert(first_slash(rest) == 0);
            assert(s[0] == a[0]);
            assert(s.take(k as int) =~= a);
            assert(s.skip(k as int) =~= rest);
            assert(segments(rest) == segments(b));
            assert(first_slash(s) == k);
            lemma_segments_slash_free(a);
            assert(segments(s) =~= seq![a] + segments(b));
        }
    }
}

/// A path without slashes is a single segment, or none when it is empty.
pub proof fn lemma_segments_slash_free(s: Seq<char>)
    requires
        slash_free(s),
    ensures
        segments(s) == if s.len() == 0 {
            Seq::<Seq<char>>::empty()
        } else {
            seq![s]
        },
{
    if s.len() > 0 {
        lemma_first_slash_concat(s, Seq::<char>::empty());
        assert(s + Seq::<char>::empty() =~= s);
        lemma_first_slash_bounds(s);
        if first_slash(s) < s.len() {
            assert(s[first_slash(s) as int] != '/');
        }
        assert(segments(Seq::<char>::empty()) =~= Seq::<Seq<char>>::empty());
        assert(s.take(s.len() as int) =~= s);
        assert(s.skip(s.len() as int) =~= Seq::<char>::empty());
    }
}


/// The characters of each string, in order.
pub open spec fn strings_view(v: Seq<String>) -> Seq<Seq<char>> {
    v.map_values(|x: String| x@)
}

/// `String::push`: appends one character at the end.
#[verifier::external_body]
fn push_char(s: &mut String, c: char)
    ensures
        final(s)@ == old(s)@.push(c),
{
    s.push(c);
}

/// Splits `path` into its segments (see [`segments`]): the pieces between
/// slashes, with empty pieces dropped.
pub fn path_segments(path: &str) -> (segs: Vec<String>)
    ensures
        strings_view(segs@) == segments(path@),
{
    let ghost s = path@;
    let mut out: Vec<String> = Vec::new();
    let mut cur = String::new();
    let mut cur_empty = true;
    let ghost mut pos: int = 0;
    proof {
        assert(cur@ + s.skip(0) =~= s);
        assert(strings_view(out@) =~= Seq::<Seq<char>>::empty());
        assert(strings_view(out@) + segments(s) =~= segments(s));
    }
    for c in it: path.chars()
        invariant
            it.seq() == s,
            pos == it.index(),
            0 <= pos <= s.len(),
            slash_free(cur@),
            cur_empty == (cur@.len() == 0),
            segments(s) == strings_view(out@) + segments(cur@ + s.skip(pos)),
    {
        assert(c == s[pos]);
        assert(s.skip(pos) =~= seq![c] + s.skip(pos + 1));
        if c == '/' {
            if !cur_empty {
                proof {
                    lemma_segments_split(cur@, s.skip(pos + 1));
                    lemma_segments_slash_free(cur@);
                    assert(cur@ + s.skip(pos) =~= cur@ + seq!['/'] + s.skip(pos + 1));
                }
                let ghost old_out = out@;
                let done = cur;
                out.push(done);
                cur = String::new();
                cur_empty = true;
                proof {
                    assert(strings_view(out@) =~= strings_view(old_out) + seq![done@]);
                    assert(cur@ + s.skip(pos + 1) =~= s.skip(pos + 1));
                    assert(segments(done@ + seq!['/'] + s.skip(pos + 1)) == seq![done@] + segments(
                        s.skip(pos + 1),
                    ));
                }
            } else {
                proof {
                    assert(cur@ + s.skip(pos) =~= s.skip(pos));
                    assert(s.skip(pos)[0] == '/');
                    assert(s.skip(pos).drop_first() =~= s.skip(pos + 1));
                    assert(cur@ + s.skip(pos + 1) =~= s.skip(pos + 1));
                }
            }
        } else {
            let ghost old_cur = cur@;
            push_char(&mut cur, c);
            cur_empty = false;
            proof {
                assert(cur@ + s.skip(pos + 1) =~= old_cur + s.skip(pos));
            }
        }
        proof {
            pos = pos + 1;
        }
    }
    proof {
        assert(cur@ + s.skip(pos) =~= cur@);
        lemma_segments_slash_free(cur@);
    }
    if !cur_empty {
        let ghost old_out = out@;
        let done = cur;
        out.push(done);
        proof {
            assert(strings_view(out@) =~= strings_view(old_out) + seq![done@]);
        }
    } else {
        proof {
            assert(strings_view(out@) + segments(cur@) =~= strings_view(out@));
        }
    }
    out
}


/// What a run of exact-segment checks for `prefix` does to the unconsumed
/// segments `req`: `Ok` of `req` with `prefix` taken off its front, when it
/// starts with them; a not-found rejection otherwise.
pub open spec fn strip_segments(prefix: Seq<Seq<char>>, req: Seq<Seq<char>>) -> Result<
    Seq<Seq<char>>,
    RejectionKind,
> {
    if prefix.len() <= req.len() && req.take(prefix.len() as int) == prefix {
        Ok(req.skip(prefix.len() as int))
    } else {
        Err(RejectionKind::NotFound)
    }
}

/// The filter that matches exactly the path `path`: one exact-segment check
/// per segment of `path`, in order, then a check that nothing is left.  A
/// path with no segments (`""`, `"/"`, ...) matches only the root.  It
/// accepts a request, whatever its method, exactly when the request's
/// unconsumed path segments are the segments of `path`, and consumes them
/// all; it rejects every other request as not found.
pub fn path_filter(path: &str) -> (r: UnitFilter)
    ensures
        forall|m: Seq<char>, p: Seq<Seq<char>>| #[trigger]
            filter_step(r, m, p) == (if p == segments(path@) {
                Ok(Seq::<Seq<char>>::empty())
            } else {
                Err(RejectionKind::NotFound)
            }),
{
    let ghost want = segments(path@);
    let segs = path_segments(path);
    let n = segs.len();
    if n == 0 {
        let e = warp_path_end();
        proof {
            assert(want.len() == 0);
            assert forall|m: Seq<char>, p: Seq<Seq<char>>| #[trigger]
                filter_step(e, m, p) == (if p == want {
                    Ok(Seq::<Seq<char>>::empty())
                } else {
                    Err(RejectionKind::NotFound)
                }) by {
                if p.len() == 0 {
                    assert(p =~= want);
                    assert(p =~= Seq::<Seq<char>>::empty());
                } else {
                    assert(p != want);
                }
            }
        }
        return e;
    }
    proof {
        lemma_segments_well_formed(path@);
        assert(segs@[0]@ == want[0]);
    }
    let mut f = warp_path_segment(segs[0].as_str());
    proof {
        assert forall|m: Seq<char>, p: Seq<Seq<char>>| #[trigger]
            filter_step(f, m, p) == strip_segments(want.take(1), p) by {
            if p.len() > 0 && p[0] == want[0] {
                assert(p.take(1) =~= want.take(1));
            } else if 1 <= p.len() {
                assert(p.take(1)[0] == p[0]);
                assert(want.take(1)[0] == want[0]);
            }
        }
    }
    let mut i: usize = 1;
    while i < n
        invariant
            1 <= i <= n,
            n == segs.len(),
            want == segments(path@),
            strings_view(segs@) == want,
            forall|j: int|
                0 <= j < want.len() ==> #[trigger] want[j].len() > 0 && slash_free(want[j]),
            forall|m: Seq<char>, p: Seq<Seq<char>>| #[trigger]
                filter_step(f, m, p) == strip_segments(want.take(i as int), p),
        decreases n - i,
    {
        assert(segs@[i as int]@ == want[i as int]);
        let g = warp_path_segment(segs[i].as_str());
        let ghost prev = f;
        f = warp_and(f, g);
        proof {
            assert forall|m: Seq<char>, p: Seq<Seq<char>>| #[trigger]
                filter_step(f, m, p) == strip_segments(want.take(i + 1), p) by {
                let a = want.take(i as int);
                let b = want.take(i + 1);
                assert(filter_step(prev, m, p) == strip_segments(a, p));
                match strip_segments(a, p) {
                    Ok(rest) => {
                        assert(p.take(i as int) =~= a);
                        if rest.len() > 0 && rest[0] == want[i as int] {
                            assert(p.take(i + 1) =~= b) by {
                                assert forall|k: int| 0 <= k < i + 1 implies p.take(i + 1)[k]
                                    == b[k] by {
                                    if k < i {
                                        assert(p.take(i as int)[k] == a[k]);
                                    } else {
                                        assert(rest[0] == p[i as int]);
                                    }
                                }
                            }
                            assert(rest.drop_first() =~= p.skip(i + 1));
                        } else {
                            if b.len() <= p.len() && p.take(i + 1) == b {
                                assert(p.take(i + 1)[i as int] == b[i as int]);
                                assert(rest[0] == p[i as int]);
                            }
                        }
                    },
                    Err(_) => {
                        if b.len() <= p.len() && p.take(i + 1) == b {
                            assert(p.take(i as int) =~= a) by {
                                assert forall|k: int| 0 <= k < i implies p.take(i as int)[k]
                                    == a[k] by {
                                    assert(p.take(i + 1)[k] == b[k]);
                                }
                            }
                        }
                    },
                }
            }
        }
        i = i + 1;
    }
    let e = warp_path_end();
    let r = warp_and(f, e);
    proof {
        assert(want.take(n as int) =~= want);
        assert forall|m: Seq<char>, p: Seq<Seq<char>>| #[trigger]
            filter_step(r, m, p) == (if p == want {
                Ok(Seq::<Seq<char>>::empty())
            } else {
                Err(RejectionKind::NotFound)
            }) by {
            assert(filter_step(f, m, p) == strip_segments(want, p));
            if p == want {
                assert(p.take(n as int) =~= want);
                assert(p.skip(n as int) =~= Seq::<Seq<char>>::empty());
            } else {
                match strip_segments(want, p) {
                    Ok(rest) => {
                        if rest.len() == 0 {
                            assert(p =~= p.take(n as int) + p.skip(n as int));
                            assert(p =~= want);
                        }
                    },
                    Err(_) => {},
                }
            }
        }
    }
    r
}

/// Every segment of a path is non-empty and holds no `'/'`.
pub proof fn lemma_segments_well_formed(s: Seq<char>)
    ensures
        forall|j: int|
            0 <= j < segments(s).len() ==> #[trigger] segments(s)[j].len() > 0 && slash_free(
                segments(s)[j],
            ),
    decreases s.len(),
{
    if s.len() == 0 {
    } else if s[0] == '/' {
        lemma_segments_well_formed(s.drop_first());
        assert(segments(s) == segments(s.drop_first()));
    } else {
        let k = first_slash(s);
        lemma_first_slash_bounds(s);
        lemma_segments_well_formed(s.skip(k as int));
        let head = s.take(k as int);
        let tail = segments(s.skip(k as int));
        assert forall|j: int| 0 <= j < segments(s).len() implies #[trigger] segments(s)[j].len()
            > 0 && slash_free(segments(s)[j]) by {
            if j == 0 {
                assert(segments(s)[0] == head);
                assert forall|i: int| 0 <= i < head.len() implies head[i] != '/' by {
                    assert(head[i] == s[i]);
                }
            } else {
                assert(segments(s)[j] == tail[j - 1]);
            }
        }
    }
}

/// The path made of `parts` joined by single slashes, with no slash at
/// either end.
pub open spec fn join_segments(parts: Seq<Seq<char>>) -> Seq<char>
    decreases parts.len(),
{
    if parts.len() == 0 {
        seq![]
    } else if parts.len() == 1 {
        parts[0]
    } else {
        parts[0] + seq!['/'] + join_segments(parts.drop_first())
    }
}

/// Joining non-empty, slash-free segments with `'/'` and splitting the
/// result again gives the same segments back.
pub proof fn law_segments_of_join(parts: Seq<Seq<char>>)
    requires
        forall|j: int| 0 <= j < parts.len() ==> #[trigger] parts[j].len() > 0 && slash_free(parts[j]),
    ensures
        segments(join_segments(parts)) == parts,
    decreases parts.len(),
{
    if parts.len() == 0 {
        assert(segments(join_segments(parts)) =~= parts);
    } else if parts.len() == 1 {
        lemma_segments_slash_free(parts[0]);
        assert(seq![parts[0]] =~= parts);
    } else {
        let rest = parts.drop_first();
        assert forall|j: int| 0 <= j < rest.len() implies #[trigger] rest[j].len() > 0 && slash_free(
            rest[j],
        ) by {
            assert(rest[j] == parts[j + 1]);
        }
        law_segments_of_join(rest);
        lemma_segments_split(parts[0], join_segments(rest));
        lemma_segments_slash_free(parts[0]);
        assert(seq![parts[0]] + rest =~= parts);
    }
}

/// Splitting is a normal form: re-joining the segments of a path and
/// splitting again changes nothing.  So `"a//b/"`, `"/a/b"` and `"a/b"` all
/// give the same route.
pub proof fn law_segments_normal_form(s: Seq<char>)
    ensures
        segments(join_segments(segments(s))) == segments(s),
{
    lemma_segments_well_formed(s);
    law_segments_of_join(segments(s));
}

}
