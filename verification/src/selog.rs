//! Extracting fields from service log lines.
//!
//! A lint-service log line carries a date token, a time token, and
//! somewhere a `dur:<value>` token. The extraction here works on the
//! line's bytes: tokens are maximal runs separated by ASCII whitespace,
//! and the duration is what stands between the token's first colon and
//! its second (or its end). ASCII whitespace is a deliberate choice:
//! the log format emits only spaces and tabs between fields, and over
//! bytes it keeps every multi-byte character — including the exotic
//! Unicode spaces — inside its token rather than splitting it. Turning
//! the value into a number, and the date and time into a calendar type,
//! is left to the caller.

use vstd::prelude::*;

verus! {

/// ASCII whitespace, the separators of a log line.
pub open spec fn spec_is_space(b: u8) -> bool {
    b == 0x20 || b == 0x09 || b == 0x0a || b == 0x0d || b == 0x0b || b == 0x0c
}

fn is_space(b: u8) -> (r: bool)
    ensures
        r == spec_is_space(b),
{
    b == 0x20 || b == 0x09 || b == 0x0a || b == 0x0d || b == 0x0b || b == 0x0c
}

/// The whitespace-separated tokens of `s`, given the tokens already
/// finished (`acc`) and the partial token being read (`cur`).
pub open spec fn spec_tokens_acc(s: Seq<u8>, acc: Seq<Seq<u8>>, cur: Seq<u8>) -> Seq<Seq<u8>>
    decreases s.len(),
{
    if s.len() == 0 {
        if cur.len() == 0 {
            acc
        } else {
            acc.push(cur)
        }
    } else if spec_is_space(s.first()) {
        if cur.len() == 0 {
            spec_tokens_acc(s.drop_first(), acc, cur)
        } else {
            spec_tokens_acc(s.drop_first(), acc.push(cur), Seq::empty())
        }
    } else {
        spec_tokens_acc(s.drop_first(), acc, cur.push(s.first()))
    }
}

/// The whitespace-separated tokens of a line: its maximal runs of
/// non-whitespace bytes, in order.
pub open spec fn spec_tokens(s: Seq<u8>) -> Seq<Seq<u8>> {
    spec_tokens_acc(s, Seq::empty(), Seq::empty())
}

/// The views of a token list.
pub open spec fn spec_token_views(ts: Seq<Vec<u8>>) -> Seq<Seq<u8>> {
    ts.map_values(|t: Vec<u8>| t@)
}

/// Split a line into its whitespace-separated tokens.
pub fn split_tokens(line: &[u8]) -> (r: Vec<Vec<u8>>)
    ensures
        spec_token_views(r@) == spec_tokens(line@),
{
    let mut acc: Vec<Vec<u8>> = Vec::new();
    let mut cur: Vec<u8> = Vec::new();
    proof {
        assert(line@.skip(0) =~= line@);
        assert(spec_token_views(acc@) =~= Seq::<Seq<u8>>::empty());
    }
    for i in 0..line.len()
        invariant
            spec_tokens(line@) == spec_tokens_acc(
                line@.skip(i as int),
                spec_token_views(acc@),
                cur@,
            ),
    {
        let ghost rest = line@.skip(i as int);
        proof {
            assert(rest.len() > 0);
            assert(rest.first() == line@[i as int]);
            assert(rest.drop_first() =~= line@.skip(i + 1));
        }
        if is_space(line[i]) {
            if cur.len() > 0 {
                let ghost accv = spec_token_views(acc@);
                let finished = cur;
                acc.push(finished);
                cur = Vec::new();
                proof {
                    assert(spec_token_views(acc@) =~= accv.push(finished@));
                }
            }
        } else {
            cur.push(line[i]);
        }
    }
    proof {
        assert(line@.skip(line@.len() as int) =~= Seq::<u8>::empty());
    }
    if cur.len() > 0 {
        let ghost accv = spec_token_views(acc@);
        let finished = cur;
        acc.push(finished);
        proof {
            assert(spec_token_views(acc@) =~= accv.push(finished@));
        }
    }
    acc
}

/// The `dur:` marker that opens a duration token.
pub open spec fn spec_dur_marker() -> Seq<u8> {
    seq![0x64u8, 0x75u8, 0x72u8, 0x3au8]
}

/// The first token that starts with the `dur:` marker, if any.
pub open spec fn spec_find_dur(ts: Seq<Seq<u8>>) -> Option<Seq<u8>>
    decreases ts.len(),
{
    if ts.len() == 0 {
        None
    } else if spec_dur_marker().is_prefix_of(ts.first()) {
        Some(ts.first())
    } else {
        spec_find_dur(ts.drop_first())
    }
}

/// How many bytes of `s` precede its first colon (all of them when it
/// has none).
pub open spec fn spec_colon_free_len(s: Seq<u8>) -> int
    decreases s.len(),
{
    if s.len() == 0 || s.first() == 0x3a {
        0
    } else {
        1 + spec_colon_free_len(s.drop_first())
    }
}

/// The duration a `dur:` token carries: what stands between its first
/// colon and its second (or its end).
pub open spec fn spec_duration_of(t: Seq<u8>) -> Seq<u8> {
    let rest = t.skip(4);
    rest.take(spec_colon_free_len(rest))
}

/// Whether `p` is a prefix of `s`, byte for byte.
fn bytes_have_prefix(s: &[u8], p: &[u8]) -> (r: bool)
    ensures
        r == p@.is_prefix_of(s@),
{
    if s.len() < p.len() {
        proof {
            assert(!p@.is_prefix_of(s@));
        }
        return false;
    }
    for i in 0..p.len()
        invariant
            s@.len() >= p@.len(),
            forall|j: int| 0 <= j < i ==> s@[j] == p@[j],
    {
        if s[i] != p[i] {
            proof {
                assert(p@.is_prefix_of(s@) ==> p@ =~= s@.subrange(0, p@.len() as int));
                assert(p@ =~= s@.subrange(0, p@.len() as int) ==> p@[i as int] == s@[i as int]);
            }
            return false;
        }
    }
    proof {
        assert(p@ =~= s@.subrange(0, p@.len() as int));
    }
    true
}

/// Copy the duration out of a `dur:` token.
fn duration_of(t: &Vec<u8>) -> (r: Vec<u8>)
    requires
        spec_dur_marker().is_prefix_of(t@),
    ensures
        r@ == spec_duration_of(t@),
{
    let ghost rest = t@.skip(4);
    let mut out: Vec<u8> = Vec::new();
    let mut j: usize = 4;
    proof {
        assert(out@ =~= rest.take(0));
        assert(rest.skip(0) =~= rest);
    }
    while j < t.len() && t[j] != 0x3a
        invariant
            4 <= j <= t@.len(),
            rest == t@.skip(4),
            out@ == rest.take(j - 4),
            spec_colon_free_len(rest) == j - 4 + spec_colon_free_len(rest.skip(j - 4)),
        decreases t@.len() - j,
    {
        proof {
            assert(rest.skip(j - 4).len() > 0);
            assert(rest.skip(j - 4).first() == t@[j as int]);
            assert(rest.skip(j - 4).drop_first() =~= rest.skip(j - 3));
            assert(rest.take(j - 4).push(t@[j as int]) =~= rest.take(j - 3));
        }
        out.push(t[j]);
        j = j + 1;
    }
    proof {
        if j < t@.len() {
            assert(rest.skip(j - 4).first() == t@[j as int]);
        } else {
            assert(rest.skip(j - 4) =~= Seq::<u8>::empty());
        }
        assert(spec_colon_free_len(rest.skip(j - 4)) == 0);
        assert(rest.take(spec_colon_free_len(rest)) == out@);
    }
    out
}

/// The fields a lint log line yields: the date and time tokens joined by
/// one space, and the `dur:` token's duration — or nothing when the
/// line has fewer than three tokens or no `dur:` token.
pub open spec fn spec_lint_fields(line: Seq<u8>) -> Option<(Seq<u8>, Seq<u8>)> {
    let ts = spec_tokens(line);
    if ts.len() < 3 {
        None
    } else {
        match spec_find_dur(ts) {
            None => None,
            Some(t) => Some((ts[1] + seq![0x20u8] + ts[2], spec_duration_of(t))),
        }
    }
}

/// Extract a lint log line's timestamp text and duration text.
///
/// The timestamp is the line's second and third token joined by one
/// space; the duration is what the first `dur:`-prefixed token carries
/// between its first colon and its second or its end. A line without
/// three tokens or without a `dur:` token yields nothing.
pub fn extract_lint_fields(line: &[u8]) -> (r: Option<(Vec<u8>, Vec<u8>)>)
    ensures
        r is Some <==> spec_lint_fields(line@) is Some,
        r matches Some(f) ==> spec_lint_fields(line@) == Some((f.0@, f.1@)),
{
    let tokens = split_tokens(line);
    let ghost tsv = spec_token_views(tokens@);
    if tokens.len() < 3 {
        return None;
    }
    let marker: [u8; 4] = [0x64, 0x75, 0x72, 0x3a];
    proof {
        assert(marker@ =~= spec_dur_marker());
        assert(tsv.skip(0) =~= tsv);
    }
    let mut found: Option<usize> = None;
    for i in 0..tokens.len()
        invariant
            tsv == spec_token_views(tokens@),
            tsv.len() == tokens@.len(),
            marker@ == spec_dur_marker(),
            found is None ==> spec_find_dur(tsv) == spec_find_dur(tsv.skip(i as int)),
            found matches Some(k) ==> k < tokens@.len() && spec_find_dur(tsv) == Some(
                tokens@[k as int]@,
            ) && spec_dur_marker().is_prefix_of(tokens@[k as int]@),
    {
        if found.is_none() {
            proof {
                assert(tsv.skip(i as int).len() > 0);
                assert(tsv.skip(i as int).first() == tokens@[i as int]@);
                assert(tsv.skip(i as int).drop_first() =~= tsv.skip(i + 1));
            }
            if bytes_have_prefix(tokens[i].as_slice(), marker.as_slice()) {
                found = Some(i);
            }
        }
    }
    match found {
        None => {
            proof {
                assert(tsv.skip(tsv.len() as int) =~= Seq::<Seq<u8>>::empty());
            }
            None
        },
        Some(k) => {
            let duration = duration_of(&tokens[k]);
            let mut datetime: Vec<u8> = Vec::new();
            let date = &tokens[1];
            let time = &tokens[2];
            for i in 0..date.len()
                invariant
                    datetime@ == date@.take(i as int),
            {
                datetime.push(date[i]);
                proof {
                    assert(date@.take(i as int).push(date@[i as int]) =~= date@.take(i + 1));
                }
            }
            datetime.push(0x20);
            let ghost mid = datetime@;
            for i in 0..time.len()
                invariant
                    datetime@ == mid + time@.take(i as int),
                    mid == date@.take(date@.len() as int).push(0x20u8),
            {
                datetime.push(time[i]);
                proof {
                    assert(time@.take(i as int).push(time@[i as int]) =~= time@.take(i + 1));
                    assert((mid + time@.take(i as int)).push(time@[i as int]) =~= mid + time@.take(
                        i + 1,
                    ));
                }
            }
            proof {
                assert(date@.take(date@.len() as int) =~= date@);
                assert(time@.take(time@.len() as int) =~= time@);
                assert(datetime@ =~= tsv[1] + seq![0x20u8] + tsv[2]);
            }
            Some((datetime, duration))
        },
    }
}

} // verus!
