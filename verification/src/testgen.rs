use vstd::prelude::*;

use crate::text::chars_to_string;

verus! {

/// The test generator's configuration: the glob pattern naming the test
/// scripts to expand into test cases.
#[derive(Debug, PartialEq, Eq, Clone)]
pub struct Config {
    pub pattern: String,
}

/// One pass, left to right: every path separator becomes two underscores;
/// every other character stays.
pub open spec fn seps_doubled(s: Seq<char>) -> Seq<char>
    decreases s.len(),
{
    if s.len() == 0 {
        Seq::empty()
    } else if s[0] == '/' || s[0] == '\\' {
        seq!['_', '_'] + seps_doubled(s.skip(1))
    } else {
        seq![s[0]] + seps_doubled(s.skip(1))
    }
}

/// One pass, left to right, non-overlapping: every run of three
/// underscores becomes two.
pub open spec fn triples_collapsed(s: Seq<char>) -> Seq<char>
    decreases s.len(),
{
    if s.len() < 3 {
        s
    } else if s[0] == '_' && s[1] == '_' && s[2] == '_' {
        seq!['_', '_'] + triples_collapsed(s.skip(3))
    } else {
        seq![s[0]] + triples_collapsed(s.skip(1))
    }
}

/// The generated test name for one script: the callee's name, an
/// underscore, and the script's stem with separators doubled — then every
/// triple underscore collapsed.
pub open spec fn spec_test_case_name(callee: Seq<char>, stem: Seq<char>) -> Seq<char> {
    triples_collapsed(callee + seq!['_'] + seps_doubled(stem))
}

/// Whether the path ends in a dot followed by the extension.
pub open spec fn has_extension(path: Seq<char>, extension: Seq<char>) -> bool {
    path.len() > extension.len() && path[path.len() - extension.len() - 1] == '.'
        && path.subrange(path.len() - extension.len(), path.len() as int) == extension
}

/// The stem of the path: everything before its dot and extension.
pub open spec fn path_stem(path: Seq<char>, extension: Seq<char>) -> Seq<char> {
    path.subrange(0, path.len() - extension.len() - 1)
}

fn push_chars(out: &mut Vec<char>, s: &str)
    ensures
        final(out)@ == old(out)@ + s@,
{
    let n: usize = s.unicode_len();
    let mut i: usize = 0;
    while i < n
        invariant
            i <= n,
            n == s@.len(),
            out@ == old(out)@ + s@.take(i as int),
        decreases n - i,
    {
        let c = s.get_char(i);
        out.push(c);
        proof {
            assert(old(out)@ + s@.take(i as int) + seq![s@[i as int]] =~= old(out)@ + s@.take(
                i as int + 1,
            ));
        }
        i = i + 1;
    }
    proof {
        assert(s@.take(n as int) =~= s@);
    }
}

/// The test case name that one test script expands to: the callee's name
/// and the script's relative path, joined and made one identifier-shaped
/// word; nothing, when the path does not end in the given extension.
pub fn test_case_name(callee: &str, rel_path: &str, extension: &str) -> (r: Option<String>)
    ensures
        r is Some <==> has_extension(rel_path@, extension@),
        r matches Some(name) ==> name@ == spec_test_case_name(
            callee@,
            path_stem(rel_path@, extension@),
        ),
{
    let n: usize = rel_path.unicode_len();
    let m: usize = extension.unicode_len();
    if n <= m {
        return None;
    }
    if rel_path.get_char(n - m - 1) != '.' {
        return None;
    }
    let mut j: usize = 0;
    while j < m
        invariant
            j <= m,
            n == rel_path@.len(),
            m == extension@.len(),
            n >= m + 1,
            forall|k: int| 0 <= k < j ==> rel_path@[n - m + k] == extension@[k],
        decreases m - j,
    {
        if rel_path.get_char(n - m + j) != extension.get_char(j) {
            proof {
                assert(rel_path@.subrange(n - m, n as int)[j as int] == rel_path@[n - m + j]);
            }
            return None;
        }
        j = j + 1;
    }
    proof {
        assert(rel_path@.subrange(n - m, n as int) =~= extension@);
    }
    let ghost stem = path_stem(rel_path@, extension@);
    let mut out: Vec<char> = Vec::new();
    push_chars(&mut out, callee);
    out.push('_');
    proof {
        assert(out@ =~= callee@ + seq!['_']);
        assert(stem.skip(0) =~= stem);
    }
    let stem_len: usize = n - m - 1;
    let mut i: usize = 0;
    while i < stem_len
        invariant
            i <= stem_len,
            n == rel_path@.len(),
            m == extension@.len(),
            stem_len == n - m - 1,
            stem == path_stem(rel_path@, extension@),
            stem.len() == stem_len,
            forall|k: int| 0 <= k < stem_len ==> stem[k] == rel_path@[k],
            callee@ + seq!['_'] + seps_doubled(stem) == out@ + seps_doubled(stem.skip(i as int)),
        decreases stem_len - i,
    {
        let c = rel_path.get_char(i);
        let ghost pre = out@;
        if c == '/' || c == '\\' {
            out.push('_');
            out.push('_');
            proof {
                assert(seps_doubled(stem.skip(i as int)) == seq!['_', '_'] + seps_doubled(
                    stem.skip(i as int).skip(1),
                ));
                assert(stem.skip(i as int).skip(1) =~= stem.skip(i as int + 1));
                assert(pre + (seq!['_', '_'] + seps_doubled(stem.skip(i as int + 1))) =~= (pre
                    + seq!['_', '_']) + seps_doubled(stem.skip(i as int + 1)));
                assert(out@ =~= pre + seq!['_', '_']);
            }
        } else {
            out.push(c);
            proof {
                assert(seps_doubled(stem.skip(i as int)) == seq![stem[i as int]] + seps_doubled(
                    stem.skip(i as int).skip(1),
                ));
                assert(stem.skip(i as int).skip(1) =~= stem.skip(i as int + 1));
                assert(pre + (seq![stem[i as int]] + seps_doubled(stem.skip(i as int + 1))) =~= (
                pre + seq![stem[i as int]]) + seps_doubled(stem.skip(i as int + 1)));
                assert(out@ =~= pre + seq![stem[i as int]]);
            }
        }
        i = i + 1;
    }
    proof {
        assert(stem.skip(stem_len as int) =~= Seq::<char>::empty());
        assert(out@ + Seq::<char>::empty() =~= out@);
        assert(out@ == callee@ + seq!['_'] + seps_doubled(stem));
    }
    let joined = out;
    let ghost full = joined@;
    let len: usize = joined.len();
    let mut result: Vec<char> = Vec::new();
    let mut p: usize = 0;
    proof {
        assert(full.skip(0) =~= full);
    }
    while p < len
        invariant
            p <= len,
            len == full.len(),
            joined@ == full,
            triples_collapsed(full) == result@ + triples_collapsed(full.skip(p as int)),
        decreases len - p,
    {
        let ghost pre = result@;
        let ghost rest = full.skip(p as int);
        proof {
            assert(rest.len() == len - p);
            assert forall|k: int| 0 <= k < rest.len() implies rest[k] == full[p + k] by {}
        }
        if len - p >= 3 && joined[p] == '_' && joined[p + 1] == '_' && joined[p + 2] == '_' {
            result.push('_');
            result.push('_');
            proof {
                assert(triples_collapsed(rest) == seq!['_', '_'] + triples_collapsed(rest.skip(3)));
                assert(rest.skip(3) =~= full.skip(p as int + 3));
                assert(pre + (seq!['_', '_'] + triples_collapsed(full.skip(p as int + 3))) =~= (pre
                    + seq!['_', '_']) + triples_collapsed(full.skip(p as int + 3)));
                assert(result@ =~= pre + seq!['_', '_']);
            }
            p = p + 3;
        } else {
            let c = joined[p];
            result.push(c);
            proof {
                if rest.len() < 3 {
                    assert(triples_collapsed(rest) =~= rest);
                    assert(rest =~= seq![rest[0]] + rest.skip(1));
                    if rest.len() >= 2 {
                        assert(rest.skip(1).len() < 3);
                        assert(triples_collapsed(rest.skip(1)) =~= rest.skip(1));
                    } else {
                        assert(triples_collapsed(rest.skip(1)) =~= rest.skip(1));
                    }
                    assert(triples_collapsed(rest) == seq![rest[0]] + triples_collapsed(
                        rest.skip(1),
                    ));
                } else {
                    assert(triples_collapsed(rest) == seq![rest[0]] + triples_collapsed(
                        rest.skip(1),
                    ));
                }
                assert(rest.skip(1) =~= full.skip(p as int + 1));
                assert(rest[0] == full[p as int]);
                assert(pre + (seq![full[p as int]] + triples_collapsed(full.skip(p as int + 1)))
                    =~= (pre + seq![full[p as int]]) + triples_collapsed(full.skip(p as int + 1)));
                assert(result@ =~= pre + seq![full[p as int]]);
            }
            p = p + 1;
        }
    }
    proof {
        assert(full.skip(len as int) =~= Seq::<char>::empty());
        assert(triples_collapsed(Seq::<char>::empty()) =~= Seq::<char>::empty());
        assert(result@ + Seq::<char>::empty() =~= result@);
        assert(result@ == triples_collapsed(full));
    }
    Some(chars_to_string(&result))
}

} // verus!
