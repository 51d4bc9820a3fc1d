use vstd::prelude::*;
use crate::text::{chars_of, index_of, lemma_index_of, string_of};

verus! {

/// A line without the carriage return of a `\r\n` ending.
pub open spec fn without_cr(l: Seq<char>) -> Seq<char> {
    if l.len() > 0 && l.last() == '\r' {
        l.drop_last()
    } else {
        l
    }
}

/// The lines of `t` as `str::lines` splits them: at each `\n`, dropping a
/// `\r` just before it; a final `\n` starts no further line.
pub open spec fn text_lines(t: Seq<char>) -> Seq<Seq<char>>
    decreases t.len(),
{
    if t.len() == 0 {
        seq![]
    } else {
        let k = index_of(t, '\n') as int;
        if k >= t.len() {
            seq![t]
        } else {
            seq![without_cr(t.take(k))] + text_lines(t.skip(k + 1))
        }
    }
}

pub open spec fn is_name_char(c: char) -> bool {
    ('a' <= c && c <= 'z') || ('A' <= c && c <= 'Z') || ('0' <= c && c <= '9') || c == '_'
}

/// Variables that describe the shell itself rather than the environment.
pub open spec fn is_shell_own(key: Seq<char>) -> bool {
    key == seq!['P', 'W', 'D'] || key == seq!['_'] || key == seq!['S', 'H', 'L', 'V', 'L'] || key == seq![
        'O',
        'L',
        'D',
        'P',
        'W',
        'D',
    ]
}

/// The variable a line `KEY=value` of `env` output sets: the key runs up to
/// the first `=`, is 1 to 63 characters of letters, digits and `_`, and is
/// none of the shell's own variables.
pub open spec fn line_assignment(line: Seq<char>) -> Option<(Seq<char>, Seq<char>)> {
    let p = index_of(line, '=') as int;
    let key = line.take(p);
    if p < line.len() && 0 < p < 64 && !is_shell_own(key) && forall|i: int| 0 <= i < p ==> is_name_char(#[trigger] key[i]) {
        Some((key, line.skip(p + 1)))
    } else {
        None
    }
}

pub open spec fn assignment_seq(line: Seq<char>) -> Seq<(Seq<char>, Seq<char>)> {
    match line_assignment(line) {
        Some(a) => seq![a],
        None => seq![],
    }
}

/// The variables that the lines set, in order.
pub open spec fn assignments(lines: Seq<Seq<char>>) -> Seq<(Seq<char>, Seq<char>)>
    decreases lines.len(),
{
    if lines.len() == 0 {
        seq![]
    } else {
        assignment_seq(lines[0]) + assignments(lines.drop_first())
    }
}

pub open spec fn pairs_view(v: Seq<(String, String)>) -> Seq<(Seq<char>, Seq<char>)> {
    v.map_values(|kv: (String, String)| (kv.0@, kv.1@))
}

fn is_name_char_exec(c: char) -> (r: bool)
    ensures
        r == is_name_char(c),
{
    ('a' <= c && c <= 'z') || ('A' <= c && c <= 'Z') || ('0' <= c && c <= '9') || c == '_'
}

/// The variable that line `s[a..b]` sets, if any; see `line_assignment`.
fn assignment_in(s: &Vec<char>, a: usize, b: usize) -> (r: Option<(String, String)>)
    requires
        a <= b <= s.len(),
    ensures
        match r {
            Some(kv) => line_assignment(s@.subrange(a as int, b as int)) == Some((kv.0@, kv.1@)),
            None => line_assignment(s@.subrange(a as int, b as int)) is None,
        },
{
    let ghost line = s@.subrange(a as int, b as int);
    let mut p: usize = a;
    while p < b && s[p] != '='
        invariant
            a <= p <= b <= s.len(),
            forall|i: int| a <= i < p ==> s@[i] != '=',
        decreases b - p,
    {
        p = p + 1;
    }
    proof {
        assert forall|i: int| 0 <= i < p - a implies line[i] != '=' by {
            assert(line[i] == s@[a + i]);
        }
        if p < b {
            assert(line[p - a] == s@[p as int]);
        }
        lemma_index_of(line, '=', p - a);
    }
    if p == b || p == a || p - a >= 64 {
        return None;
    }
    let mut j: usize = a;
    while j < p
        invariant
            a <= j <= p < b <= s.len(),
            0 < p - a < 64,
            line == s@.subrange(a as int, b as int),
            index_of(line, '=') == p - a,
            forall|i: int| a <= i < j ==> is_name_char(#[trigger] s@[i]),
        decreases p - j,
    {
        if !is_name_char_exec(s[j]) {
            proof {
                assert(line.take(p - a)[j - a] == s@[j as int]);
            }
            return None;
        }
        j = j + 1;
    }
    let key = string_of(s, a, p);
    proof {
        assert(key@ =~= line.take(p - a));
        assert forall|i: int| 0 <= i < p - a implies is_name_char(#[trigger] line.take(p - a)[i]) by {
            assert(line.take(p - a)[i] == s@[a + i]);
        }
        reveal_strlit("PWD");
        reveal_strlit("_");
        reveal_strlit("SHLVL");
        reveal_strlit("OLDPWD");
    }
    let pwd = "PWD".to_owned();
    let underscore = "_".to_owned();
    let shlvl = "SHLVL".to_owned();
    let oldpwd = "OLDPWD".to_owned();
    proof {
        assert(pwd@ =~= seq!['P', 'W', 'D']);
        assert(underscore@ =~= seq!['_']);
        assert(shlvl@ =~= seq!['S', 'H', 'L', 'V', 'L']);
        assert(oldpwd@ =~= seq!['O', 'L', 'D', 'P', 'W', 'D']);
    }
    if key == pwd || key == underscore || key == shlvl || key == oldpwd {
        return None;
    }
    let value = string_of(s, p + 1, b);
    proof {
        assert(value@ =~= line.skip(p - a + 1));
    }
    Some((key, value))
}

/// The variables to take over from a login shell, given what its `env`
/// printed: one per line `KEY=value` that `line_assignment` accepts, in
/// the order of the lines.
pub fn fix_path_env(env_output: &str) -> (r: Vec<(String, String)>)
    ensures
        pairs_view(r@) == assignments(text_lines(env_output@)),
{
    let cs = chars_of(env_output);
    let mut out: Vec<(String, String)> = Vec::new();
    let mut ls: usize = 0;
    let mut i: usize = 0;
    assert(cs@.skip(0) =~= cs@);
    while i < cs.len()
        invariant
            ls <= i <= cs.len(),
            cs@ == env_output@,
            forall|j: int| ls <= j < i ==> cs@[j] != '\n',
            pairs_view(out@) + assignments(text_lines(cs@.skip(ls as int))) == assignments(text_lines(cs@)),
        decreases cs.len() - i,
    {
        if cs[i] == '\n' {
            let ghost t = cs@.skip(ls as int);
            proof {
                assert forall|j: int| 0 <= j < i - ls implies t[j] != '\n' by {
                    assert(t[j] == cs@[ls + j]);
                }
                assert(t[i - ls] == cs@[i as int]);
                lemma_index_of(t, '\n', i - ls);
                assert(t.skip(i - ls + 1) =~= cs@.skip(i + 1));
                assert(t.take(i - ls) =~= cs@.subrange(ls as int, i as int));
            }
            let end: usize = if i > ls && cs[i - 1] == '\r' { i - 1 } else { i };
            proof {
                let l = cs@.subrange(ls as int, i as int);
                if i > ls && cs@[i - 1] == '\r' {
                    assert(l.last() == cs@[i - 1]);
                    assert(without_cr(l) =~= cs@.subrange(ls as int, end as int));
                } else {
                    if i > ls {
                        assert(l.last() == cs@[i - 1]);
                    }
                    assert(without_cr(l) =~= cs@.subrange(ls as int, end as int));
                }
            }
            let found = assignment_in(&cs, ls, end);
            let ghost before = out@;
            let ghost line = cs@.subrange(ls as int, end as int);
            let ghost rest = text_lines(cs@.skip(i + 1));
            proof {
                let ls2 = seq![line] + rest;
                assert(text_lines(t) == ls2);
                assert(ls2[0] == line);
                assert(ls2.drop_first() =~= rest);
            }
            match found {
                Some(kv) => {
                    out.push(kv);
                    proof {
                        assert(pairs_view(out@) =~= pairs_view(before) + seq![(kv.0@, kv.1@)]);
                        assert(pairs_view(out@) + assignments(rest) =~= pairs_view(before) + assignments(text_lines(t)));
                    }
                },
                None => {
                    proof {
                        assert(pairs_view(out@) + assignments(rest) =~= pairs_view(before) + assignments(text_lines(t)));
                    }
                },
            }
            ls = i + 1;
        }
        i = i + 1;
    }
    let ghost t = cs@.skip(ls as int);
    if ls < cs.len() {
        proof {
            assert forall|j: int| 0 <= j < t.len() implies t[j] != '\n' by {
                assert(t[j] == cs@[ls + j]);
            }
            lemma_index_of(t, '\n', t.len() as int);
            assert(t =~= cs@.subrange(ls as int, cs.len() as int));
            assert(text_lines(t) == seq![t]);
            assert(seq![t].drop_first() =~= Seq::<Seq<char>>::empty());
            assert(seq![t][0] == t);
            assert(assignments(Seq::<Seq<char>>::empty()) == Seq::<(Seq<char>, Seq<char>)>::empty());
            assert(assignments(seq![t]) =~= assignment_seq(t));
        }
        let ghost before = out@;
        match assignment_in(&cs, ls, cs.len()) {
            Some(kv) => {
                out.push(kv);
                proof {
                    assert(pairs_view(out@) =~= pairs_view(before) + seq![(kv.0@, kv.1@)]);
                }
            },
            None => {},
        }
        proof {
            assert(pairs_view(out@) =~= pairs_view(before) + assignments(text_lines(t)));
        }
    } else {
        proof {
            assert(pairs_view(out@) + assignments(text_lines(t)) =~= pairs_view(out@));
        }
    }
    out
}

} // verus!
