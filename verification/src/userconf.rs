//! Extraction of a user's display name out of a launcher configuration
//! text, and the label shown when a user directory must be chosen.

use vstd::prelude::*;
use vstd::string::StrSliceExecFns;
use vstd::string::StringExecFns;

use crate::text::{seq_contains, str_contains_sub};

verus! {

/// The ASCII whitespace characters that trimming removes.
pub open spec fn is_space(c: char) -> bool {
    c == ' ' || c == '\t' || c == '\r' || c == '\n' || c == '\u{b}' || c == '\u{c}'
}

/// Split at every occurrence of the separator, keeping empty pieces: one
/// piece more than there are separators.
pub open spec fn split_on(s: Seq<char>, sep: char) -> Seq<Seq<char>>
    decreases s.len(),
{
    if s.len() == 0 {
        seq![Seq::<char>::empty()]
    } else {
        let rest = split_on(s.drop_last(), sep);
        if s.last() == sep {
            rest.push(Seq::<char>::empty())
        } else {
            rest.update(rest.len() - 1, rest.last().push(s.last()))
        }
    }
}

/// A split is never empty.
proof fn lemma_split_on_nonempty(s: Seq<char>, sep: char)
    ensures
        split_on(s, sep).len() >= 1,
    decreases s.len(),
{
    if s.len() != 0 {
        lemma_split_on_nonempty(s.drop_last(), sep);
    }
}

/// Drop one carriage return off the end of a terminated line.
pub open spec fn strip_cr(l: Seq<char>) -> Seq<char> {
    if l.len() > 0 && l.last() == '\r' {
        l.drop_last()
    } else {
        l
    }
}

/// The lines of a text: pieces split at line feeds, a carriage return
/// before each line feed removed, and the optional final line ending
/// producing no empty last line.
pub open spec fn lines_of(s: Seq<char>) -> Seq<Seq<char>> {
    if s.len() == 0 {
        Seq::<Seq<char>>::empty()
    } else {
        let p = split_on(s, '\n');
        if p.last().len() == 0 {
            p.drop_last().map_values(|l: Seq<char>| strip_cr(l))
        } else {
            p.drop_last().map_values(|l: Seq<char>| strip_cr(l)).push(p.last())
        }
    }
}

/// Remove leading whitespace.
pub open spec fn trim_start(s: Seq<char>) -> Seq<char>
    decreases s.len(),
{
    if s.len() > 0 && is_space(s[0]) {
        trim_start(s.skip(1))
    } else {
        s
    }
}

/// Remove trailing whitespace.
pub open spec fn trim_end(s: Seq<char>) -> Seq<char>
    decreases s.len(),
{
    if s.len() > 0 && is_space(s.last()) {
        trim_end(s.drop_last())
    } else {
        s
    }
}

/// Remove whitespace from both ends.
pub open spec fn trim_of(s: Seq<char>) -> Seq<char> {
    trim_end(trim_start(s))
}

/// The marker naming the display-name entry of the configuration text.
pub open spec fn persona_marker() -> Seq<char> {
    "PersonaName"@
}

/// The name reported when no display name can be extracted.
pub open spec fn unknown_user() -> Seq<char> {
    "UNKNOWN"@
}

/// The lines of the text that mention the display-name marker.
pub open spec fn marker_filter(ls: Seq<Seq<char>>) -> Seq<Seq<char>> {
    ls.filter(|l: Seq<char>| seq_contains(l, persona_marker()))
}

/// The display name a configuration text yields: exactly one line must
/// mention the marker, and that line, trimmed, must carry the name as its
/// fourth quote-separated piece; anything else yields the unknown name.
pub open spec fn username_of(content: Seq<char>) -> Seq<char> {
    if marker_filter(lines_of(content)).len() != 1 {
        unknown_user()
    } else {
        let pieces = split_on(trim_of(marker_filter(lines_of(content))[0]), '"');
        if pieces.len() > 3 {
            pieces[3]
        } else {
            unknown_user()
        }
    }
}

/// Executable whitespace test; exactly `is_space`.
fn is_space_char(c: char) -> (b: bool)
    ensures
        b == is_space(c),
{
    c == ' ' || c == '\t' || c == '\r' || c == '\n' || c == '\u{b}' || c == '\u{c}'
}

/// Executable split; exactly `split_on`.
pub fn split_string(s: &str, sep: char) -> (out: Vec<String>)
    ensures
        out.deep_view() == split_on(s@, sep),
{
    let n = s.unicode_len();
    let mut out: Vec<String> = Vec::new();
    let mut start: usize = 0;
    let mut i: usize = 0;
    while i < n
        invariant
            n == s@.len(),
            start <= i <= n,
            out.deep_view().push(s@.subrange(start as int, i as int)) =~~= split_on(
                s@.subrange(0, i as int),
                sep,
            ),
        decreases n - i,
    {
        let ghost prefix = s@.subrange(0, i as int + 1);
        proof {
            assert(prefix.drop_last() =~= s@.subrange(0, i as int));
            assert(prefix.last() == s@[i as int]);
        }
        if s.get_char(i) == sep {
            out.push(s.substring_char(start, i).to_owned());
            start = i + 1;
            proof {
                assert(out.deep_view().push(s@.subrange(start as int, i as int + 1))
                    =~~= split_on(prefix, sep));
            }
        } else {
            proof {
                assert(s@.subrange(start as int, i as int + 1) =~= s@.subrange(
                    start as int,
                    i as int,
                ).push(s@[i as int]));
                assert(out.deep_view().push(s@.subrange(start as int, i as int + 1))
                    =~~= split_on(prefix, sep));
            }
        }
        i += 1;
    }
    out.push(s.substring_char(start, n).to_owned());
    proof {
        assert(s@.subrange(0, n as int) =~= s@);
        assert(out.deep_view() =~~= split_on(s@, sep));
    }
    out
}

/// Drop one trailing carriage return; exactly `strip_cr`.
fn strip_cr_string(piece: &String) -> (r: String)
    ensures
        r@ == strip_cr(piece@),
{
    let n = piece.as_str().unicode_len();
    if n > 0 && piece.as_str().get_char(n - 1) == '\r' {
        let r = piece.as_str().substring_char(0, n - 1).to_owned();
        proof {
            assert(r@ =~= piece@.drop_last());
        }
        r
    } else {
        piece.clone()
    }
}

/// Executable line splitting; exactly `lines_of`.
pub fn lines_of_str(s: &str) -> (out: Vec<String>)
    ensures
        out.deep_view() == lines_of(s@),
{
    let n = s.unicode_len();
    if n == 0 {
        let out: Vec<String> = Vec::new();
        proof {
            assert(out.deep_view() =~~= lines_of(s@));
        }
        return out;
    }
    let pieces = split_string(s, '\n');
    proof {
        lemma_split_on_nonempty(s@, '\n');
    }
    let m = pieces.len();
    let mut out: Vec<String> = Vec::new();
    let mut j: usize = 0;
    while j < m - 1
        invariant
            m == pieces@.len(),
            m >= 1,
            pieces.deep_view() == split_on(s@, '\n'),
            j <= m - 1,
            out@.len() == j,
            forall|k: int| 0 <= k < j ==> out.deep_view()[k] == strip_cr(pieces.deep_view()[k]),
        decreases m - 1 - j,
    {
        let ghost prevv = out@;
        let ghost prevd = out.deep_view();
        let piece = strip_cr_string(&pieces[j]);
        out.push(piece);
        proof {
            assert forall|k: int| 0 <= k < j + 1 implies out.deep_view()[k] == strip_cr(
                pieces.deep_view()[k],
            ) by {
                assert(out@ == prevv.push(piece));
                if k < j {
                    assert(out@[k] == prevv[k]);
                    assert(prevd[k] == strip_cr(pieces.deep_view()[k]));
                    assert(out.deep_view()[k] == out@[k]@);
                    assert(prevd[k] == prevv[k]@);
                } else {
                    assert(out.deep_view()[k] == piece@);
                }
            }
        }
        j += 1;
    }
    let last = &pieces[m - 1];
    if last.as_str().unicode_len() > 0 {
        let ghost prevv = out@;
        let ghost prevd = out.deep_view();
        let copied = last.clone();
        out.push(copied);
        proof {
            assert(out@ == prevv.push(copied));
            assert(copied@ == pieces.deep_view()[m - 1]);
            assert forall|k: int| 0 <= k < m - 1 implies out.deep_view()[k] == strip_cr(
                pieces.deep_view()[k],
            ) by {
                assert(out@[k] == prevv[k]);
                assert(prevd[k] == strip_cr(pieces.deep_view()[k]));
                assert(out.deep_view()[k] == out@[k]@);
                assert(prevd[k] == prevv[k]@);
            }
            assert(out.deep_view() =~~= lines_of(s@));
        }
    } else {
        proof {
            assert(out.deep_view() =~~= lines_of(s@));
        }
    }
    out
}

/// Executable trim; exactly `trim_of`.
pub fn trim_str(s: &str) -> (r: String)
    ensures
        r@ == trim_of(s@),
{
    let n = s.unicode_len();
    proof {
        assert(s@.subrange(0, n as int) =~= s@);
    }
    let mut a: usize = 0;
    while a < n && is_space_char(s.get_char(a))
        invariant
            n == s@.len(),
            a <= n,
            trim_start(s@) == trim_start(s@.subrange(a as int, n as int)),
        decreases n - a,
    {
        proof {
            assert(s@.subrange(a as int, n as int).skip(1) =~= s@.subrange(a as int + 1, n as int));
        }
        a += 1;
    }
    proof {
        assert(trim_start(s@) == s@.subrange(a as int, n as int));
    }
    let mut b: usize = n;
    while b > a && is_space_char(s.get_char(b - 1))
        invariant
            n == s@.len(),
            a <= b <= n,
            trim_start(s@) == s@.subrange(a as int, n as int),
            trim_end(s@.subrange(a as int, n as int)) == trim_end(s@.subrange(a as int, b as int)),
        decreases b - a,
    {
        proof {
            assert(s@.subrange(a as int, b as int).drop_last() =~= s@.subrange(
                a as int,
                b as int - 1,
            ));
        }
        b -= 1;
    }
    proof {
        assert(trim_of(s@) == s@.subrange(a as int, b as int));
    }
    s.substring_char(a, b).to_owned()
}

/// Display-name extraction; exactly `username_of`.
pub fn username_from_localconfig(content: &str) -> (r: String)
    ensures
        r@ == username_of(content@),
{
    let all = lines_of_str(content);
    let ghost lv = all.deep_view();
    let mut matching: Vec<String> = Vec::new();
    let mut i: usize = 0;
    while i < all.len()
        invariant
            lv == all.deep_view(),
            all@.len() == lv.len(),
            i <= all.len(),
            matching.deep_view() =~~= marker_filter(lv.subrange(0, i as int)),
        decreases all.len() - i,
    {
        let ghost prefix = lv.subrange(0, i as int + 1);
        proof {
            reveal(Seq::filter);
            assert(prefix.drop_last() =~= lv.subrange(0, i as int));
            assert(prefix.last() == lv[i as int]);
        }
        if str_contains_sub(all[i].as_str(), "PersonaName") {
            matching.push(all[i].clone());
        }
        proof {
            reveal(Seq::filter);
            assert(matching.deep_view() =~~= marker_filter(prefix));
        }
        i += 1;
    }
    proof {
        assert(lv.subrange(0, lv.len() as int) =~= lv);
        assert(matching.deep_view() =~~= marker_filter(lines_of(content@)));
    }
    if matching.len() != 1 {
        return "UNKNOWN".to_owned();
    }
    let trimmed = trim_str(matching[0].as_str());
    let pieces = split_string(trimmed.as_str(), '"');
    if pieces.len() > 3 {
        pieces[3].clone()
    } else {
        "UNKNOWN".to_owned()
    }
}

/// The label shown for one user directory when several must be told
/// apart: the directory, then the user's display name in parentheses.
pub fn user_dir_label(dir: &str, name: &str) -> (r: String)
    ensures
        r@ == dir@ + " ("@ + name@ + ")"@,
{
    let mut s = String::from_str(dir);
    s.append(" (");
    s.append(name);
    s.append(")");
    s
}

} // verus!
