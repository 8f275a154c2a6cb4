//! Escaping of record field values.
//!
//! Two escaping strategies live here. `escape_rust_string` is the code
//! generator's literal-encoding scheme: backslashes, double quotes and the
//! control characters newline, carriage return and tab are written as two
//! character escapes, so that a generated string literal reproduces the
//! original value exactly. `unescape_rust_string` is its inverse, and
//! `lemma_unescape_escape` proves the round trip. `html_escape` rewrites the
//! five HTML-significant characters into their entity forms for interpolation
//! into hand-built HTML.

use vstd::prelude::*;
use vstd::string::StrSliceExecFns;

verus! {

/// The literal encoding of one character under the code generator's scheme.
pub open spec fn escape_char(c: char) -> Seq<char> {
    if c == '\\' {
        seq!['\\', '\\']
    } else if c == '"' {
        seq!['\\', '"']
    } else if c == '\n' {
        seq!['\\', 'n']
    } else if c == '\r' {
        seq!['\\', 'r']
    } else if c == '\t' {
        seq!['\\', 't']
    } else {
        seq![c]
    }
}

/// The literal encoding of a whole string under the code generator's scheme.
pub open spec fn escape_seq(s: Seq<char>) -> Seq<char>
    decreases s.len(),
{
    if s.len() == 0 {
        Seq::empty()
    } else {
        escape_char(s[0]) + escape_seq(s.drop_first())
    }
}

/// The character an escape pair `\x` decodes to, if `x` is a recognized
/// escape letter.
pub open spec fn unescape_char(c: char) -> Option<char> {
    if c == '\\' {
        Some('\\')
    } else if c == '"' {
        Some('"')
    } else if c == 'n' {
        Some('\n')
    } else if c == 'r' {
        Some('\r')
    } else if c == 't' {
        Some('\t')
    } else {
        None
    }
}

/// Decoding of an escaped literal body; `None` when a backslash is followed
/// by an unrecognized letter or ends the input.
pub open spec fn unescape_seq(s: Seq<char>) -> Option<Seq<char>>
    decreases s.len(),
{
    if s.len() == 0 {
        Some(Seq::empty())
    } else if s[0] == '\\' {
        if s.len() >= 2 {
            match unescape_char(s[1]) {
                Some(c) => match unescape_seq(s.skip(2)) {
                    Some(r) => Some(seq![c] + r),
                    None => None,
                },
                None => None,
            }
        } else {
            None
        }
    } else {
        match unescape_seq(s.drop_first()) {
            Some(r) => Some(seq![s[0]] + r),
            None => None,
        }
    }
}

/// Appending one character to the input appends that character's encoding to
/// the output.
pub proof fn lemma_escape_snoc(s: Seq<char>, c: char)
    ensures
        escape_seq(s.push(c)) == escape_seq(s) + escape_char(c),
    decreases s.len(),
{
    if s.len() == 0 {
        assert(s.push(c)[0] == c);
        assert(s.push(c).drop_first() =~= Seq::<char>::empty());
        assert(escape_seq(Seq::<char>::empty()) == Seq::<char>::empty());
        assert(escape_seq(s.push(c)) == escape_char(c) + Seq::<char>::empty());
        assert(escape_char(c) + Seq::<char>::empty() =~= escape_char(c));
        assert(escape_seq(s) + escape_char(c) =~= escape_char(c));
    } else {
        assert(s.push(c).drop_first() =~= s.drop_first().push(c));
        lemma_escape_snoc(s.drop_first(), c);
        assert(escape_char(s[0]) + (escape_seq(s.drop_first()) + escape_char(c)) =~= (escape_char(
            s[0],
        ) + escape_seq(s.drop_first())) + escape_char(c));
        assert(escape_seq(s.push(c)) == escape_char(s[0]) + escape_seq(s.drop_first().push(c)));
    }
}

/// Round-trip law of the literal-encoding scheme: decoding an encoded string
/// yields the original string, for every string, in particular for those
/// holding quotes, backslashes and control characters.
pub proof fn lemma_unescape_escape(s: Seq<char>)
    ensures
        unescape_seq(escape_seq(s)) == Some(s),
    decreases s.len(),
{
    if s.len() == 0 {
    } else {
        lemma_unescape_escape(s.drop_first());
        let c = s[0];
        let e = escape_seq(s);
        assert(e == escape_char(c) + escape_seq(s.drop_first()));
        if c == '\\' || c == '"' || c == '\n' || c == '\r' || c == '\t' {
            assert(e[0] == '\\');
            assert(e.len() >= 2);
            assert(unescape_char(e[1]) == Some(c));
            assert(e.skip(2) =~= escape_seq(s.drop_first()));
            assert(unescape_seq(e) == Some(seq![c] + s.drop_first()));
        } else {
            assert(e[0] == c);
            assert(e.drop_first() =~= escape_seq(s.drop_first()));
            assert(unescape_seq(e) == Some(seq![c] + s.drop_first()));
        }
        assert(seq![c] + s.drop_first() =~= s);
    }
}

/// Encodes a field value as the body of a generated string literal.
pub fn escape_rust_string(s: &str) -> (r: String)
    ensures
        r@ == escape_seq(s@),
{
    let n = s.unicode_len();
    let mut out = String::new();
    let mut i: usize = 0;
    while i < n
        invariant
            i <= n,
            n == s@.len(),
            out@ == escape_seq(s@.take(i as int)),
        decreases n - i,
    {
        let c = s.get_char(i);
        if c == '\\' {
            out.push('\\');
            out.push('\\');
        } else if c == '"' {
            out.push('\\');
            out.push('"');
        } else if c == '\n' {
            out.push('\\');
            out.push('n');
        } else if c == '\r' {
            out.push('\\');
            out.push('r');
        } else if c == '\t' {
            out.push('\\');
            out.push('t');
        } else {
            out.push(c);
        }
        proof {
            lemma_escape_snoc(s@.take(i as int), s@[i as int]);
            assert(s@.take(i + 1) =~= s@.take(i as int).push(s@[i as int]));
            assert(out@ =~= escape_seq(s@.take(i as int)) + escape_char(s@[i as int]));
        }
        i = i + 1;
    }
    proof {
        assert(s@.take(n as int) =~= s@);
    }
    out
}

/// Decodes the body of a generated string literal; `None` on a dangling or
/// unrecognized escape.
pub fn unescape_rust_string(s: &str) -> (r: Option<String>)
    ensures
        match r {
            Some(t) => unescape_seq(s@) == Some(t@),
            None => unescape_seq(s@) is None,
        },
{
    let n = s.unicode_len();
    let mut out = String::new();
    let mut i: usize = 0;
    proof {
        assert(s@.skip(0) =~= s@);
        assert(forall|r: Seq<char>| #[trigger] (Seq::<char>::empty() + r) =~= r);
    }
    while i < n
        invariant
            i <= n,
            n == s@.len(),
            unescape_seq(s@) == match unescape_seq(s@.skip(i as int)) {
                Some(r) => Some(out@ + r),
                None => None::<Seq<char>>,
            },
        decreases n - i,
    {
        let c = s.get_char(i);
        let ghost rest = s@.skip(i as int);
        proof {
            assert(rest.len() == n - i);
            assert(rest[0] == s@[i as int]);
        }
        if c == '\\' {
            if i + 1 >= n {
                proof {
                    assert(rest.len() < 2);
                    assert(unescape_seq(rest) is None);
                }
                return None;
            }
            let d = s.get_char(i + 1);
            proof {
                assert(rest[1] == s@[i + 1]);
                assert(rest.skip(2) =~= s@.skip(i + 2));
            }
            if d == '\\' || d == '"' || d == 'n' || d == 'r' || d == 't' {
                let ghost uc = unescape_char(d)->Some_0;
                let ghost out_old = out@;
                if d == '\\' {
                    out.push('\\');
                } else if d == '"' {
                    out.push('"');
                } else if d == 'n' {
                    out.push('\n');
                } else if d == 'r' {
                    out.push('\r');
                } else {
                    out.push('\t');
                }
                proof {
                    assert(out@ == out_old.push(uc));
                    assert(unescape_seq(rest) == match unescape_seq(s@.skip(i + 2)) {
                        Some(r2) => Some(seq![uc] + r2),
                        None => None::<Seq<char>>,
                    });
                    assert(forall|r2: Seq<char>| #[trigger]
                        (out_old.push(uc) + r2) =~= (out_old + (seq![uc] + r2)));
                }
                i = i + 2;
            } else {
                proof {
                    assert(unescape_char(rest[1]) is None);
                    assert(unescape_seq(rest) is None);
                }
                return None;
            }
        } else {
            let ghost out_old = out@;
            out.push(c);
            proof {
                assert(rest.drop_first() =~= s@.skip(i + 1));
                assert(unescape_seq(rest) == match unescape_seq(s@.skip(i + 1)) {
                    Some(r2) => Some(seq![c] + r2),
                    None => None::<Seq<char>>,
                });
                assert(forall|r2: Seq<char>| #[trigger]
                    (out_old.push(c) + r2) =~= (out_old + (seq![c] + r2)));
            }
            i = i + 1;
        }
    }
    proof {
        assert(s@.skip(n as int) =~= Seq::<char>::empty());
        assert(unescape_seq(Seq::<char>::empty()) == Some(Seq::<char>::empty()));
        assert(out@ + Seq::<char>::empty() =~= out@);
    }
    Some(out)
}

/// The HTML entity form of one character, for text interpolated into
/// hand-built HTML.
pub open spec fn html_escape_char(c: char) -> Seq<char> {
    if c == '&' {
        seq!['&', 'a', 'm', 'p', ';']
    } else if c == '<' {
        seq!['&', 'l', 't', ';']
    } else if c == '>' {
        seq!['&', 'g', 't', ';']
    } else if c == '"' {
        seq!['&', 'q', 'u', 'o', 't', ';']
    } else if c == '\'' {
        seq!['&', '#', '3', '9', ';']
    } else {
        seq![c]
    }
}

/// The HTML-escaped form of a whole string.
pub open spec fn html_escape_seq(s: Seq<char>) -> Seq<char>
    decreases s.len(),
{
    if s.len() == 0 {
        Seq::empty()
    } else {
        html_escape_char(s[0]) + html_escape_seq(s.drop_first())
    }
}

/// Appending one character to the input appends that character's entity form
/// to the output.
pub proof fn lemma_html_escape_snoc(s: Seq<char>, c: char)
    ensures
        html_escape_seq(s.push(c)) == html_escape_seq(s) + html_escape_char(c),
    decreases s.len(),
{
    if s.len() == 0 {
        assert(s.push(c)[0] == c);
        assert(s.push(c).drop_first() =~= Seq::<char>::empty());
        assert(html_escape_seq(Seq::<char>::empty()) == Seq::<char>::empty());
        assert(html_escape_seq(s.push(c)) == html_escape_char(c) + Seq::<char>::empty());
        assert(html_escape_char(c) + Seq::<char>::empty() =~= html_escape_char(c));
        assert(html_escape_seq(s) + html_escape_char(c) =~= html_escape_char(c));
    } else {
        assert(s.push(c).drop_first() =~= s.drop_first().push(c));
        lemma_html_escape_snoc(s.drop_first(), c);
        assert(html_escape_char(s[0]) + (html_escape_seq(s.drop_first()) + html_escape_char(c))
            =~= (html_escape_char(s[0]) + html_escape_seq(s.drop_first())) + html_escape_char(c));
        assert(html_escape_seq(s.push(c)) == html_escape_char(s[0]) + html_escape_seq(
            s.drop_first().push(c),
        ));
    }
}

/// Rewrites `&`, `<`, `>`, `"` and `'` into their entity forms.
pub fn html_escape(s: &str) -> (r: String)
    ensures
        r@ == html_escape_seq(s@),
{
    let n = s.unicode_len();
    let mut out = String::new();
    let mut i: usize = 0;
    while i < n
        invariant
            i <= n,
            n == s@.len(),
            out@ == html_escape_seq(s@.take(i as int)),
        decreases n - i,
    {
        let c = s.get_char(i);
        if c == '&' {
            out.push('&');
            out.push('a');
            out.push('m');
            out.push('p');
            out.push(';');
        } else if c == '<' {
            out.push('&');
            out.push('l');
            out.push('t');
            out.push(';');
        } else if c == '>' {
            out.push('&');
            out.push('g');
            out.push('t');
            out.push(';');
        } else if c == '"' {
            out.push('&');
            out.push('q');
            out.push('u');
            out.push('o');
            out.push('t');
            out.push(';');
        } else if c == '\'' {
            out.push('&');
            out.push('#');
            out.push('3');
            out.push('9');
            out.push(';');
        } else {
            out.push(c);
        }
        proof {
            lemma_html_escape_snoc(s@.take(i as int), s@[i as int]);
            assert(s@.take(i + 1) =~= s@.take(i as int).push(s@[i as int]));
            assert(out@ =~= html_escape_seq(s@.take(i as int)) + html_escape_char(s@[i as int]));
        }
        i = i + 1;
    }
    proof {
        assert(s@.take(n as int) =~= s@);
    }
    out
}

} // verus!
