//! Quoting of command-line tokens for a POSIX shell, and a model of how such a
//! shell reads a quoted word back.
use vstd::prelude::*;
use crate::text::chars_vec;

verus! {

/// Characters that a POSIX shell takes literally outside quotes, anywhere in a word:
/// ASCII letters and digits and `- _ . / : = @ , + %`.
pub open spec fn is_safe(c: char) -> bool {
    ('a' <= c && c <= 'z') || ('A' <= c && c <= 'Z') || ('0' <= c && c <= '9') || c == '-'
        || c == '_' || c == '.' || c == '/' || c == ':' || c == '=' || c == '@' || c == ','
        || c == '+' || c == '%'
}

/// Characters that make a token need quoting: every one outside the safe set.
pub open spec fn is_special(c: char) -> bool {
    !is_safe(c)
}

/// Whether a token holds a character that needs quoting.
pub open spec fn has_special(s: Seq<char>) -> bool {
    exists|i: int| 0 <= i < s.len() && is_special(#[trigger] s[i])
}

/// How one character stands inside single quotes: a single quote closes the
/// quotes, appears escaped, and reopens them.
pub open spec fn quoted_char(c: char) -> Seq<char> {
    if c == '\'' {
        seq!['\'', '\\', '\'', '\'']
    } else {
        seq![c]
    }
}

/// The characters of `s`, each as it stands inside single quotes.
pub open spec fn quoted_body(s: Seq<char>) -> Seq<char>
    decreases s.len(),
{
    if s.len() == 0 {
        Seq::empty()
    } else {
        quoted_char(s[0]) + quoted_body(s.drop_first())
    }
}

/// A token as written for the shell: an empty one as `''`; one without a special
/// character as it is; any other in single quotes.
pub open spec fn shell_escaped(s: Seq<char>) -> Seq<char> {
    if s.len() == 0 {
        seq!['\'', '\'']
    } else if !has_special(s) {
        s
    } else {
        seq!['\''] + quoted_body(s) + seq!['\'']
    }
}

/// The characters a POSIX shell reads from the word `w`, in single quotes where
/// `in_quotes`: a single quote opens or closes quotes, and outside them a backslash
/// takes the next character literally.
pub open spec fn shell_read(w: Seq<char>, in_quotes: bool) -> Seq<char>
    decreases w.len(),
{
    if w.len() == 0 {
        Seq::empty()
    } else if in_quotes {
        if w[0] == '\'' {
            shell_read(w.drop_first(), false)
        } else {
            seq![w[0]] + shell_read(w.drop_first(), true)
        }
    } else if w[0] == '\'' {
        shell_read(w.drop_first(), true)
    } else if w[0] == '\\' && w.len() >= 2 {
        seq![w[1]] + shell_read(w.subrange(2, w.len() as int), false)
    } else {
        seq![w[0]] + shell_read(w.drop_first(), false)
    }
}

/// Whether the word `w` holds a blank outside quotes, where a shell would split it.
pub open spec fn splits(w: Seq<char>, in_quotes: bool) -> bool
    decreases w.len(),
{
    if w.len() == 0 {
        false
    } else if in_quotes {
        if w[0] == '\'' {
            splits(w.drop_first(), false)
        } else {
            splits(w.drop_first(), true)
        }
    } else if w[0] == '\'' {
        splits(w.drop_first(), true)
    } else if w[0] == '\\' && w.len() >= 2 {
        splits(w.subrange(2, w.len() as int), false)
    } else {
        w[0] == ' ' || w[0] == '\t' || w[0] == '\n' || splits(w.drop_first(), false)
    }
}

proof fn lemma_quoted_body_concat(a: Seq<char>, b: Seq<char>)
    ensures
        quoted_body(a + b) == quoted_body(a) + quoted_body(b),
    decreases a.len(),
{
    if a.len() == 0 {
        assert(a + b =~= b);
    } else {
        assert((a + b).drop_first() =~= a.drop_first() + b);
        lemma_quoted_body_concat(a.drop_first(), b);
    }
}

proof fn lemma_quoted_single(c: char)
    ensures
        quoted_body(seq![c]) == quoted_char(c),
{
    let s = seq![c];
    assert(s.drop_first() =~= Seq::<char>::empty());
    assert(quoted_body(s) == quoted_char(s[0]) + quoted_body(s.drop_first()));
    assert(quoted_char(c) + Seq::<char>::empty() =~= quoted_char(c));
}

proof fn lemma_read_quoted(s: Seq<char>)
    ensures
        shell_read(quoted_body(s) + seq!['\''], true) == s,
        !splits(quoted_body(s) + seq!['\''], true),
    decreases s.len(),
{
    let w = quoted_body(s) + seq!['\''];
    if s.len() == 0 {
        assert(w =~= seq!['\'']);
        assert(w.drop_first() =~= Seq::<char>::empty());
        assert(s =~= Seq::<char>::empty());
        assert(shell_read(w, true) == shell_read(w.drop_first(), false));
        assert(splits(w, true) == splits(w.drop_first(), false));
    } else {
        let rest = quoted_body(s.drop_first()) + seq!['\''];
        lemma_read_quoted(s.drop_first());
        assert(w =~= quoted_char(s[0]) + rest);
        if s[0] == '\'' {
            let w1 = w.drop_first();
            assert(w[0] == '\'');
            assert(w1 =~= seq!['\\', '\'', '\''] + rest);
            assert(w1[0] == '\\' && w1[1] == '\'');
            let w2 = w1.subrange(2, w1.len() as int);
            assert(w2 =~= seq!['\''] + rest);
            assert(w2[0] == '\'');
            assert(w2.drop_first() =~= rest);
            assert(shell_read(w2, false) == shell_read(rest, true));
            assert(shell_read(w1, false) == seq!['\''] + shell_read(w2, false));
            assert(shell_read(w, true) == shell_read(w1, false));
            assert(!splits(w2, false));
            assert(!splits(w1, false));
            assert(s =~= seq!['\''] + s.drop_first());
        } else {
            assert(w[0] == s[0]);
            assert(w.drop_first() =~= rest);
            assert(shell_read(w, true) == seq![s[0]] + shell_read(rest, true));
            assert(s =~= seq![s[0]] + s.drop_first());
        }
    }
}

proof fn lemma_read_plain(s: Seq<char>)
    requires
        !has_special(s),
    ensures
        shell_read(s, false) == s,
        !splits(s, false),
    decreases s.len(),
{
    if s.len() > 0 {
        assert(!is_special(s[0]));
        assert(!has_special(s.drop_first())) by {
            assert forall|i: int| 0 <= i < s.drop_first().len() implies !is_special(
                #[trigger] s.drop_first()[i],
            ) by {
                assert(s.drop_first()[i] == s[i + 1]);
            }
        }
        lemma_read_plain(s.drop_first());
        assert(s =~= seq![s[0]] + s.drop_first());
    }
}

/// Every token, once escaped, is read back by a POSIX shell as exactly that token,
/// and as one word.
pub proof fn lemma_escape_round_trip(s: Seq<char>)
    ensures
        shell_read(shell_escaped(s), false) == s,
        !splits(shell_escaped(s), false),
{
    let w = shell_escaped(s);
    if s.len() == 0 {
        let q = seq!['\'', '\''];
        assert(q.drop_first() =~= seq!['\'']);
        assert(q.drop_first().drop_first() =~= Seq::<char>::empty());
        assert(shell_read(q, false) == shell_read(q.drop_first(), true));
        assert(shell_read(q.drop_first(), true) == shell_read(q.drop_first().drop_first(), false));
        assert(splits(q, false) == splits(q.drop_first(), true));
        assert(splits(q.drop_first(), true) == splits(q.drop_first().drop_first(), false));
        assert(s =~= Seq::<char>::empty());
    } else if !has_special(s) {
        lemma_read_plain(s);
    } else {
        lemma_read_quoted(s);
        assert(w.drop_first() =~= quoted_body(s) + seq!['\'']);
    }
}

/// Quotes `input` for a POSIX shell command line.
pub fn shell_escape(input: &str) -> (r: String)
    ensures
        r@ == shell_escaped(input@),
{
    let chars = chars_vec(input);
    let n = chars.len();
    if n == 0 {
        proof {
            reveal_strlit("''");
        }
        return String::from_str("''");
    }
    let mut i: usize = 0;
    let mut special = false;
    while i < n
        invariant
            n == chars@.len(),
            i <= n,
            !special ==> forall|j: int| 0 <= j < i ==> !is_special(#[trigger] chars@[j]),
            special ==> has_special(chars@),
        decreases n - i,
    {
        let c = chars[i];
        let safe = ('a' <= c && c <= 'z') || ('A' <= c && c <= 'Z') || ('0' <= c && c <= '9')
            || c == '-' || c == '_' || c == '.' || c == '/' || c == ':' || c == '=' || c == '@'
            || c == ',' || c == '+' || c == '%';
        if !safe {
            special = true;
        }
        i = i + 1;
    }
    if !special {
        return String::from_str(input);
    }
    proof {
        reveal_strlit("'");
        reveal_strlit("'\\''");
    }
    let mut out = String::from_str("'");
    let mut k: usize = 0;
    assert(chars@.subrange(0, 0) =~= Seq::<char>::empty());
    while k < n
        invariant
            n == chars@.len(),
            chars@ == input@,
            k <= n,
            out@ == seq!['\''] + quoted_body(chars@.subrange(0, k as int)),
        decreases n - k,
    {
        proof {
            lemma_quoted_body_concat(chars@.subrange(0, k as int), seq![chars@[k as int]]);
            assert(chars@.subrange(0, k + 1) =~= chars@.subrange(0, k as int) + seq![chars@[k as int]]);
            assert(seq![chars@[k as int]].drop_first() =~= Seq::<char>::empty());
        }
        proof {
            lemma_quoted_single(chars@[k as int]);
        }
        let ghost before = out@;
        if chars[k] == '\'' {
            out.append("'\\''");
            proof {
                reveal_strlit("'\\''");
            }
            assert("'\\''"@ =~= quoted_char(chars@[k as int]));
        } else {
            out.append(input.substring_char(k, k + 1));
            assert(input@.subrange(k as int, k + 1) =~= quoted_char(chars@[k as int]));
        }
        assert(out@ =~= seq!['\''] + quoted_body(chars@.subrange(0, k + 1)));
        k = k + 1;
    }
    out.append("'");
    assert(chars@.subrange(0, n as int) =~= chars@);
    out
}

} // verus!
