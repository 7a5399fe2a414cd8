//! Escaping of double quotes, so that arbitrary text can stand inside a
//! double-quoted string literal of the generated code.
//!
//! `escaped` is the mathematical form of the transformation, `escape_quotes`
//! the executable one. `unescaped` reads an escaped text back;
//! `lemma_escape_round_trip` shows that reading back recovers the original
//! exactly, for every input.

use vstd::prelude::*;
use vstd::string::StrSliceExecFns;
use vstd::string::StringExecFns;

verus! {

/// How one character stands inside a double-quoted literal: a double quote
/// gains a preceding backslash, every other character stands as it is.
pub open spec fn escape_char(c: char) -> Seq<char> {
    if c == '"' {
        seq!['\\', '"']
    } else {
        seq![c]
    }
}

/// The escaped form of a text: each character rendered by `escape_char`,
/// in order.
pub open spec fn escaped(s: Seq<char>) -> Seq<char>
    decreases s.len(),
{
    if s.len() == 0 {
        Seq::empty()
    } else {
        escape_char(s[0]) + escaped(s.drop_first())
    }
}

/// Reading an escaped text back: a backslash directly followed by a double
/// quote collapses to the double quote; any other character stands as it is.
pub open spec fn unescaped(s: Seq<char>) -> Seq<char>
    decreases s.len(),
{
    if s.len() == 0 {
        Seq::empty()
    } else if s.len() >= 2 && s[0] == '\\' && s[1] == '"' {
        seq!['"'] + unescaped(s.skip(2))
    } else {
        seq![s[0]] + unescaped(s.drop_first())
    }
}

/// Escaping distributes over concatenation.
pub proof fn lemma_escaped_add(a: Seq<char>, b: Seq<char>)
    ensures
        escaped(a + b) == escaped(a) + escaped(b),
    decreases a.len(),
{
    if a.len() == 0 {
        assert(a + b =~= b);
        assert(escaped(a) + escaped(b) =~= escaped(b));
    } else {
        assert((a + b).drop_first() =~= a.drop_first() + b);
        lemma_escaped_add(a.drop_first(), b);
        assert(escaped(a + b) =~= escaped(a) + escaped(b));
    }
}

/// An escaped text never begins with a bare double quote: the only double
/// quotes it holds are the ones put right after a backslash.
proof fn lemma_escaped_head(s: Seq<char>)
    requires
        s.len() > 0,
    ensures
        escaped(s).len() >= 1,
        escaped(s)[0] != '"',
{
    if s[0] == '"' {
        assert(escaped(s)[0] == '\\');
    } else {
        assert(escaped(s)[0] == s[0]);
    }
}

/// Round trip: unescaping an escaped text gives the original back exactly,
/// whatever characters it held. Escaping loses nothing and is unambiguous
/// to read back.
pub proof fn lemma_escape_round_trip(s: Seq<char>)
    ensures
        unescaped(escaped(s)) == s,
    decreases s.len(),
{
    if s.len() == 0 {
        assert(unescaped(escaped(s)) =~= s);
    } else {
        let rest = s.drop_first();
        lemma_escape_round_trip(rest);
        if s[0] == '"' {
            assert(escaped(s) =~= seq!['\\', '"'] + escaped(rest));
            assert(escaped(s)[0] == '\\' && escaped(s)[1] == '"');
            assert(escaped(s).skip(2) =~= escaped(rest));
            assert(unescaped(escaped(s)) =~= seq![s[0]] + rest);
            assert(seq![s[0]] + rest =~= s);
        } else {
            assert(escaped(s) =~= seq![s[0]] + escaped(rest));
            if escaped(s).len() >= 2 && escaped(s)[0] == '\\' && escaped(s)[1] == '"' {
                // impossible: position 1 is the head of the escaped rest,
                // which is never a bare double quote
                assert(escaped(s)[1] == escaped(rest)[0]);
                if rest.len() == 0 {
                    assert(escaped(rest).len() == 0);
                } else {
                    lemma_escaped_head(rest);
                }
                assert(false);
            }
            assert(escaped(s).drop_first() =~= escaped(rest));
            assert(unescaped(escaped(s)) =~= seq![s[0]] + rest);
            assert(seq![s[0]] + rest =~= s);
        }
    }
}

/// Escaping one character alone renders it by `escape_char`.
proof fn lemma_escaped_singleton(c: char)
    ensures
        escaped(seq![c]) == escape_char(c),
{
    reveal_with_fuel(escaped, 2);
    assert(seq![c].drop_first() =~= Seq::<char>::empty());
    assert(escaped(seq![c]) =~= escape_char(c));
}

/// Renders a text safe for inclusion inside a double-quoted string literal:
/// every double quote comes out preceded by a backslash, and every other
/// character comes out unchanged, in order.
pub fn escape_quotes(s: &str) -> (r: String)
    ensures
        r@ == escaped(s@),
{
    let n = s.unicode_len();
    let mut out = String::new();
    let mut i: usize = 0;
    while i < n
        invariant
            n == s@.len(),
            i <= n,
            out@ == escaped(s@.subrange(0, i as int)),
        decreases n - i,
    {
        let c = s.get_char(i);
        proof {
            lemma_escaped_add(s@.subrange(0, i as int), seq![s@[i as int]]);
            lemma_escaped_singleton(s@[i as int]);
            assert(s@.subrange(0, i as int + 1) =~= s@.subrange(0, i as int) + seq![
                s@[i as int],
            ]);
        }
        if c == '"' {
            proof {
                reveal_strlit("\\\"");
                assert("\\\""@ =~= escape_char('"'));
            }
            out.append("\\\"");
        } else {
            let piece = s.substring_char(i, i + 1);
            proof {
                assert(piece@ =~= seq![s@[i as int]]);
                assert(piece@ =~= escape_char(s@[i as int]));
            }
            out.append(piece);
        }
        assert(out@ =~= escaped(s@.subrange(0, i as int + 1)));
        i = i + 1;
    }
    proof {
        assert(s@.subrange(0, n as int) =~= s@);
    }
    out
}

} // verus!
