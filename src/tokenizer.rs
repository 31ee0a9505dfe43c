use vstd::prelude::*;

use crate::ops::{is_operator_char, is_operator_char_spec};

verus! {

/// The texts of a sequence of strings.
pub open spec fn texts(v: Seq<String>) -> Seq<Seq<char>> {
    v.map_values(|s: String| s@)
}

/// All tokens written one after another, as one character stream.
pub open spec fn concat(buf: Seq<Seq<char>>) -> Seq<char>
    decreases buf.len(),
{
    if buf.len() == 0 {
        Seq::empty()
    } else {
        concat(buf.drop_last()) + buf.last()
    }
}

/// The tokens emitted so far, followed by the pending numeric fragment if
/// there is one.
pub open spec fn flush(toks: Seq<Seq<char>>, frag: Seq<char>) -> Seq<Seq<char>> {
    if frag.len() == 0 {
        toks
    } else {
        toks.push(frag)
    }
}

/// One character of the scan: an operator closes the pending fragment and is
/// emitted on its own; any other character joins the fragment.
pub open spec fn scan_char(state: (Seq<Seq<char>>, Seq<char>), c: char) -> (
    Seq<Seq<char>>,
    Seq<char>,
) {
    if is_operator_char_spec(c) {
        (flush(state.0, state.1).push(seq![c]), Seq::empty())
    } else {
        (state.0, state.1.push(c))
    }
}

/// The scan state after reading `s` from left to right: the emitted tokens and
/// the pending numeric fragment.
pub open spec fn scan(s: Seq<char>) -> (Seq<Seq<char>>, Seq<char>)
    decreases s.len(),
{
    if s.len() == 0 {
        (Seq::empty(), Seq::empty())
    } else {
        scan_char(scan(s.drop_last()), s.last())
    }
}

/// The operands and operators of a character stream, in order.
pub open spec fn tokens_of(s: Seq<char>) -> Seq<Seq<char>> {
    flush(scan(s).0, scan(s).1)
}

/// A text with no operator character in it.
pub open spec fn has_no_operator(t: Seq<char>) -> bool {
    forall|j: int| 0 <= j < t.len() ==> !is_operator_char_spec(#[trigger] t[j])
}

/// Characters that are no operators join the pending fragment and emit nothing.
pub proof fn lemma_scan_append_operand(s: Seq<char>, w: Seq<char>)
    requires
        has_no_operator(w),
    ensures
        scan(s + w) == (scan(s).0, scan(s).1 + w),
    decreases w.len(),
{
    if w.len() == 0 {
        assert(s + w =~= s);
        assert(scan(s).1 + w =~= scan(s).1);
    } else {
        let wd = w.drop_last();
        assert(has_no_operator(wd)) by {
            assert forall|j: int| 0 <= j < wd.len() implies !is_operator_char_spec(
                #[trigger] wd[j],
            ) by {
                assert(wd[j] == w[j]);
            }
        }
        lemma_scan_append_operand(s, wd);
        assert((s + w).drop_last() =~= s + wd);
        assert((s + w).last() == w[w.len() - 1]);
        assert(!is_operator_char_spec(w[w.len() - 1]));
        assert((scan(s).1 + wd).push(w[w.len() - 1]) =~= scan(s).1 + w);
    }
}

/// An operator character closes the pending fragment and is emitted on its own.
pub proof fn lemma_scan_push_operator(s: Seq<char>, c: char)
    requires
        is_operator_char_spec(c),
    ensures
        scan(s.push(c)) == (flush(scan(s).0, scan(s).1).push(seq![c]), Seq::<char>::empty()),
{
    assert(s.push(c).drop_last() =~= s);
}

/// Writes the buffer's tokens one after another into one string.
pub fn join_tokens(expressions: &Vec<String>) -> (r: String)
    ensures
        r@ == concat(texts(expressions@)),
{
    let ghost all = texts(expressions@);
    let mut out = String::new();
    let mut i: usize = 0;
    while i < expressions.len()
        invariant
            i <= expressions.len(),
            all == texts(expressions@),
            out@ == concat(all.take(i as int)),
        decreases expressions.len() - i,
    {
        out.append(expressions[i].as_str());
        proof {
            assert(all.take(i + 1).drop_last() =~= all.take(i as int));
        }
        i += 1;
    }
    proof {
        assert(all.take(i as int) =~= all);
    }
    out
}

/// Regroups the buffer's characters into operands and operators.
pub fn tokenize(expressions: &Vec<String>) -> (r: Vec<String>)
    ensures
        texts(r@) == tokens_of(concat(texts(expressions@))),
{
    let line = join_tokens(expressions);
    let s = line.as_str();
    let n = s.unicode_len();
    let mut tokens: Vec<String> = Vec::new();
    let mut start: usize = 0;
    let mut i: usize = 0;
    proof {
        assert(s@.take(0) =~= Seq::<char>::empty());
        assert(texts(tokens@) =~= Seq::<Seq<char>>::empty());
        assert(s@.subrange(0, 0) =~= Seq::<char>::empty());
    }
    while i < n
        invariant
            n == s@.len(),
            start <= i <= n,
            scan(s@.take(i as int)).0 == texts(tokens@),
            scan(s@.take(i as int)).1 == s@.subrange(start as int, i as int),
        decreases n - i,
    {
        let c = s.get_char(i);
        let ghost before = texts(tokens@);
        proof {
            assert(s@.take(i + 1).drop_last() =~= s@.take(i as int));
            assert(s@.take(i + 1).last() == c);
        }
        if is_operator_char(c) {
            if start < i {
                let frag = s.substring_char(start, i).to_owned();
                tokens.push(frag);
                proof {
                    assert(texts(tokens@) =~= before.push(s@.subrange(start as int, i as int)));
                }
            }
            let ghost mid = texts(tokens@);
            let op = s.substring_char(i, i + 1).to_owned();
            tokens.push(op);
            proof {
                assert(op@ =~= seq![c]);
                assert(texts(tokens@) =~= mid.push(seq![c]));
                assert(s@.subrange(i + 1, i + 1) =~= Seq::<char>::empty());
            }
            start = i + 1;
        } else {
            proof {
                assert(s@.subrange(start as int, i + 1) =~= s@.subrange(
                    start as int,
                    i as int,
                ).push(c));
            }
        }
        i += 1;
    }
    proof {
        assert(s@.take(n as int) =~= s@);
    }
    if start < n {
        let ghost before = texts(tokens@);
        let frag = s.substring_char(start, n).to_owned();
        tokens.push(frag);
        proof {
            assert(texts(tokens@) =~= before.push(s@.subrange(start as int, n as int)));
        }
    }
    tokens
}

} // verus!
