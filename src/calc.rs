use vstd::prelude::*;

use crate::error::CalcError;
use crate::evaluator::{is_plan_of, plan_evaluation, EvalPlan};
use crate::tokenizer::{concat, texts, tokenize, tokens_of};

verus! {

/// The screen buffer: the tokens entered so far, in entry order. Any text is
/// accepted as a token.
#[derive(Debug)]
pub struct CalcState {
    pub expressions: Vec<String>,
}

/// A token sent by the user, to be appended to the screen.
#[derive(Debug)]
pub struct CalcRequest {
    pub expression: String,
}

impl View for CalcState {
    type V = Seq<Seq<char>>;

    open spec fn view(&self) -> Seq<Seq<char>> {
        texts(self.expressions@)
    }
}

/// The buffer after removing its last token; an empty buffer stays empty.
pub open spec fn after_pop(buf: Seq<Seq<char>>) -> Seq<Seq<char>> {
    if buf.len() == 0 {
        buf
    } else {
        buf.drop_last()
    }
}

/// The buffer after clearing: empty, whatever it held.
pub open spec fn after_clear(buf: Seq<Seq<char>>) -> Seq<Seq<char>> {
    Seq::empty()
}

/// The buffer after pushing `toks` onto it one at a time.
pub open spec fn after_pushes(buf: Seq<Seq<char>>, toks: Seq<Seq<char>>) -> Seq<Seq<char>>
    decreases toks.len(),
{
    if toks.len() == 0 {
        buf
    } else {
        after_pushes(buf, toks.drop_last()).push(toks.last())
    }
}

/// Pushing tokens one at a time appends them in entry order, and clearing
/// afterwards leaves an empty buffer, whatever the buffer held before.
pub proof fn lemma_push_then_clear(buf: Seq<Seq<char>>, toks: Seq<Seq<char>>)
    ensures
        after_pushes(buf, toks) == buf + toks,
        after_clear(after_pushes(buf, toks)) == Seq::<Seq<char>>::empty(),
    decreases toks.len(),
{
    if toks.len() == 0 {
        assert(buf + toks =~= buf);
    } else {
        lemma_push_then_clear(buf, toks.drop_last());
        assert((buf + toks.drop_last()).push(toks.last()) =~= buf + toks);
    }
}

/// The tokens of the buffer's characters, as the evaluator reads them.
pub open spec fn buffer_tokens(buf: Seq<Seq<char>>) -> Seq<Seq<char>> {
    tokens_of(concat(buf))
}

impl CalcState {
    /// An empty screen.
    pub fn new() -> (r: CalcState)
        ensures
            r@ == Seq::<Seq<char>>::empty(),
    {
        let r = CalcState { expressions: Vec::new() };
        proof {
            assert(r@ =~= Seq::<Seq<char>>::empty());
        }
        r
    }

    /// A copy of the tokens on the screen, in entry order.
    pub fn contents(&self) -> (r: Vec<String>)
        ensures
            texts(r@) == self@,
    {
        let mut out: Vec<String> = Vec::new();
        let mut i: usize = 0;
        while i < self.expressions.len()
            invariant
                i <= self.expressions@.len(),
                texts(out@) =~= self@.take(i as int),
            decreases self.expressions.len() - i,
        {
            let ghost before = texts(out@);
            out.push(self.expressions[i].clone());
            proof {
                assert(texts(out@) =~= before.push(self@[i as int]));
                assert(self@.take(i + 1) =~= self@.take(i as int).push(self@[i as int]));
            }
            i += 1;
        }
        proof {
            assert(self@.take(i as int) =~= self@);
        }
        out
    }

    /// Appends a token to the screen and returns the new contents.
    pub fn push(&mut self, token: String) -> (r: Vec<String>)
        ensures
            final(self)@ == old(self)@.push(token@),
            texts(r@) == final(self)@,
    {
        let ghost t = token@;
        self.expressions.push(token);
        proof {
            assert(self@ =~= old(self)@.push(t));
        }
        self.contents()
    }

    /// Removes the last token, if there is one, and returns the new contents.
    pub fn pop_last(&mut self) -> (r: Vec<String>)
        ensures
            final(self)@ == after_pop(old(self)@),
            old(self)@.len() == 0 ==> final(self)@.len() == 0,
            texts(r@) == final(self)@,
    {
        self.expressions.pop();
        proof {
            assert(self@ =~= after_pop(old(self)@));
        }
        self.contents()
    }

    /// Empties the screen and returns the new (empty) contents.
    pub fn clear_all(&mut self) -> (r: Vec<String>)
        ensures
            final(self)@ == after_clear(old(self)@),
            r@.len() == 0,
    {
        self.expressions.clear();
        proof {
            assert(self@ =~= Seq::<Seq<char>>::empty());
        }
        self.contents()
    }

    /// The first token, which a percentage is taken of.
    pub fn first_token(&self) -> (r: Result<String, CalcError>)
        ensures
            r is Err <==> self@.len() == 0,
            r is Err ==> r->Err_0 is EmptyBuffer,
            r is Ok ==> r->Ok_0@ == self@[0],
    {
        if self.expressions.len() == 0 {
            Err(CalcError::EmptyBuffer)
        } else {
            Ok(self.expressions[0].clone())
        }
    }

    /// Tokenizes the screen's characters and lays out their left-to-right
    /// evaluation. Fails with `EmptyBuffer` when there is no token at all.
    pub fn evaluation_plan(&self) -> (r: Result<EvalPlan, CalcError>)
        ensures
            r is Err <==> buffer_tokens(self@).len() == 0,
            r is Err ==> r->Err_0 is EmptyBuffer,
            r is Ok ==> is_plan_of(r->Ok_0, buffer_tokens(self@)),
    {
        let tokens = tokenize(&self.expressions);
        plan_evaluation(&tokens)
    }

    /// Ends a percentage or an evaluation: on success the screen holds the
    /// result alone; on failure it is left as it was and the error is passed on.
    pub fn apply_outcome(&mut self, outcome: Result<String, CalcError>) -> (r: Result<
        Vec<String>,
        CalcError,
    >)
        ensures
            outcome is Err ==> *final(self) == *old(self) && r is Err && r->Err_0 == outcome->Err_0,
            outcome is Ok ==> final(self)@ == seq![outcome->Ok_0@] && r is Ok && texts(
                r->Ok_0@,
            ) == final(self)@,
    {
        match outcome {
            Ok(text) => {
                self.expressions.clear();
                let r = self.push(text);
                proof {
                    assert(old(self)@.take(0) =~= Seq::<Seq<char>>::empty());
                }
                Ok(r)
            },
            Err(e) => Err(e),
        }
    }
}

} // verus!
