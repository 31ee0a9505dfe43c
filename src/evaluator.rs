use vstd::prelude::*;

use crate::error::CalcError;
use crate::ops::{get_operation, is_operator_text, operation_of, Operations};
use crate::tokenizer::{
    concat, has_no_operator, lemma_scan_append_operand, lemma_scan_push_operator, scan, texts,
    tokens_of,
};

verus! {

/// One step of the left-to-right fold: an operation and the operand it
/// applies to the running result.
#[derive(Debug)]
pub struct Step {
    pub operation: Operations,
    pub operand: String,
}

/// The evaluation of a token sequence, laid out: the operand that starts the
/// running result and the steps that follow, in order. The operands are still
/// text; reading them as numbers is left to the caller.
#[derive(Debug)]
pub struct EvalPlan {
    pub first: String,
    pub steps: Vec<Step>,
}

/// `plan` starts from the first token and pairs each later operator token with
/// the token after it; an operator at the end with nothing after it is left out.
pub open spec fn is_plan_of(plan: EvalPlan, toks: Seq<Seq<char>>) -> bool {
    &&& toks.len() > 0
    &&& plan.first@ == toks[0]
    &&& plan.steps@.len() == (toks.len() - 1) / 2
    &&& forall|k: int|
        0 <= k < plan.steps@.len() ==> {
            &&& (#[trigger] plan.steps@[k]).operation == operation_of(toks[2 * k + 1])
            &&& plan.steps@[k].operand@ == toks[2 * k + 2]
        }
}

/// Lays out the left-to-right evaluation of a token sequence. An empty
/// sequence has no operand to start from.
pub fn plan_evaluation(tokens: &Vec<String>) -> (r: Result<EvalPlan, CalcError>)
    ensures
        r is Err <==> tokens@.len() == 0,
        r is Err ==> r->Err_0 is EmptyBuffer,
        r is Ok ==> is_plan_of(r->Ok_0, texts(tokens@)),
{
    let n = tokens.len();
    if n == 0 {
        return Err(CalcError::EmptyBuffer);
    }
    let ghost toks = texts(tokens@);
    let first = tokens[0].clone();
    let mut steps: Vec<Step> = Vec::new();
    let mut i: usize = 1;
    while i < n - 1
        invariant
            n == tokens@.len(),
            toks == texts(tokens@),
            1 <= i <= n,
            i == 2 * steps@.len() + 1,
            forall|k: int|
                0 <= k < steps@.len() ==> {
                    &&& (#[trigger] steps@[k]).operation == operation_of(toks[2 * k + 1])
                    &&& steps@[k].operand@ == toks[2 * k + 2]
                },
        decreases n - i,
    {
        let operation = match get_operation(tokens[i].clone()) {
            Ok(op) => op,
            Err(_) => Operations::NoneFound,
        };
        let operand = tokens[i + 1].clone();
        steps.push(Step { operation, operand });
        i += 2;
    }
    Ok(EvalPlan { first, steps })
}

/// A well-formed expression: operands and operators in turn, beginning and
/// ending with an operand. An operand is a non-empty text without operator
/// characters; an operator is one operator character.
pub open spec fn is_alternating(toks: Seq<Seq<char>>) -> bool {
    &&& toks.len() % 2 == 1
    &&& forall|k: int|
        0 <= k < toks.len() ==> if k % 2 == 0 {
            (#[trigger] toks[k]).len() > 0 && has_no_operator(toks[k])
        } else {
            is_operator_text(toks[k])
        }
}

/// Each operator character names one of the four operations.
pub proof fn lemma_operator_text_is_known(s: Seq<char>)
    requires
        is_operator_text(s),
    ensures
        operation_of(s) != Operations::NoneFound,
{
    assert(s =~= seq![s[0]]);
}

/// Text that is not one of the four operator characters names no operation;
/// for `NoneFound`, `step_action` keeps the running result as it is.
pub proof fn lemma_unknown_operator_keeps_result(s: Seq<char>)
    requires
        !is_operator_text(s),
    ensures
        operation_of(s) == Operations::NoneFound,
{
    if s.len() == 1 {
        assert(s =~= seq![s[0]]);
    }
}

proof fn lemma_scan_alternating_prefix(toks: Seq<Seq<char>>, m: int)
    requires
        is_alternating(toks),
        1 <= m <= toks.len(),
    ensures
        m % 2 == 1 ==> scan(concat(toks.take(m))) == (toks.take(m - 1), toks[m - 1]),
        m % 2 == 0 ==> scan(concat(toks.take(m))) == (toks.take(m), Seq::<char>::empty()),
    decreases m,
{
    let prev = concat(toks.take(m - 1));
    assert(toks.take(m).drop_last() =~= toks.take(m - 1));
    assert(concat(toks.take(m)) == prev + toks[m - 1]);
    if m == 1 {
        assert(toks.take(0) =~= Seq::<Seq<char>>::empty());
        lemma_scan_append_operand(prev, toks[0]);
        assert(prev + toks[0] =~= toks[0]);
        assert(Seq::<char>::empty() + toks[0] =~= toks[0]);
    } else if m % 2 == 0 {
        lemma_scan_alternating_prefix(toks, m - 1);
        let op = toks[m - 1];
        assert(is_operator_text(op));
        let c = op[0];
        assert(op =~= seq![c]);
        assert(prev + op =~= prev.push(c));
        lemma_scan_push_operator(prev, c);
        assert(toks[m - 2].len() > 0);
        assert(toks.take(m - 2).push(toks[m - 2]).push(op) =~= toks.take(m));
    } else {
        lemma_scan_alternating_prefix(toks, m - 1);
        lemma_scan_append_operand(prev, toks[m - 1]);
        assert(Seq::<char>::empty() + toks[m - 1] =~= toks[m - 1]);
    }
}

/// The tokenizer gives back a well-formed expression unchanged, however it
/// was entered.
pub proof fn lemma_tokenize_alternating(toks: Seq<Seq<char>>)
    requires
        is_alternating(toks),
    ensures
        tokens_of(concat(toks)) == toks,
{
    let n = toks.len() as int;
    lemma_scan_alternating_prefix(toks, n);
    assert(toks.take(n) =~= toks);
    assert(toks[n - 1].len() > 0);
    assert(toks.take(n - 1).push(toks[n - 1]) =~= toks);
}

/// For a buffer that holds a well-formed expression, evaluation starts from
/// its first operand and then applies each operator, from left to right, to
/// the operand that follows it: every token takes part, and every operator is
/// one of the four operations.
pub proof fn lemma_alternating_evaluation(buf: Seq<Seq<char>>, plan: EvalPlan)
    requires
        is_alternating(buf),
        is_plan_of(plan, tokens_of(concat(buf))),
    ensures
        plan.first@ == buf[0],
        2 * plan.steps@.len() + 1 == buf.len(),
        forall|k: int|
            0 <= k < plan.steps@.len() ==> {
                &&& (#[trigger] plan.steps@[k]).operation == operation_of(buf[2 * k + 1])
                &&& plan.steps@[k].operation != Operations::NoneFound
                &&& plan.steps@[k].operand@ == buf[2 * k + 2]
            },
{
    lemma_tokenize_alternating(buf);
    assert forall|k: int| 0 <= k < plan.steps@.len() implies (#[trigger] plan.steps@[
        k
    ]).operation != Operations::NoneFound by {
        assert((2 * k + 1) % 2 == 1);
        lemma_operator_text_is_known(buf[2 * k + 1]);
    }
}

} // verus!
