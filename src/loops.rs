use vstd::prelude::*;
use crate::env::Env;
use crate::ir::{BasicType, Expr, LoopDirection, Stmt};
use crate::layout::Layout;

verus! {

/// The index an emitted loop starts from.
pub open spec fn first_index(dir: LoopDirection, bound: int) -> int {
    match dir {
        LoopDirection::Ascending => 0,
        LoopDirection::Descending => bound - 1,
    }
}

/// The test made before each pass: unsigned `index < bound` going up,
/// signed `index >= 0` going down.
pub open spec fn keep_going(dir: LoopDirection, index: int, bound: int) -> bool {
    match dir {
        LoopDirection::Ascending => index < bound,
        LoopDirection::Descending => index >= 0,
    }
}

/// The index of the next pass.
pub open spec fn next_index(dir: LoopDirection, index: int) -> int {
    match dir {
        LoopDirection::Ascending => index + 1,
        LoopDirection::Descending => index - 1,
    }
}

/// The indices that the passes from `index` on see, cut off after `fuel`
/// passes.
pub open spec fn run(dir: LoopDirection, index: int, bound: int, fuel: nat) -> Seq<int>
    decreases fuel,
{
    if fuel == 0 || !keep_going(dir, index, bound) {
        Seq::empty()
    } else {
        seq![index] + run(dir, next_index(dir, index), bound, (fuel - 1) as nat)
    }
}

/// The indices that a loop over `bound` runs its body with, in order.
pub open spec fn visits(dir: LoopDirection, bound: nat) -> Seq<int> {
    run(dir, first_index(dir, bound as int), bound as int, bound + 1)
}

proof fn lemma_run_ascending(i: int, b: int, fuel: nat)
    requires
        0 <= i <= b,
        fuel > b - i,
    ensures
        run(LoopDirection::Ascending, i, b, fuel) =~= Seq::new((b - i) as nat, |k: int| i + k),
    decreases b - i,
{
    if i < b {
        lemma_run_ascending(i + 1, b, (fuel - 1) as nat);
    }
}

proof fn lemma_run_descending(i: int, fuel: nat)
    requires
        -1 <= i,
        fuel > i + 1,
    ensures
        run(LoopDirection::Descending, i, 0, fuel) =~= Seq::new((i + 1) as nat, |k: int| i - k),
    decreases i + 1,
{
    if i >= 0 {
        lemma_run_descending(i - 1, (fuel - 1) as nat);
    }
}

/// An ascending loop over `bound` runs its body `bound` times, with the
/// indices `0..bound` in order; a descending one runs it `bound` times, with
/// `bound - 1` down to `0`. Over `0` neither runs it.
pub proof fn lemma_loop_bounds(bound: nat)
    ensures
        visits(LoopDirection::Ascending, bound) =~= Seq::new(bound, |k: int| k),
        visits(LoopDirection::Descending, bound) =~= Seq::new(bound, |k: int| bound - 1 - k),
        visits(LoopDirection::Ascending, 0) =~= Seq::<int>::empty(),
        visits(LoopDirection::Descending, 0) =~= Seq::<int>::empty(),
{
    lemma_run_ascending(0, bound as int, bound + 1);
    lemma_run_descending(bound - 1, bound + 1);
    lemma_run_descending(-1, 1);
    lemma_run_ignores_bound(bound - 1, bound as int, bound + 1);
    lemma_run_ignores_bound(-1, 0, 1);
    assert(run(LoopDirection::Ascending, 0, 0, 1) =~= Seq::<int>::empty());
}

proof fn lemma_run_ignores_bound(i: int, b: int, fuel: nat)
    ensures
        run(LoopDirection::Descending, i, b, fuel) == run(LoopDirection::Descending, i, 0, fuel),
    decreases fuel,
{
    if fuel > 0 && i >= 0 {
        lemma_run_ignores_bound(i - 1, b, (fuel - 1) as nat);
    }
}

/// The indices that a loop over `bound` sees, by running its tests and steps.
pub fn loop_trace(dir: LoopDirection, bound: u64) -> (r: Vec<u64>)
    ensures
        r@.len() == visits(dir, bound as nat).len(),
        forall|k: int| 0 <= k < r@.len() ==> r@[k] as int == visits(dir, bound as nat)[k],
{
    proof {
        lemma_loop_bounds(bound as nat);
    }
    let mut out: Vec<u64> = Vec::new();
    match dir {
        LoopDirection::Ascending => {
            let mut i: u64 = 0;
            while i < bound
                invariant
                    i <= bound,
                    out@.len() == i,
                    forall|k: int| 0 <= k < i ==> out@[k] == k,
                decreases bound - i,
            {
                out.push(i);
                i = i + 1;
            }
        },
        LoopDirection::Descending => {
            let mut i: i128 = bound as i128 - 1;
            while i >= 0
                invariant
                    -1 <= i < bound,
                    out@.len() == bound - 1 - i,
                    forall|k: int| 0 <= k < out@.len() ==> out@[k] == bound - 1 - k,
                decreases i + 1,
            {
                out.push(i as u64);
                i = i - 1;
            }
        },
    }
    out
}

/// Emits a loop that runs `body` for the indices `0..end`, in order, and
/// returns the loop statement's number.
pub fn incrementing_index_loop(env: &mut Env, end: Expr, body: Vec<Stmt>) -> (r: usize)
    ensures
        final(env).ptr_bytes == old(env).ptr_bytes,
        final(env).wrappers == old(env).wrappers,
        final(env).stmts@ == old(env).stmts@.push(
            Stmt::Loop { direction: LoopDirection::Ascending, bound: end, elements: None, body },
        ),
        r == old(env).stmts@.len(),
{
    env.emit(Stmt::Loop { direction: LoopDirection::Ascending, bound: end, elements: None, body })
}

/// Emits a loop that runs `body` for the indices `end - 1` down to `0`.
pub fn decrementing_index_loop(env: &mut Env, end: Expr, body: Vec<Stmt>) -> (r: usize)
    ensures
        final(env).ptr_bytes == old(env).ptr_bytes,
        final(env).wrappers == old(env).wrappers,
        final(env).stmts@ == old(env).stmts@.push(
            Stmt::Loop { direction: LoopDirection::Descending, bound: end, elements: None, body },
        ),
        r == old(env).stmts@.len(),
{
    env.emit(Stmt::Loop { direction: LoopDirection::Descending, bound: end, elements: None, body })
}

/// Emits a loop over the `len` elements of layout `elem_layout` at `ptr`,
/// first to last; `body` sees each index and the element loaded there.
pub fn incrementing_elem_loop(env: &mut Env, ptr: Expr, elem_layout: &Layout, len: Expr, body: Vec<Stmt>) -> (r: usize)
    ensures
        final(env).ptr_bytes == old(env).ptr_bytes,
        final(env).wrappers == old(env).wrappers,
        final(env).stmts@ == old(env).stmts@.push(
            Stmt::Loop { direction: LoopDirection::Ascending, bound: len, elements: Some((ptr, *elem_layout)), body },
        ),
        r == old(env).stmts@.len(),
{
    env.emit(Stmt::Loop { direction: LoopDirection::Ascending, bound: len, elements: Some((ptr, elem_layout.copy())), body })
}

/// Emits a loop over the `len` elements of layout `elem_layout` at `ptr`,
/// last to first.
pub fn decrementing_elem_loop(env: &mut Env, ptr: Expr, elem_layout: &Layout, len: Expr, body: Vec<Stmt>) -> (r: usize)
    ensures
        final(env).ptr_bytes == old(env).ptr_bytes,
        final(env).wrappers == old(env).wrappers,
        final(env).stmts@ == old(env).stmts@.push(
            Stmt::Loop { direction: LoopDirection::Descending, bound: len, elements: Some((ptr, *elem_layout)), body },
        ),
        r == old(env).stmts@.len(),
{
    env.emit(Stmt::Loop { direction: LoopDirection::Descending, bound: len, elements: Some((ptr, elem_layout.copy())), body })
}

/// Emits a branch on `comparison` that runs exactly one of the two bodies
/// and binds the value of the one taken; both values have type `ret_type`.
pub fn build_basic_phi2(
    env: &mut Env,
    comparison: Expr,
    then_body: Vec<Stmt>,
    then_value: Expr,
    then_type: BasicType,
    else_body: Vec<Stmt>,
    else_value: Expr,
    else_type: BasicType,
    ret_type: BasicType,
) -> (r: Expr)
    requires
        then_type == ret_type,
        else_type == ret_type,
    ensures
        final(env).ptr_bytes == old(env).ptr_bytes,
        final(env).wrappers == old(env).wrappers,
        final(env).stmts@ == old(env).stmts@.push(
            Stmt::Branch { cond: comparison, then_body, then_value, else_body, else_value, ty: ret_type },
        ),
        r == Expr::Reg(old(env).stmts@.len() as usize),
{
    let n = env.emit(Stmt::Branch { cond: comparison, then_body, then_value, else_body, else_value, ty: ret_type });
    Expr::Reg(n)
}

} // verus!
