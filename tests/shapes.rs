use list_lowering::env::Env;
use list_lowering::ir::{BasicType, Expr, LoopDirection, Stmt};
use list_lowering::layout::{Builtin, Layout, MemoryMode};
use list_lowering::loops::{
    build_basic_phi2, decrementing_elem_loop, decrementing_index_loop, incrementing_elem_loop,
    incrementing_index_loop, loop_trace,
};

#[test]
fn ascending_loop_visits_each_index_in_order() {
    assert_eq!(loop_trace(LoopDirection::Ascending, 4), vec![0, 1, 2, 3]);
    assert_eq!(loop_trace(LoopDirection::Ascending, 1), vec![0]);
}

#[test]
fn descending_loop_visits_each_index_backwards() {
    assert_eq!(loop_trace(LoopDirection::Descending, 4), vec![3, 2, 1, 0]);
    assert_eq!(loop_trace(LoopDirection::Descending, 1), vec![0]);
}

#[test]
fn loops_over_zero_do_not_run() {
    assert!(loop_trace(LoopDirection::Ascending, 0).is_empty());
    assert!(loop_trace(LoopDirection::Descending, 0).is_empty());
}

#[test]
fn loop_builders_emit_loops() {
    let mut env = Env::new(8);
    let a = incrementing_index_loop(&mut env, Expr::Operand(1), vec![]);
    let b = decrementing_index_loop(&mut env, Expr::Operand(1), vec![]);
    let c = incrementing_elem_loop(&mut env, Expr::Operand(2), &Layout::Unit, Expr::Operand(1), vec![Stmt::StackSlot(Layout::Unit)]);
    let d = decrementing_elem_loop(&mut env, Expr::Operand(2), &Layout::Unit, Expr::Operand(1), vec![]);
    assert_eq!((a, b, c, d), (0, 1, 2, 3));
    assert_eq!(
        env.stmts[1],
        Stmt::Loop {
            direction: LoopDirection::Descending,
            bound: Expr::Operand(1),
            elements: None,
            body: vec![]
        }
    );
    assert_eq!(
        env.stmts[2],
        Stmt::Loop {
            direction: LoopDirection::Ascending,
            bound: Expr::Operand(1),
            elements: Some((Expr::Operand(2), Layout::Unit)),
            body: vec![Stmt::StackSlot(Layout::Unit)]
        }
    );
}

#[test]
fn branch_binds_merged_value() {
    let mut env = Env::new(8);
    env.stack_slot(&Layout::Unit);
    let r = build_basic_phi2(
        &mut env,
        Expr::Operand(1),
        vec![],
        Expr::Int(1),
        BasicType::Int(64),
        vec![],
        Expr::Int(2),
        BasicType::Int(64),
        BasicType::Int(64),
    );
    assert_eq!(r, Expr::Reg(1));
    assert!(matches!(env.stmts[1], Stmt::Branch { ty: BasicType::Int(64), .. }));
}

#[test]
fn layout_sizes_and_alignments() {
    let list = Layout::Builtin(Builtin::List(MemoryMode::Unique, Box::new(Layout::Builtin(Builtin::Int8))));
    assert_eq!(list.stack_size(8), 16);
    assert_eq!(list.stack_size(4), 8);
    assert_eq!(list.alignment_bytes(4), 4);
    assert_eq!(Layout::Builtin(Builtin::Int128).alignment_bytes(8), 16);
    assert_eq!(Layout::Builtin(Builtin::Usize).stack_size(4), 4);
    let closure = Layout::Closure(Box::new(Layout::Builtin(Builtin::Int16)), Box::new(list.copy()));
    assert_eq!(closure.stack_size(8), 2);
    assert!(closure.safe_to_memcpy());
    assert!(!list.safe_to_memcpy());
    assert!(Layout::Builtin(Builtin::EmptyList).safe_to_memcpy());
    assert!(!Layout::RecursivePointer.safe_to_memcpy());
    assert!(list.same_as(&list.copy()));
    assert!(!list.same_as(&closure));
}

#[test]
fn record_layouts() {
    let record = Layout::Struct(
        Box::new(Layout::Builtin(Builtin::Int8)),
        Box::new(Layout::Struct(Box::new(Layout::Builtin(Builtin::Int32)), Box::new(Layout::Unit))),
    );
    assert_eq!(record.stack_size(8), 5);
    assert_eq!(record.alignment_bytes(8), 4);
    assert!(record.safe_to_memcpy());
    assert_eq!(Layout::Unit.stack_size(8), 0);
    assert_eq!(Layout::Unit.alignment_bytes(4), 1);
    let with_string = Layout::Struct(
        Box::new(Layout::Builtin(Builtin::Str)),
        Box::new(record.copy()),
    );
    assert_eq!(with_string.stack_size(4), 13);
    assert!(!with_string.safe_to_memcpy());
    assert!(with_string.same_as(&with_string.copy()));
    assert!(!with_string.same_as(&record));
}
