use list_lowering::abi::{empty_list_value, list_from_boundary, list_to_boundary, ListValue};
use list_lowering::build_list::{
    allocate_list, empty_list, empty_polymorphic_list, list_append, list_concat, list_contains,
    list_drop, list_get_unsafe, list_join, list_keep_errs, list_keep_if, list_keep_oks,
    list_keep_result, list_map, list_map2, list_map3, list_map_with_index, list_prepend,
    list_range, list_repeat, list_reverse, list_set, list_single, list_sort_with,
    list_walk_generic, IntWidth, ListWalk,
};
use list_lowering::env::{Env, WrapperKind};
use list_lowering::ir::{
    list_returned_from_zig, pass_list_as_i128, Expr, ListOp, LowerError, RcInit, RocFunctionCall,
    RuntimeFn, Stmt,
};
use list_lowering::layout::{Builtin, InPlace, Layout, MemoryMode};

fn int64() -> Layout {
    Layout::Builtin(Builtin::Int64)
}

fn string() -> Layout {
    Layout::Builtin(Builtin::Str)
}

fn list_of(e: Layout) -> Layout {
    Layout::Builtin(Builtin::List(MemoryMode::Refcounted, Box::new(e)))
}

fn callback() -> RocFunctionCall {
    RocFunctionCall {
        caller: Expr::Operand(10),
        data: Expr::Operand(11),
        inc_n_data: Expr::Operand(12),
        data_is_owned: Expr::Operand(13),
    }
}

fn callback_args() -> Vec<Expr> {
    vec![
        Expr::Operand(10),
        Expr::ToOpaque(Box::new(Expr::Operand(11))),
        Expr::Operand(12),
        Expr::Operand(13),
    ]
}

fn list_call(f: RuntimeFn, args: Vec<Expr>) -> Expr {
    Expr::FromBoundary(Box::new(Expr::Call(f, args)))
}

fn boundary(id: u64) -> Expr {
    Expr::ToBoundary(Box::new(Expr::Operand(id)))
}

fn slot(n: usize) -> Expr {
    Expr::ToOpaque(Box::new(Expr::Slot(n)))
}

#[test]
fn single_of_eight_byte_value() {
    let mut env = Env::new(8);
    let r = list_single(&mut env, Expr::Operand(1), &int64());
    assert_eq!(
        env.stmts,
        vec![Stmt::StackSlot(int64()), Stmt::Store { ptr: Expr::Slot(0), value: Expr::Operand(1) }]
    );
    assert_eq!(
        r,
        list_call(RuntimeFn::ListSingle, vec![Expr::Int(8), slot(0), Expr::Int(8)])
    );
}

#[test]
fn concat_of_two_empty_lists_is_canonical_empty() {
    let env = Env::new(8);
    let r = list_concat(&env, empty_list(), empty_list(), &Layout::Builtin(Builtin::EmptyList));
    assert_eq!(r, Ok(Expr::ConstList(ListValue { ptr: 0, len: 0 })));
    assert_eq!(r, Ok(empty_polymorphic_list()));
    let typed = list_concat(&env, empty_list(), empty_list(), &list_of(int64()));
    assert_eq!(
        typed,
        Ok(list_call(
            RuntimeFn::ListConcat,
            vec![Expr::Wide(0), Expr::Wide(0), Expr::Int(8), Expr::Int(8)]
        ))
    );
}

#[test]
fn append_refcounted_element() {
    let mut env = Env::new(8);
    let r = list_append(&mut env, Expr::Operand(1), Expr::Operand(2), &string());
    assert_eq!(
        r,
        list_call(RuntimeFn::ListAppend, vec![boundary(1), Expr::Int(8), slot(0), Expr::Int(16)])
    );
    assert_eq!(env.stmts.len(), 2);
}

#[test]
fn prepend_of_non_copyable_element_is_unimplemented() {
    let mut env = Env::new(8);
    let r = list_prepend(&mut env, InPlace::Clone, Expr::Operand(1), Expr::Operand(2), &string());
    assert_eq!(r, Err(LowerError::Unimplemented { op: ListOp::Prepend, layout: string() }));
    assert!(env.stmts.is_empty());
}

#[test]
fn prepend_of_copyable_element() {
    let mut env = Env::new(8);
    let r = list_prepend(&mut env, InPlace::Clone, Expr::Operand(1), Expr::Operand(2), &int64());
    assert_eq!(
        r,
        Ok(Expr::MakeList(
            Box::new(Expr::ToOpaque(Box::new(Expr::Reg(2)))),
            Box::new(Expr::Reg(1))
        ))
    );
    assert_eq!(env.stmts.len(), 5);
    assert_eq!(env.stmts[3], Stmt::Store { ptr: Expr::Reg(2), value: Expr::Operand(2) });
    assert!(matches!(env.stmts[4], Stmt::Memcpy { align: 8, .. }));
}

#[test]
fn sort_with_passes_descriptor_and_shape() {
    let env = Env::new(8);
    let r = list_sort_with(&env, callback(), Expr::Operand(20), Expr::Operand(1), &int64());
    assert_eq!(
        r,
        list_call(
            RuntimeFn::ListSortWith,
            vec![
                boundary(1),
                Expr::Operand(20),
                Expr::ToOpaque(Box::new(Expr::Operand(11))),
                Expr::Operand(12),
                Expr::Operand(13),
                Expr::Int(8),
                Expr::Int(8),
            ]
        )
    );
}

#[test]
fn range_over_eight_bit_integers() {
    let mut env = Env::new(8);
    let r = list_range(&mut env, &Builtin::Int8, Expr::Operand(3), Expr::Operand(3));
    assert_eq!(
        r,
        Ok(list_call(RuntimeFn::ListRange, vec![Expr::Byte(5), slot(0), slot(2)]))
    );
    assert_eq!(env.stmts[3], Stmt::Store { ptr: Expr::Slot(2), value: Expr::Operand(3) });
}

#[test]
fn range_over_a_non_integer_is_invalid() {
    let mut env = Env::new(8);
    let r = list_range(&mut env, &Builtin::Str, Expr::Operand(3), Expr::Operand(4));
    assert_eq!(r, Err(LowerError::InvalidLayout { op: ListOp::Range, layout: string() }));
    assert!(env.stmts.is_empty());
}

#[test]
fn int_width_codes() {
    assert_eq!(IntWidth::from_builtin(&Builtin::Int128), Some(IntWidth::I128));
    assert_eq!(IntWidth::I128.code(), 9);
    assert_eq!(IntWidth::from_builtin(&Builtin::Usize).map(|w| w.code()), Some(10));
    assert_eq!(IntWidth::from_builtin(&Builtin::Int1), None);
}

#[test]
fn marshal_round_trip_keeps_bits() {
    let l = ListValue { ptr: 0x1000, len: 3 };
    let b = list_to_boundary(l);
    assert_eq!(b, (3u128 << 64) | 0x1000);
    assert_eq!(list_from_boundary(b), l);
    let big = ListValue { ptr: u64::MAX, len: u64::MAX - 1 };
    assert_eq!(list_from_boundary(list_to_boundary(big)), big);
    assert_eq!(list_returned_from_zig(pass_list_as_i128(Expr::Operand(7))), Expr::Operand(7));
    assert_eq!(
        list_returned_from_zig(pass_list_as_i128(Expr::ConstList(l))),
        Expr::ConstList(l)
    );
}

#[test]
fn empty_list_is_zero_bits() {
    assert_eq!(list_to_boundary(empty_list_value()), 0);
    assert_eq!(list_from_boundary(0), ListValue { ptr: 0, len: 0 });
    assert_eq!(empty_list(), empty_polymorphic_list());
}

#[test]
fn allocation_sets_header() {
    let mut env = Env::new(8);
    let p = allocate_list(&mut env, InPlace::Clone, &Layout::Builtin(Builtin::Int32), Expr::Operand(4));
    assert_eq!(p, Expr::Reg(0));
    assert_eq!(
        env.stmts[0],
        Stmt::Let(Expr::Allocate {
            data_bytes: Box::new(Expr::Mul(Box::new(Expr::Int(4)), Box::new(Expr::Operand(4)))),
            alignment: 4,
            refcount: RcInit::One,
        })
    );
    allocate_list(&mut env, InPlace::InPlace, &int64(), Expr::Operand(5));
    assert!(matches!(
        env.stmts[1],
        Stmt::Let(Expr::Allocate { alignment: 8, refcount: RcInit::Inherit, .. })
    ));
}

#[test]
fn unchecked_read_increments_refcounted_element_once() {
    let mut env = Env::new(8);
    let r = list_get_unsafe(&mut env, &list_of(string()), Expr::Operand(2), Expr::Operand(1));
    assert_eq!(r, Ok(Expr::Reg(0)));
    let incs = env.stmts.iter().filter(|s| matches!(s, Stmt::IncRef { .. })).count();
    assert_eq!(incs, 1);
    assert_eq!(env.stmts[1], Stmt::IncRef { value: Expr::Reg(0), amount: 1, layout: string() });
}

#[test]
fn unchecked_read_of_copyable_element_does_not_increment() {
    let mut env = Env::new(8);
    let r = list_get_unsafe(&mut env, &list_of(int64()), Expr::Operand(2), Expr::Operand(1));
    assert_eq!(r, Ok(Expr::Reg(0)));
    assert_eq!(env.stmts.len(), 1);
}

#[test]
fn unchecked_read_of_non_list_is_invalid() {
    let mut env = Env::new(8);
    let r = list_get_unsafe(&mut env, &string(), Expr::Operand(2), Expr::Operand(1));
    assert_eq!(r, Err(LowerError::InvalidLayout { op: ListOp::GetUnsafe, layout: string() }));
}

#[test]
fn wrappers_are_memoized() {
    let mut env = Env::new(8);
    let a = env.wrapper(WrapperKind::Dec, &string());
    let b = env.wrapper(WrapperKind::Dec, &string());
    assert_eq!(a, b);
    assert_eq!(env.wrappers.len(), 1);
    let c = env.wrapper(WrapperKind::Inc, &string());
    assert_eq!(c, 1);
    let d = env.wrapper(WrapperKind::Dec, &list_of(string()));
    assert_eq!(d, 2);
    assert_eq!(env.wrapper(WrapperKind::Dec, &list_of(string())), 2);
    assert_eq!(env.wrappers.len(), 3);
}

#[test]
fn drop_reuses_decrement_wrapper() {
    let mut env = Env::new(8);
    let first = list_drop(&mut env, Expr::Operand(1), Expr::Operand(2), &string());
    let second = list_drop(&mut env, Expr::Operand(1), Expr::Operand(2), &string());
    assert_eq!(first, second);
    assert_eq!(
        first,
        list_call(
            RuntimeFn::ListDrop,
            vec![boundary(1), Expr::Int(8), Expr::Int(16), Expr::Operand(2), Expr::Wrapper(0)]
        )
    );
    assert_eq!(env.wrappers.len(), 1);
}

#[test]
fn repeat_and_contains() {
    let mut env = Env::new(4);
    let r = list_repeat(&mut env, Expr::Operand(1), Expr::Operand(2), &string());
    assert_eq!(
        r,
        list_call(
            RuntimeFn::ListRepeat,
            vec![Expr::Operand(1), Expr::Int(4), slot(0), Expr::Int(8), Expr::Wrapper(0)]
        )
    );
    let c = list_contains(&mut env, Expr::Operand(3), &string(), Expr::Operand(4));
    assert_eq!(
        c,
        Expr::Call(
            RuntimeFn::ListContains,
            vec![boundary(4), slot(2), Expr::Int(8), Expr::Wrapper(1)]
        )
    );
}

#[test]
fn join_dispatches_on_shape() {
    let env = Env::new(8);
    let empty = list_join(&env, Expr::Operand(1), &Layout::Builtin(Builtin::EmptyList));
    assert_eq!(empty, Ok(empty_list()));
    let of_empty = list_join(&env, Expr::Operand(1), &list_of(Layout::Builtin(Builtin::EmptyList)));
    assert_eq!(of_empty, Ok(empty_list()));
    let nested = list_join(&env, Expr::Operand(1), &list_of(list_of(Layout::Builtin(Builtin::Int16))));
    assert_eq!(
        nested,
        Ok(list_call(RuntimeFn::ListJoin, vec![boundary(1), Expr::Int(2), Expr::Int(2)]))
    );
    let flat = list_join(&env, Expr::Operand(1), &list_of(int64()));
    assert_eq!(flat, Err(LowerError::InvalidLayout { op: ListOp::Join, layout: list_of(int64()) }));
}

#[test]
fn reverse_and_concat_reject_non_lists() {
    let env = Env::new(8);
    let r = list_reverse(&env, Expr::Operand(1), &Layout::Builtin(Builtin::EmptyList));
    assert_eq!(
        r,
        Ok(list_call(RuntimeFn::ListReverse, vec![boundary(1), Expr::Int(8), Expr::Int(8)]))
    );
    assert_eq!(
        list_reverse(&env, Expr::Operand(1), &int64()),
        Err(LowerError::InvalidLayout { op: ListOp::Reverse, layout: int64() })
    );
    assert_eq!(
        list_concat(&env, Expr::Operand(1), Expr::Operand(2), &string()),
        Err(LowerError::InvalidLayout { op: ListOp::Concat, layout: string() })
    );
}

#[test]
fn set_passes_buffer_and_length() {
    let mut env = Env::new(8);
    let r = list_set(&mut env, Expr::Operand(1), Expr::Operand(2), Expr::Operand(3), &int64());
    let len = Expr::ListLen(Box::new(Expr::Reg(0)));
    let call = Expr::Call(
        RuntimeFn::ListSet,
        vec![
            Expr::ListPtr(Box::new(Expr::Reg(0))),
            Expr::ListLen(Box::new(Expr::Reg(0))),
            Expr::Int(8),
            Expr::Operand(2),
            slot(1),
            Expr::Int(8),
            Expr::Wrapper(0),
        ],
    );
    assert_eq!(r, Expr::MakeList(Box::new(Expr::ToOpaque(Box::new(call))), Box::new(len)));
}

#[test]
fn walk_variants() {
    let mut env = Env::new(8);
    let r = list_walk_generic(
        &mut env,
        callback(),
        Expr::Operand(1),
        &int64(),
        Expr::Operand(2),
        &Layout::Builtin(Builtin::Int32),
        ListWalk::Walk,
    );
    assert_eq!(r, Ok(Expr::Load(Box::new(Expr::Slot(2)), Layout::Builtin(Builtin::Int32))));
    let mut args = vec![boundary(1)];
    args.extend(callback_args());
    args.extend(vec![slot(0), Expr::Int(8), Expr::Int(8), Expr::Int(4), slot(2)]);
    assert_eq!(env.stmts[3], Stmt::CallVoid(RuntimeFn::ListWalk, args));
    assert!(env.wrappers.is_empty());

    let until = list_walk_generic(
        &mut env,
        callback(),
        Expr::Operand(1),
        &string(),
        Expr::Operand(2),
        &int64(),
        ListWalk::WalkUntil,
    );
    assert_eq!(until, Ok(Expr::Load(Box::new(Expr::Slot(6)), int64())));
    let mut args = vec![boundary(1)];
    args.extend(callback_args());
    args.extend(vec![slot(4), Expr::Int(8), Expr::Int(16), Expr::Int(8), Expr::Wrapper(0), slot(6)]);
    assert_eq!(env.stmts[7], Stmt::CallVoid(RuntimeFn::ListWalkUntil, args));

    let before = env.stmts.len();
    let gap = list_walk_generic(
        &mut env,
        callback(),
        Expr::Operand(1),
        &int64(),
        Expr::Operand(2),
        &int64(),
        ListWalk::WalkBackwardsUntil,
    );
    assert_eq!(
        gap,
        Err(LowerError::Unimplemented { op: ListOp::WalkBackwardsUntil, layout: int64() })
    );
    assert_eq!(env.stmts.len(), before);
}

#[test]
fn keep_if_and_keep_results() {
    let mut env = Env::new(8);
    let r = list_keep_if(&mut env, callback(), Expr::Operand(1), &string());
    let mut args = vec![boundary(1)];
    args.extend(callback_args());
    args.extend(vec![Expr::Int(8), Expr::Int(16), Expr::Wrapper(0), Expr::Wrapper(1)]);
    assert_eq!(r, list_call(RuntimeFn::ListKeepIf, args));

    let f = Layout::FunctionPointer(Box::new(string()));
    let oks = list_keep_oks(&mut env, callback(), &f, Expr::Operand(1), &int64(), &string());
    let mut args = vec![boundary(1)];
    args.extend(callback_args());
    args.extend(vec![Expr::Int(8), Expr::Int(8), Expr::Int(16), Expr::Int(16), Expr::Wrapper(1)]);
    assert_eq!(oks, Ok(list_call(RuntimeFn::ListKeepOks, args)));

    let errs = list_keep_errs(&mut env, callback(), &int64(), Expr::Operand(1), &int64(), &string());
    assert_eq!(errs, Err(LowerError::InvalidLayout { op: ListOp::KeepErrs, layout: int64() }));
    assert_eq!(
        list_keep_oks(&mut env, callback(), &int64(), Expr::Operand(1), &int64(), &string()),
        Err(LowerError::InvalidLayout { op: ListOp::KeepOks, layout: int64() })
    );
}

#[test]
fn keep_result_builds_caller() {
    let mut env = Env::new(8);
    let t = Layout::Closure(Box::new(int64()), Box::new(string()));
    let r = list_keep_result(
        &mut env,
        99,
        &t,
        Expr::Operand(5),
        &int64(),
        Expr::Operand(1),
        &int64(),
        &Layout::Builtin(Builtin::Int32),
        RuntimeFn::ListKeepOks,
    );
    assert_eq!(
        r,
        Ok(list_call(
            RuntimeFn::ListKeepOks,
            vec![
                boundary(1),
                slot(0),
                Expr::Wrapper(0),
                Expr::Int(8),
                Expr::Int(8),
                Expr::Int(4),
                Expr::Int(16),
                Expr::Wrapper(1),
                Expr::Wrapper(2),
            ]
        ))
    );
    assert_eq!(env.wrappers[0].kind, WrapperKind::Caller { function: 99 });
    let bad = list_keep_result(
        &mut env,
        99,
        &int64(),
        Expr::Operand(5),
        &int64(),
        Expr::Operand(1),
        &int64(),
        &int64(),
        RuntimeFn::ListKeepErrs,
    );
    assert_eq!(bad, Err(LowerError::InvalidLayout { op: ListOp::KeepResult, layout: int64() }));
}

fn map_args() -> Vec<Expr> {
    let mut args = vec![boundary(1)];
    args.extend(callback_args());
    args.extend(vec![Expr::Int(8), Expr::Int(8), Expr::Int(1)]);
    args
}

#[test]
fn maps() {
    let mut env = Env::new(8);
    let m = list_map(&env, callback(), Expr::Operand(1), &int64(), &Layout::Builtin(Builtin::Int8));
    assert_eq!(m, list_call(RuntimeFn::ListMap, map_args()));
    let mi = list_map_with_index(&env, callback(), Expr::Operand(1), &int64(), &Layout::Builtin(Builtin::Int8));
    assert_eq!(mi, list_call(RuntimeFn::ListMapWithIndex, map_args()));

    let m2 = list_map2(&mut env, callback(), Expr::Operand(1), Expr::Operand(2), &int64(), &string(), &string());
    let mut args = vec![boundary(1), boundary(2)];
    args.extend(callback_args());
    args.extend(vec![
        Expr::Int(8),
        Expr::Int(8),
        Expr::Int(16),
        Expr::Int(16),
        Expr::Wrapper(0),
        Expr::Wrapper(1),
    ]);
    assert_eq!(m2, list_call(RuntimeFn::ListMap2, args));

    let m3 = list_map3(
        &mut env,
        callback(),
        Expr::Operand(1),
        Expr::Operand(2),
        Expr::Operand(3),
        &int64(),
        &string(),
        &int64(),
        &int64(),
    );
    let mut args = vec![boundary(1), boundary(2), boundary(3)];
    args.extend(callback_args());
    args.extend(vec![
        Expr::Int(8),
        Expr::Int(8),
        Expr::Int(16),
        Expr::Int(8),
        Expr::Int(8),
        Expr::Wrapper(0),
        Expr::Wrapper(1),
        Expr::Wrapper(0),
    ]);
    assert_eq!(m3, list_call(RuntimeFn::ListMap3, args));
    assert_eq!(env.wrappers.len(), 2);
}

#[test]
fn unchecked_read_of_record_holding_string_increments() {
    let mut env = Env::new(8);
    let record = Layout::Struct(Box::new(int64()), Box::new(Layout::Struct(Box::new(string()), Box::new(Layout::Unit))));
    let r = list_get_unsafe(&mut env, &list_of(record.copy()), Expr::Operand(2), Expr::Operand(1));
    assert_eq!(r, Ok(Expr::Reg(0)));
    assert_eq!(env.stmts[1], Stmt::IncRef { value: Expr::Reg(0), amount: 1, layout: record });
}
