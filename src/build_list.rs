use vstd::prelude::*;
use crate::abi::{empty_list_value, empty_value};
use crate::env::{Env, WrapperKey, WrapperKind, cache_after, cache_id};
use crate::ir::{
    Expr, ListOp, LowerError, RcInit, RocFunctionCall, RuntimeFn, Stmt, from_boundary_expr, is_call, is_list_call,
    is_void_call, list_returned_from_zig, pass_as_opaque, pass_list_as_i128, to_boundary_expr,
};
use crate::layout::{
    Builtin, InPlace, Layout, align_of, fits, list_element, memcpy_safe, returned_layout, size_of, valid_ptr_bytes,
};

verus! {

/// The width constant of a layout.
pub open spec fn width_expr(l: Layout, ptr_bytes: u32) -> Expr {
    Expr::Int(size_of(l, ptr_bytes) as u64)
}

/// The alignment constant of a layout.
pub open spec fn align_expr(l: Layout, ptr_bytes: u32) -> Expr {
    Expr::Int(align_of(l, ptr_bytes) as u64)
}

/// The opaque pointer to the stack slot made by statement `n`.
pub open spec fn opaque_slot(n: int) -> Expr {
    Expr::ToOpaque(Box::new(Expr::Slot(n as usize)))
}

/// The statements that store `e`, of layout `l`, in a fresh stack slot,
/// appended to `s`.
pub open spec fn spill(s: Seq<Stmt>, e: Expr, l: Layout) -> Seq<Stmt> {
    s.push(Stmt::StackSlot(l)).push(Stmt::Store { ptr: Expr::Slot(s.len() as usize), value: e })
}

/// The pointer to wrapper `kind` for `l` that a request against cache `c`
/// yields.
pub open spec fn wrapper_expr(c: Seq<WrapperKey>, kind: WrapperKind, l: Layout) -> Expr {
    Expr::Wrapper(cache_id(c, WrapperKey { kind, layout: l }) as usize)
}

/// Cache `c` after a request for wrapper `kind` of `l`.
pub open spec fn after(c: Seq<WrapperKey>, kind: WrapperKind, l: Layout) -> Seq<WrapperKey> {
    cache_after(c, WrapperKey { kind, layout: l })
}

/// `post` is `pre` with `added` emitted and nothing else changed.
pub open spec fn emitted(pre: Env, post: Env, added: Seq<Stmt>) -> bool {
    &&& post.ptr_bytes == pre.ptr_bytes
    &&& post.wrappers == pre.wrappers
    &&& post.stmts@ == pre.stmts@ + added
}

/// `post` is a well-formed `pre` with statements `s` and wrapper cache `c`.
pub open spec fn became(pre: Env, post: Env, s: Seq<Stmt>, c: Seq<WrapperKey>) -> bool {
    &&& post.wf()
    &&& post.ptr_bytes == pre.ptr_bytes
    &&& post.stmts@ == s
    &&& post.wrappers@ == c
}

/// A pointer-width constant: the bytes that one element of `layout` takes.
pub fn layout_width(env: &Env, layout: &Layout) -> (r: Expr)
    requires
        fits(*layout, env.ptr_bytes),
        valid_ptr_bytes(env.ptr_bytes),
    ensures
        r == width_expr(*layout, env.ptr_bytes),
{
    Expr::Int(layout.stack_size(env.ptr_bytes) as u64)
}

/// A pointer-width constant: the alignment of `layout`.
pub fn alignment_intvalue(env: &Env, layout: &Layout) -> (r: Expr)
    requires
        valid_ptr_bytes(env.ptr_bytes),
    ensures
        r == align_expr(*layout, env.ptr_bytes),
{
    Expr::Int(layout.alignment_bytes(env.ptr_bytes) as u64)
}

/// Stores an element in a fresh stack slot and passes the slot's address as
/// an opaque pointer.
fn pass_element_as_opaque(env: &mut Env, element: Expr, layout: &Layout) -> (r: Expr)
    ensures
        final(env).ptr_bytes == old(env).ptr_bytes,
        final(env).wrappers == old(env).wrappers,
        final(env).stmts@ == spill(old(env).stmts@, element, *layout),
        r == opaque_slot(old(env).stmts@.len() as int),
{
    let slot = env.stack_slot(layout);
    let n = env.stmts.len() - 1;
    env.emit(Stmt::Store { ptr: Expr::Slot(n), value: element });
    pass_as_opaque(slot)
}

/// A runtime call.
pub fn call_bitcode_fn(args: Vec<Expr>, f: RuntimeFn) -> (r: Expr)
    ensures
        is_call(r, f, args@),
{
    Expr::Call(f, args)
}

/// A runtime call that returns a list, read back in struct form.
pub fn call_bitcode_fn_returns_list(args: Vec<Expr>, f: RuntimeFn) -> (r: Expr)
    ensures
        is_list_call(r, f, args@),
{
    list_returned_from_zig(Expr::Call(f, args))
}

/// The canonical empty list of a list whose element type is not fixed.
pub fn empty_polymorphic_list() -> (r: Expr)
    ensures
        r == Expr::ConstList(empty_value()),
{
    Expr::ConstList(empty_list_value())
}

/// The canonical empty list.
pub fn empty_list() -> (r: Expr)
    ensures
        r == Expr::ConstList(empty_value()),
{
    Expr::ConstList(empty_list_value())
}

/// List.single : a -> List a
pub fn list_single(env: &mut Env, element: Expr, element_layout: &Layout) -> (r: Expr)
    requires
        fits(*element_layout, old(env).ptr_bytes),
        old(env).wf(),
    ensures
        final(env).wf(),
        final(env).ptr_bytes == old(env).ptr_bytes,
        final(env).wrappers == old(env).wrappers,
        final(env).stmts@ == spill(old(env).stmts@, element, *element_layout),
        is_list_call(
            r,
            RuntimeFn::ListSingle,
            seq![
                align_expr(*element_layout, old(env).ptr_bytes),
                opaque_slot(old(env).stmts@.len() as int),
                width_expr(*element_layout, old(env).ptr_bytes),
            ],
        ),
{
    let mut args: Vec<Expr> = Vec::new();
    args.push(alignment_intvalue(env, element_layout));
    args.push(pass_element_as_opaque(env, element, element_layout));
    args.push(layout_width(env, element_layout));
    call_bitcode_fn_returns_list(args, RuntimeFn::ListSingle)
}

/// List.repeat : Int, elem -> List elem
pub fn list_repeat(env: &mut Env, list_len: Expr, element: Expr, element_layout: &Layout) -> (r: Expr)
    requires
        fits(*element_layout, old(env).ptr_bytes),
        old(env).wf(),
    ensures
        became(
            *old(env),
            *final(env),
            spill(old(env).stmts@, element, *element_layout),
            after(old(env).wrappers@, WrapperKind::IncN, *element_layout),
        ),
        is_list_call(
            r,
            RuntimeFn::ListRepeat,
            seq![
                list_len,
                align_expr(*element_layout, old(env).ptr_bytes),
                opaque_slot(old(env).stmts@.len() as int),
                width_expr(*element_layout, old(env).ptr_bytes),
                wrapper_expr(old(env).wrappers@, WrapperKind::IncN, *element_layout),
            ],
        ),
{
    let inc_element_fn = env.wrapper(WrapperKind::IncN, element_layout);
    let mut args: Vec<Expr> = Vec::new();
    args.push(list_len);
    args.push(alignment_intvalue(env, element_layout));
    args.push(pass_element_as_opaque(env, element, element_layout));
    args.push(layout_width(env, element_layout));
    args.push(Expr::Wrapper(inc_element_fn));
    call_bitcode_fn_returns_list(args, RuntimeFn::ListRepeat)
}

/// List.append : List elem, elem -> List elem
pub fn list_append(env: &mut Env, list_struct: Expr, element: Expr, element_layout: &Layout) -> (r: Expr)
    requires
        fits(*element_layout, old(env).ptr_bytes),
        old(env).wf(),
    ensures
        final(env).wf(),
        final(env).ptr_bytes == old(env).ptr_bytes,
        final(env).wrappers == old(env).wrappers,
        final(env).stmts@ == spill(old(env).stmts@, element, *element_layout),
        is_list_call(
            r,
            RuntimeFn::ListAppend,
            seq![
                to_boundary_expr(list_struct),
                align_expr(*element_layout, old(env).ptr_bytes),
                opaque_slot(old(env).stmts@.len() as int),
                width_expr(*element_layout, old(env).ptr_bytes),
            ],
        ),
{
    let mut args: Vec<Expr> = Vec::new();
    args.push(pass_list_as_i128(list_struct));
    args.push(alignment_intvalue(env, element_layout));
    args.push(pass_element_as_opaque(env, element, element_layout));
    args.push(layout_width(env, element_layout));
    call_bitcode_fn_returns_list(args, RuntimeFn::ListAppend)
}

/// List.drop : List elem, Nat -> List elem
pub fn list_drop(env: &mut Env, list_struct: Expr, count: Expr, element_layout: &Layout) -> (r: Expr)
    requires
        fits(*element_layout, old(env).ptr_bytes),
        old(env).wf(),
    ensures
        became(
            *old(env),
            *final(env),
            old(env).stmts@,
            after(old(env).wrappers@, WrapperKind::Dec, *element_layout),
        ),
        is_list_call(
            r,
            RuntimeFn::ListDrop,
            seq![
                to_boundary_expr(list_struct),
                align_expr(*element_layout, old(env).ptr_bytes),
                width_expr(*element_layout, old(env).ptr_bytes),
                count,
                wrapper_expr(old(env).wrappers@, WrapperKind::Dec, *element_layout),
            ],
        ),
{
    let dec_element_fn = env.wrapper(WrapperKind::Dec, element_layout);
    let mut args: Vec<Expr> = Vec::new();
    args.push(pass_list_as_i128(list_struct));
    args.push(alignment_intvalue(env, element_layout));
    args.push(layout_width(env, element_layout));
    args.push(count);
    args.push(Expr::Wrapper(dec_element_fn));
    call_bitcode_fn_returns_list(args, RuntimeFn::ListDrop)
}

/// List.contains : List elem, elem -> Bool
pub fn list_contains(env: &mut Env, element: Expr, element_layout: &Layout, list: Expr) -> (r: Expr)
    requires
        fits(*element_layout, old(env).ptr_bytes),
        old(env).wf(),
    ensures
        became(
            *old(env),
            *final(env),
            spill(old(env).stmts@, element, *element_layout),
            after(old(env).wrappers@, WrapperKind::Eq, *element_layout),
        ),
        is_call(
            r,
            RuntimeFn::ListContains,
            seq![
                to_boundary_expr(list),
                opaque_slot(old(env).stmts@.len() as int),
                width_expr(*element_layout, old(env).ptr_bytes),
                wrapper_expr(old(env).wrappers@, WrapperKind::Eq, *element_layout),
            ],
        ),
{
    let eq_fn = env.wrapper(WrapperKind::Eq, element_layout);
    let mut args: Vec<Expr> = Vec::new();
    args.push(pass_list_as_i128(list));
    args.push(pass_element_as_opaque(env, element, element_layout));
    args.push(layout_width(env, element_layout));
    args.push(Expr::Wrapper(eq_fn));
    call_bitcode_fn(args, RuntimeFn::ListContains)
}

/// List.len : List elem -> Int
pub fn list_len(wrapper_struct: Expr) -> (r: Expr)
    ensures
        r == Expr::ListLen(Box::new(wrapper_struct)),
{
    Expr::ListLen(Box::new(wrapper_struct))
}

/// The pointer field of a list struct.
pub fn load_list_ptr(wrapper_struct: Expr) -> (r: Expr)
    ensures
        r == Expr::ListPtr(Box::new(wrapper_struct)),
{
    Expr::ListPtr(Box::new(wrapper_struct))
}

/// A list struct from the address of its first element and its length.
pub fn store_list(pointer_to_first_element: Expr, len: Expr) -> (r: Expr)
    ensures
        r == Expr::MakeList(Box::new(Expr::ToOpaque(Box::new(pointer_to_first_element))), Box::new(len)),
{
    Expr::MakeList(Box::new(pass_as_opaque(pointer_to_first_element)), Box::new(len))
}

/// `index < len`, unsigned, so that the in-bounds case is the true branch.
pub fn bounds_check_comparison(elem_index: Expr, len: Expr) -> (r: Expr)
    ensures
        r == Expr::Less(Box::new(elem_index), Box::new(len)),
{
    Expr::Less(Box::new(elem_index), Box::new(len))
}

/// The shapes of a nested list layout that `join` accepts: `Some(None)` where the result is known to
/// be empty, `Some(Some(e))` where the inner lists hold elements of layout
/// `e`.
pub open spec fn join_shape(l: Layout) -> Option<Option<Layout>> {
    match l {
        Layout::Builtin(Builtin::EmptyList) => Some(None),
        Layout::Builtin(Builtin::List(_, inner)) => match *inner {
            Layout::Builtin(Builtin::EmptyList) => Some(None),
            Layout::Builtin(Builtin::List(_, e)) => Some(Some(*e)),
            _ => None,
        },
        _ => None,
    }
}

/// The element layout that a list operation passes to the runtime: that of
/// the elements, or a stand-in for a list without a fixed element type,
/// whose buffer is never read.
pub open spec fn elements_of(l: Layout) -> Option<Layout> {
    match l {
        Layout::Builtin(Builtin::EmptyList) => Some(Layout::Builtin(Builtin::Int64)),
        Layout::Builtin(Builtin::List(_, e)) => Some(*e),
        _ => None,
    }
}

/// List.join : List (List elem) -> List elem
pub fn list_join(env: &Env, outer_list: Expr, outer_list_layout: &Layout) -> (r: Result<Expr, LowerError>)
    requires
        fits(*outer_list_layout, env.ptr_bytes),
        valid_ptr_bytes(env.ptr_bytes),
    ensures
        join_shape(*outer_list_layout) is None <==> r is Err,
        r matches Err(e) ==> e == (LowerError::InvalidLayout { op: ListOp::Join, layout: *outer_list_layout }),
        join_shape(*outer_list_layout) == Some(None::<Layout>) ==> r == Ok::<Expr, LowerError>(Expr::ConstList(empty_value())),
        join_shape(*outer_list_layout) matches Some(Some(e)) ==> (r matches Ok(v) && is_list_call(
            v,
            RuntimeFn::ListJoin,
            seq![to_boundary_expr(outer_list), align_expr(e, env.ptr_bytes), width_expr(e, env.ptr_bytes)],
        )),
{
    match outer_list_layout {
        Layout::Builtin(Builtin::EmptyList) => Ok(empty_list()),
        Layout::Builtin(Builtin::List(_, inner)) => match &**inner {
            Layout::Builtin(Builtin::EmptyList) => Ok(empty_list()),
            Layout::Builtin(Builtin::List(_, element_layout)) => {
                assert(fits(**inner, env.ptr_bytes));
                let mut args: Vec<Expr> = Vec::new();
                args.push(pass_list_as_i128(outer_list));
                args.push(alignment_intvalue(env, element_layout));
                args.push(layout_width(env, element_layout));
                Ok(call_bitcode_fn_returns_list(args, RuntimeFn::ListJoin))
            },
            _ => Err(LowerError::InvalidLayout { op: ListOp::Join, layout: outer_list_layout.copy() }),
        },
        _ => Err(LowerError::InvalidLayout { op: ListOp::Join, layout: outer_list_layout.copy() }),
    }
}

/// List.reverse : List elem -> List elem
pub fn list_reverse(env: &Env, list: Expr, list_layout: &Layout) -> (r: Result<Expr, LowerError>)
    requires
        fits(*list_layout, env.ptr_bytes),
        valid_ptr_bytes(env.ptr_bytes),
    ensures
        elements_of(*list_layout) is None <==> r is Err,
        r matches Err(e) ==> e == (LowerError::InvalidLayout { op: ListOp::Reverse, layout: *list_layout }),
        elements_of(*list_layout) matches Some(e) ==> (r matches Ok(v) && is_list_call(
            v,
            RuntimeFn::ListReverse,
            seq![to_boundary_expr(list), align_expr(e, env.ptr_bytes), width_expr(e, env.ptr_bytes)],
        )),
{
    let stand_in = Layout::Builtin(Builtin::Int64);
    let element_layout: &Layout = match list_layout {
        Layout::Builtin(Builtin::EmptyList) => &stand_in,
        Layout::Builtin(Builtin::List(_, e)) => &**e,
        _ => {
            return Err(LowerError::InvalidLayout { op: ListOp::Reverse, layout: list_layout.copy() });
        },
    };
    let mut args: Vec<Expr> = Vec::new();
    args.push(pass_list_as_i128(list));
    args.push(alignment_intvalue(env, element_layout));
    args.push(layout_width(env, element_layout));
    Ok(call_bitcode_fn_returns_list(args, RuntimeFn::ListReverse))
}

/// List.concat : List elem, List elem -> List elem
pub fn list_concat(env: &Env, first_list: Expr, second_list: Expr, list_layout: &Layout) -> (r: Result<Expr, LowerError>)
    requires
        fits(*list_layout, env.ptr_bytes),
        valid_ptr_bytes(env.ptr_bytes),
    ensures
        (*list_layout is Builtin && (list_layout->Builtin_0 is EmptyList || list_layout->Builtin_0 is List)) <==> r is Ok,
        r matches Err(e) ==> e == (LowerError::InvalidLayout { op: ListOp::Concat, layout: *list_layout }),
        *list_layout == Layout::Builtin(Builtin::EmptyList) ==> r == Ok::<Expr, LowerError>(Expr::ConstList(empty_value())),
        list_element(*list_layout) matches Some(e) ==> (r matches Ok(v) && is_list_call(
            v,
            RuntimeFn::ListConcat,
            seq![
                to_boundary_expr(first_list),
                to_boundary_expr(second_list),
                align_expr(e, env.ptr_bytes),
                width_expr(e, env.ptr_bytes),
            ],
        )),
{
    match list_layout {
        Layout::Builtin(Builtin::EmptyList) => Ok(empty_list()),
        Layout::Builtin(Builtin::List(_, elem_layout)) => {
            let mut args: Vec<Expr> = Vec::new();
            args.push(pass_list_as_i128(first_list));
            args.push(pass_list_as_i128(second_list));
            args.push(alignment_intvalue(env, elem_layout));
            args.push(layout_width(env, elem_layout));
            Ok(call_bitcode_fn_returns_list(args, RuntimeFn::ListConcat))
        },
        _ => Err(LowerError::InvalidLayout { op: ListOp::Concat, layout: list_layout.copy() }),
    }
}

/// How the header of a buffer requested with `inplace` is set.
pub open spec fn rc_init(inplace: InPlace) -> RcInit {
    match inplace {
        InPlace::InPlace => RcInit::Inherit,
        InPlace::Clone => RcInit::One,
    }
}

/// The allocation of `count` elements of `layout`.
pub open spec fn allocation(inplace: InPlace, layout: Layout, count: Expr, ptr_bytes: u32) -> Expr {
    Expr::Allocate {
        data_bytes: Box::new(Expr::Mul(Box::new(width_expr(layout, ptr_bytes)), Box::new(count))),
        alignment: align_of(layout, ptr_bytes) as u32,
        refcount: rc_init(inplace),
    }
}

/// Requests a buffer of `number_of_elements` elements behind a refcount
/// header, and binds the address of its first element.
pub fn allocate_list(env: &mut Env, inplace: InPlace, elem_layout: &Layout, number_of_elements: Expr) -> (r: Expr)
    requires
        fits(*elem_layout, old(env).ptr_bytes),
        old(env).wf(),
    ensures
        final(env).wf(),
        emitted(
            *old(env),
            *final(env),
            seq![Stmt::Let(allocation(inplace, *elem_layout, number_of_elements, old(env).ptr_bytes))],
        ),
        r == Expr::Reg(old(env).stmts@.len() as usize),
{
    let bytes_per_element = layout_width(env, elem_layout);
    let number_of_data_bytes = Expr::Mul(Box::new(bytes_per_element), Box::new(number_of_elements));
    let refcount = match inplace {
        InPlace::InPlace => RcInit::Inherit,
        InPlace::Clone => RcInit::One,
    };
    let alignment = elem_layout.alignment_bytes(env.ptr_bytes);
    let r = env.bind(Expr::Allocate { data_bytes: Box::new(number_of_data_bytes), alignment, refcount });
    assert(final(env).stmts@ =~= old(env).stmts@ + seq![Stmt::Let(allocation(inplace, *elem_layout, number_of_elements, old(env).ptr_bytes))]);
    r
}

/// An allocation of `count` elements of `layout` asks for `count` slots of
/// the layout's width, side by side from the first element's address, with
/// the refcount header before them: each slot lies inside the buffer and
/// after the one before it. A fresh buffer's count starts at one; a buffer
/// reused in place keeps its count.
pub proof fn lemma_allocation_layout(inplace: InPlace, layout: Layout, count: nat, ptr_bytes: u32)
    requires
        valid_ptr_bytes(ptr_bytes),
    ensures
        ({
            let stride = size_of(layout, ptr_bytes) as int;
            let a = allocation(inplace, layout, Expr::Int(count as u64), ptr_bytes);
            &&& a matches Expr::Allocate { data_bytes, refcount, .. } && (*data_bytes == Expr::Mul(
                Box::new(Expr::Int(stride as u64)),
                Box::new(Expr::Int(count as u64)),
            ) && (refcount == RcInit::One <==> inplace == InPlace::Clone))
            &&& forall|i: int| 0 <= i < count ==> 0 <= #[trigger] (i * stride) && i * stride + stride <= count * stride
            &&& forall|i: int, j: int| 0 <= i < j < count ==> #[trigger] (i * stride) + stride <= #[trigger] (j * stride)
        }),
{
    let stride = size_of(layout, ptr_bytes) as int;
    assert forall|i: int| 0 <= i < count implies 0 <= #[trigger] (i * stride) && i * stride + stride <= count * stride by {
        assert(0 <= i * stride) by (nonlinear_arith)
            requires 0 <= i, 0 <= stride;
        assert(i * stride + stride <= count * stride) by (nonlinear_arith)
            requires i < count, 0 <= stride;
    }
    assert forall|i: int, j: int| 0 <= i < j < count implies #[trigger] (i * stride) + stride <= #[trigger] (j * stride) by {
        assert(i * stride + stride <= j * stride) by (nonlinear_arith)
            requires i < j, 0 <= stride;
    }
}

/// The statements of a prepend whose first statement is number `n`.
pub open spec fn prepend_stmts(
    n: int,
    inplace: InPlace,
    list_struct: Expr,
    elem: Expr,
    layout: Layout,
    ptr_bytes: u32,
) -> Seq<Stmt> {
    let wrapper = Expr::Reg(n as usize);
    let len = Expr::ListLen(Box::new(wrapper));
    let new_len = Expr::Reg((n + 1) as usize);
    let clone_ptr = Expr::Reg((n + 2) as usize);
    seq![
        Stmt::Let(list_struct),
        Stmt::Let(Expr::Add(Box::new(Expr::Int(1)), Box::new(len))),
        Stmt::Let(allocation(inplace, layout, new_len, ptr_bytes)),
        Stmt::Store { ptr: clone_ptr, value: elem },
        Stmt::Memcpy {
            dst: Expr::ElemPtr(Box::new(clone_ptr), Box::new(Expr::Int(1)), layout),
            src: Expr::ListPtr(Box::new(wrapper)),
            bytes: Expr::Mul(Box::new(width_expr(layout, ptr_bytes)), Box::new(len)),
            align: ptr_bytes,
        },
    ]
}

/// List.prepend : List elem, elem -> List elem
///
/// Makes a buffer one longer, stores the element first and copies the old
/// elements after it. Elements that cannot be copied byte for byte are not
/// supported: that fails, and nothing is emitted.
pub fn list_prepend(
    env: &mut Env,
    inplace: InPlace,
    list_struct: Expr,
    elem: Expr,
    elem_layout: &Layout,
) -> (r: Result<Expr, LowerError>)
    requires
        fits(*elem_layout, old(env).ptr_bytes),
        old(env).wf(),
    ensures
        final(env).wf(),
        memcpy_safe(*elem_layout) <==> r is Ok,
        r matches Err(e) ==> e == (LowerError::Unimplemented { op: ListOp::Prepend, layout: *elem_layout })
            && *final(env) == *old(env),
        r matches Ok(v) ==> {
            let n = old(env).stmts@.len() as int;
            &&& emitted(
                *old(env),
                *final(env),
                prepend_stmts(n, inplace, list_struct, elem, *elem_layout, old(env).ptr_bytes),
            )
            &&& v == Expr::MakeList(
                Box::new(Expr::ToOpaque(Box::new(Expr::Reg((n + 2) as usize)))),
                Box::new(Expr::Reg((n + 1) as usize)),
            )
        },
{
    if !elem_layout.safe_to_memcpy() {
        return Err(LowerError::Unimplemented { op: ListOp::Prepend, layout: elem_layout.copy() });
    }
    let ghost n = env.stmts@.len() as int;
    let wrapper = env.bind(list_struct);
    let wrapper_reg = env.stmts.len() - 1;
    let list_ptr = load_list_ptr(Expr::Reg(wrapper_reg));
    let new_list_len = env.bind(Expr::Add(Box::new(Expr::Int(1)), Box::new(list_len(wrapper))));
    let len_reg = env.stmts.len() - 1;
    let clone_ptr = allocate_list(env, inplace, elem_layout, new_list_len);
    let clone_reg = env.stmts.len() - 1;
    env.emit(Stmt::Store { ptr: clone_ptr, value: elem });
    let index_1_ptr = Expr::ElemPtr(Box::new(Expr::Reg(clone_reg)), Box::new(Expr::Int(1)), elem_layout.copy());
    let elem_bytes = layout_width(env, elem_layout);
    let list_size = Expr::Mul(Box::new(elem_bytes), Box::new(list_len(Expr::Reg(wrapper_reg))));
    let ptr_bytes = env.ptr_bytes;
    env.emit(Stmt::Memcpy { dst: index_1_ptr, src: list_ptr, bytes: list_size, align: ptr_bytes });
    assert(final(env).stmts@ =~= old(env).stmts@ + prepend_stmts(n, inplace, list_struct, elem, *elem_layout, old(env).ptr_bytes));
    Ok(store_list(Expr::Reg(clone_reg), Expr::Reg(len_reg)))
}

/// The statements of an unchecked read of element `index` of `wrapper_struct`,
/// bound by statement `n`: one refcount increment follows exactly when the
/// element layout holds refcounted data.
pub open spec fn get_stmts(n: int, wrapper_struct: Expr, index: Expr, elem: Layout) -> Seq<Stmt> {
    let load = Stmt::Let(
        Expr::Load(
            Box::new(Expr::ElemPtr(Box::new(Expr::ListPtr(Box::new(wrapper_struct))), Box::new(index), elem)),
            elem,
        ),
    );
    if memcpy_safe(elem) {
        seq![load]
    } else {
        seq![load, Stmt::IncRef { value: Expr::Reg(n as usize), amount: 1, layout: elem }]
    }
}

/// Reads element `elem_index` of a list with no bounds check; the caller has
/// compared the index with the length. The value read is an owned copy, so a
/// refcounted element gets one increment.
pub fn list_get_unsafe(env: &mut Env, list_layout: &Layout, elem_index: Expr, wrapper_struct: Expr) -> (r: Result<Expr, LowerError>)
    requires
        old(env).wf(),
    ensures
        final(env).wf(),
        list_element(*list_layout) is Some <==> r is Ok,
        r matches Err(e) ==> e == (LowerError::InvalidLayout { op: ListOp::GetUnsafe, layout: *list_layout })
            && *final(env) == *old(env),
        r matches Ok(v) ==> {
            let n = old(env).stmts@.len() as int;
            &&& emitted(*old(env), *final(env), get_stmts(n, wrapper_struct, elem_index, list_element(*list_layout)->0))
            &&& v == Expr::Reg(n as usize)
        },
{
    match list_layout {
        Layout::Builtin(Builtin::List(_, elem_layout)) => {
            let array_data_ptr = load_list_ptr(wrapper_struct);
            let elem_ptr = Expr::ElemPtr(Box::new(array_data_ptr), Box::new(elem_index), elem_layout.copy());
            let result = env.bind(Expr::Load(Box::new(elem_ptr), elem_layout.copy()));
            let n = env.stmts.len() - 1;
            if !elem_layout.safe_to_memcpy() {
                env.emit(Stmt::IncRef { value: Expr::Reg(n), amount: 1, layout: elem_layout.copy() });
            }
            assert(final(env).stmts@ =~= old(env).stmts@ + get_stmts(n as int, wrapper_struct, elem_index, **elem_layout));
            Ok(result)
        },
        _ => Err(LowerError::InvalidLayout { op: ListOp::GetUnsafe, layout: list_layout.copy() }),
    }
}

/// Binds a list struct and gives its length and its pointer field.
pub fn load_list(env: &mut Env, wrapper_struct: Expr) -> (r: (Expr, Expr))
    requires
        old(env).wf(),
    ensures
        final(env).wf(),
        emitted(*old(env), *final(env), seq![Stmt::Let(wrapper_struct)]),
        r.0 == Expr::ListLen(Box::new(Expr::Reg(old(env).stmts@.len() as usize))),
        r.1 == Expr::ListPtr(Box::new(Expr::Reg(old(env).stmts@.len() as usize))),
{
    env.bind(wrapper_struct);
    let n = env.stmts.len() - 1;
    assert(final(env).stmts@ =~= old(env).stmts@ + seq![Stmt::Let(wrapper_struct)]);
    (list_len(Expr::Reg(n)), load_list_ptr(Expr::Reg(n)))
}

/// `r` is the list struct of the buffer that a call of `f` with `args`
/// returns, with length `len`.
pub open spec fn stored_call_list(r: Expr, len: Expr, f: RuntimeFn, args: Seq<Expr>) -> bool {
    r matches Expr::MakeList(p, l) && (*l == len && (*p matches Expr::ToOpaque(c) && is_call(*c, f, args)))
}

/// List.set : List elem, Nat, elem -> List elem
pub fn list_set(env: &mut Env, list: Expr, index: Expr, element: Expr, element_layout: &Layout) -> (r: Expr)
    requires
        fits(*element_layout, old(env).ptr_bytes),
        old(env).wf(),
    ensures
        ({
            let n = old(env).stmts@.len() as int;
            let list_reg = Expr::Reg(n as usize);
            let length = Expr::ListLen(Box::new(list_reg));
            let bytes = Expr::ListPtr(Box::new(list_reg));
            &&& became(
                *old(env),
                *final(env),
                spill(old(env).stmts@.push(Stmt::Let(list)), element, *element_layout),
                after(old(env).wrappers@, WrapperKind::Dec, *element_layout),
            )
            &&& stored_call_list(
                r,
                length,
                RuntimeFn::ListSet,
                seq![
                    bytes,
                    length,
                    align_expr(*element_layout, old(env).ptr_bytes),
                    index,
                    opaque_slot(n + 1),
                    width_expr(*element_layout, old(env).ptr_bytes),
                    wrapper_expr(old(env).wrappers@, WrapperKind::Dec, *element_layout),
                ],
            )
        }),
{
    let dec_element_fn = env.wrapper(WrapperKind::Dec, element_layout);
    let (length, bytes) = load_list(env, list);
    let n = env.stmts.len() - 1;
    assert(env.stmts@ =~= old(env).stmts@.push(Stmt::Let(list)));
    let mut args: Vec<Expr> = Vec::new();
    args.push(bytes);
    args.push(length);
    args.push(alignment_intvalue(env, element_layout));
    args.push(index);
    args.push(pass_element_as_opaque(env, element, element_layout));
    args.push(layout_width(env, element_layout));
    args.push(Expr::Wrapper(dec_element_fn));
    let new_bytes = call_bitcode_fn(args, RuntimeFn::ListSet);
    store_list(new_bytes, list_len(Expr::Reg(n)))
}

/// The callback descriptor as the runtime takes it: entry point, opaque
/// pointer to the captured data, its increment function, its ownership flag.
pub open spec fn callback_args(c: RocFunctionCall) -> Seq<Expr> {
    seq![c.caller, Expr::ToOpaque(Box::new(c.data)), c.inc_n_data, c.data_is_owned]
}

fn push_callback(args: &mut Vec<Expr>, c: RocFunctionCall)
    ensures
        final(args)@ == old(args)@ + callback_args(c),
{
    let RocFunctionCall { caller, data, inc_n_data, data_is_owned } = c;
    args.push(caller);
    args.push(pass_as_opaque(data));
    args.push(inc_n_data);
    args.push(data_is_owned);
    assert(args@ =~= old(args)@ + callback_args(RocFunctionCall { caller, data, inc_n_data, data_is_owned }));
}

/// The walks over a list.
#[derive(PartialEq, Eq, Structural, Clone, Copy, Debug)]
pub enum ListWalk {
    Walk,
    WalkBackwards,
    WalkUntil,
    WalkBackwardsUntil,
}

/// The runtime entry point of a walk that is supported.
pub open spec fn walk_fn(variant: ListWalk) -> RuntimeFn {
    match variant {
        ListWalk::Walk => RuntimeFn::ListWalk,
        ListWalk::WalkBackwards => RuntimeFn::ListWalkBackwards,
        _ => RuntimeFn::ListWalkUntil,
    }
}

/// The arguments of a walk whose first statement is number `n`.
pub open spec fn walk_args(
    n: int,
    variant: ListWalk,
    c: RocFunctionCall,
    list: Expr,
    elem: Layout,
    default_layout: Layout,
    dec: Expr,
    ptr_bytes: u32,
) -> Seq<Expr> {
    let front = seq![to_boundary_expr(list)] + callback_args(c) + seq![
        opaque_slot(n),
        align_expr(elem, ptr_bytes),
        width_expr(elem, ptr_bytes),
        width_expr(default_layout, ptr_bytes),
    ];
    if variant == ListWalk::WalkUntil {
        front + seq![dec, opaque_slot(n + 2)]
    } else {
        front + seq![opaque_slot(n + 2)]
    }
}

/// List.walk and its variants: stores the initial state in a stack slot,
/// lets the runtime write the final state into another, and loads it.
/// The backwards walk with early exit is not supported.
pub fn list_walk_generic(
    env: &mut Env,
    roc_function_call: RocFunctionCall,
    list: Expr,
    element_layout: &Layout,
    default: Expr,
    default_layout: &Layout,
    variant: ListWalk,
) -> (r: Result<Expr, LowerError>)
    requires
        fits(*element_layout, old(env).ptr_bytes),
        fits(*default_layout, old(env).ptr_bytes),
        old(env).wf(),
    ensures
        final(env).wf(),
        variant != ListWalk::WalkBackwardsUntil <==> r is Ok,
        r matches Err(e) ==> e == (LowerError::Unimplemented { op: ListOp::WalkBackwardsUntil, layout: *element_layout })
            && *final(env) == *old(env),
        r matches Ok(v) ==> {
            let n = old(env).stmts@.len() as int;
            let stmts = spill(old(env).stmts@, default, *default_layout).push(Stmt::StackSlot(*default_layout));
            let c0 = old(env).wrappers@;
            let dec = wrapper_expr(c0, WrapperKind::Dec, *element_layout);
            let args = walk_args(n, variant, roc_function_call, list, *element_layout, *default_layout, dec, old(env).ptr_bytes);
            &&& final(env).ptr_bytes == old(env).ptr_bytes
            &&& final(env).wrappers@ == if variant == ListWalk::WalkUntil {
                after(c0, WrapperKind::Dec, *element_layout)
            } else {
                c0
            }
            &&& final(env).stmts@.len() == stmts.len() + 1
            &&& final(env).stmts@.take(stmts.len() as int) == stmts
            &&& is_void_call(final(env).stmts@.last(), walk_fn(variant), args)
            &&& v == Expr::Load(Box::new(Expr::Slot((n + 2) as usize)), *default_layout)
        },
{
    let zig_function = match variant {
        ListWalk::Walk => RuntimeFn::ListWalk,
        ListWalk::WalkBackwards => RuntimeFn::ListWalkBackwards,
        ListWalk::WalkUntil => RuntimeFn::ListWalkUntil,
        ListWalk::WalkBackwardsUntil => {
            return Err(LowerError::Unimplemented { op: ListOp::WalkBackwardsUntil, layout: element_layout.copy() });
        },
    };
    let ghost n = env.stmts@.len() as int;
    let ghost c0 = env.wrappers@;
    let ghost rfc = roc_function_call;
    let default_ptr = pass_element_as_opaque(env, default, default_layout);
    let result_ptr = env.stack_slot(default_layout);
    let result_slot = env.stmts.len() - 1;
    let ghost stmts = env.stmts@;
    let mut args: Vec<Expr> = Vec::new();
    args.push(pass_list_as_i128(list));
    push_callback(&mut args, roc_function_call);
    args.push(default_ptr);
    args.push(alignment_intvalue(env, element_layout));
    args.push(layout_width(env, element_layout));
    args.push(layout_width(env, default_layout));
    if variant == ListWalk::WalkUntil {
        let dec_element_fn = env.wrapper(WrapperKind::Dec, element_layout);
        args.push(Expr::Wrapper(dec_element_fn));
    }
    args.push(pass_as_opaque(result_ptr));
    let ghost dec = wrapper_expr(c0, WrapperKind::Dec, *element_layout);
    assert(args@ =~= walk_args(n, variant, rfc, list, *element_layout, *default_layout, dec, env.ptr_bytes));
    env.emit(Stmt::CallVoid(zig_function, args));
    assert(env.stmts@.take(stmts.len() as int) =~= stmts);
    Ok(Expr::Load(Box::new(Expr::Slot(result_slot)), default_layout.copy()))
}

/// Integer widths as the runtime numbers them.
#[derive(PartialEq, Eq, Structural, Clone, Copy, Debug)]
pub enum IntWidth {
    U8,
    U16,
    U32,
    U64,
    U128,
    I8,
    I16,
    I32,
    I64,
    I128,
    Usize,
}

/// The width of an integer builtin, for the integer builtins that a range
/// can have.
pub open spec fn int_width_of(b: Builtin) -> Option<IntWidth> {
    match b {
        Builtin::Int128 => Some(IntWidth::I128),
        Builtin::Int64 => Some(IntWidth::I64),
        Builtin::Int32 => Some(IntWidth::I32),
        Builtin::Int16 => Some(IntWidth::I16),
        Builtin::Int8 => Some(IntWidth::I8),
        Builtin::Usize => Some(IntWidth::Usize),
        _ => None,
    }
}

/// The runtime's number for an integer width.
pub open spec fn width_code(w: IntWidth) -> u8 {
    match w {
        IntWidth::U8 => 0,
        IntWidth::U16 => 1,
        IntWidth::U32 => 2,
        IntWidth::U64 => 3,
        IntWidth::U128 => 4,
        IntWidth::I8 => 5,
        IntWidth::I16 => 6,
        IntWidth::I32 => 7,
        IntWidth::I64 => 8,
        IntWidth::I128 => 9,
        IntWidth::Usize => 10,
    }
}

impl IntWidth {
    /// The width of an integer builtin; `None` for any other builtin.
    pub fn from_builtin(builtin: &Builtin) -> (r: Option<IntWidth>)
        ensures
            r == int_width_of(*builtin),
    {
        match builtin {
            Builtin::Int128 => Some(IntWidth::I128),
            Builtin::Int64 => Some(IntWidth::I64),
            Builtin::Int32 => Some(IntWidth::I32),
            Builtin::Int16 => Some(IntWidth::I16),
            Builtin::Int8 => Some(IntWidth::I8),
            Builtin::Usize => Some(IntWidth::Usize),
            _ => None,
        }
    }

    /// The runtime's number for this width.
    pub fn code(&self) -> (r: u8)
        ensures
            r == width_code(*self),
    {
        match self {
            IntWidth::U8 => 0,
            IntWidth::U16 => 1,
            IntWidth::U32 => 2,
            IntWidth::U64 => 3,
            IntWidth::U128 => 4,
            IntWidth::I8 => 5,
            IntWidth::I16 => 6,
            IntWidth::I32 => 7,
            IntWidth::I64 => 8,
            IntWidth::I128 => 9,
            IntWidth::Usize => 10,
        }
    }
}

/// List.range : Int a, Int a -> List (Int a)
pub fn list_range(env: &mut Env, builtin: &Builtin, low: Expr, high: Expr) -> (r: Result<Expr, LowerError>)
    requires
        old(env).wf(),
    ensures
        final(env).wf(),
        int_width_of(*builtin) is Some <==> r is Ok,
        r matches Err(e) ==> e == (LowerError::InvalidLayout { op: ListOp::Range, layout: Layout::Builtin(*builtin) })
            && *final(env) == *old(env),
        r matches Ok(v) ==> {
            let n = old(env).stmts@.len() as int;
            &&& final(env).ptr_bytes == old(env).ptr_bytes
            &&& final(env).wrappers == old(env).wrappers
            &&& final(env).stmts@ == spill(spill(old(env).stmts@, low, Layout::Builtin(*builtin)), high, Layout::Builtin(*builtin))
            &&& is_list_call(
                v,
                RuntimeFn::ListRange,
                seq![Expr::Byte(width_code(int_width_of(*builtin)->0)), opaque_slot(n), opaque_slot(n + 2)],
            )
        },
{
    let width = match IntWidth::from_builtin(builtin) {
        Some(w) => w,
        None => {
            return Err(LowerError::InvalidLayout { op: ListOp::Range, layout: Layout::Builtin(builtin.copy()) });
        },
    };
    let int_layout = Layout::Builtin(builtin.copy());
    let low_ptr = pass_element_as_opaque(env, low, &int_layout);
    let high_ptr = pass_element_as_opaque(env, high, &int_layout);
    let mut args: Vec<Expr> = Vec::new();
    args.push(Expr::Byte(width.code()));
    args.push(low_ptr);
    args.push(high_ptr);
    Ok(call_bitcode_fn_returns_list(args, RuntimeFn::ListRange))
}

/// List.keepIf : List elem, (elem -> Bool) -> List elem
pub fn list_keep_if(env: &mut Env, roc_function_call: RocFunctionCall, list: Expr, element_layout: &Layout) -> (r: Expr)
    requires
        fits(*element_layout, old(env).ptr_bytes),
        old(env).wf(),
    ensures
        ({
            let c0 = old(env).wrappers@;
            let c1 = after(c0, WrapperKind::Inc, *element_layout);
            &&& became(*old(env), *final(env), old(env).stmts@, after(c1, WrapperKind::Dec, *element_layout))
            &&& is_list_call(
                r,
                RuntimeFn::ListKeepIf,
                seq![to_boundary_expr(list)] + callback_args(roc_function_call) + seq![
                    align_expr(*element_layout, old(env).ptr_bytes),
                    width_expr(*element_layout, old(env).ptr_bytes),
                    wrapper_expr(c0, WrapperKind::Inc, *element_layout),
                    wrapper_expr(c1, WrapperKind::Dec, *element_layout),
                ],
            )
        }),
{
    let inc_element_fn = env.wrapper(WrapperKind::Inc, element_layout);
    let dec_element_fn = env.wrapper(WrapperKind::Dec, element_layout);
    let mut args: Vec<Expr> = Vec::new();
    args.push(pass_list_as_i128(list));
    push_callback(&mut args, roc_function_call);
    args.push(alignment_intvalue(env, element_layout));
    args.push(layout_width(env, element_layout));
    args.push(Expr::Wrapper(inc_element_fn));
    args.push(Expr::Wrapper(dec_element_fn));
    call_bitcode_fn_returns_list(args, RuntimeFn::ListKeepIf)
}

/// Keeps the payloads of the transform results of one tag: the runtime sees
/// the layout of the whole result, to drop it, and that of the payload kept.
fn list_keep_by_result(
    env: &mut Env,
    roc_function_call: RocFunctionCall,
    function_layout: &Layout,
    list: Expr,
    before_layout: &Layout,
    after_layout: &Layout,
    f: RuntimeFn,
    op: ListOp,
) -> (r: Result<Expr, LowerError>)
    requires
        fits(*function_layout, old(env).ptr_bytes),
        fits(*before_layout, old(env).ptr_bytes),
        fits(*after_layout, old(env).ptr_bytes),
        old(env).wf(),
    ensures
        final(env).wf(),
        returned_layout(*function_layout) is Some <==> r is Ok,
        r matches Err(e) ==> e == (LowerError::InvalidLayout { op, layout: *function_layout }) && *final(env) == *old(env),
        r matches Ok(v) ==> {
            let c0 = old(env).wrappers@;
            let result_layout = returned_layout(*function_layout)->0;
            &&& became(*old(env), *final(env), old(env).stmts@, after(c0, WrapperKind::Dec, result_layout))
            &&& is_list_call(
                v,
                f,
                seq![to_boundary_expr(list)] + callback_args(roc_function_call) + seq![
                    align_expr(*before_layout, old(env).ptr_bytes),
                    width_expr(*before_layout, old(env).ptr_bytes),
                    width_expr(result_layout, old(env).ptr_bytes),
                    width_expr(*after_layout, old(env).ptr_bytes),
                    wrapper_expr(c0, WrapperKind::Dec, result_layout),
                ],
            )
        },
{
    let result_layout: &Layout = match function_layout {
        Layout::FunctionPointer(ret) => &**ret,
        Layout::Closure(_, ret) => &**ret,
        _ => {
            return Err(LowerError::InvalidLayout { op, layout: function_layout.copy() });
        },
    };
    let dec_result_fn = env.wrapper(WrapperKind::Dec, result_layout);
    let mut args: Vec<Expr> = Vec::new();
    args.push(pass_list_as_i128(list));
    push_callback(&mut args, roc_function_call);
    args.push(alignment_intvalue(env, before_layout));
    args.push(layout_width(env, before_layout));
    args.push(layout_width(env, result_layout));
    args.push(layout_width(env, after_layout));
    args.push(Expr::Wrapper(dec_result_fn));
    Ok(call_bitcode_fn_returns_list(args, f))
}

/// List.keepOks : List before, (before -> Result after *) -> List after
pub fn list_keep_oks(
    env: &mut Env,
    roc_function_call: RocFunctionCall,
    function_layout: &Layout,
    list: Expr,
    before_layout: &Layout,
    after_layout: &Layout,
) -> (r: Result<Expr, LowerError>)
    requires
        fits(*function_layout, old(env).ptr_bytes),
        fits(*before_layout, old(env).ptr_bytes),
        fits(*after_layout, old(env).ptr_bytes),
        old(env).wf(),
    ensures
        final(env).wf(),
        returned_layout(*function_layout) is Some <==> r is Ok,
        r matches Err(e) ==> e == (LowerError::InvalidLayout { op: ListOp::KeepOks, layout: *function_layout })
            && *final(env) == *old(env),
        r matches Ok(v) ==> {
            let c0 = old(env).wrappers@;
            let result_layout = returned_layout(*function_layout)->0;
            &&& became(*old(env), *final(env), old(env).stmts@, after(c0, WrapperKind::Dec, result_layout))
            &&& is_list_call(
                v,
                RuntimeFn::ListKeepOks,
                seq![to_boundary_expr(list)] + callback_args(roc_function_call) + seq![
                    align_expr(*before_layout, old(env).ptr_bytes),
                    width_expr(*before_layout, old(env).ptr_bytes),
                    width_expr(result_layout, old(env).ptr_bytes),
                    width_expr(*after_layout, old(env).ptr_bytes),
                    wrapper_expr(c0, WrapperKind::Dec, result_layout),
                ],
            )
        },
{
    list_keep_by_result(
        env,
        roc_function_call,
        function_layout,
        list,
        before_layout,
        after_layout,
        RuntimeFn::ListKeepOks,
        ListOp::KeepOks,
    )
}

/// List.keepErrs : List before, (before -> Result * after) -> List after
pub fn list_keep_errs(
    env: &mut Env,
    roc_function_call: RocFunctionCall,
    function_layout: &Layout,
    list: Expr,
    before_layout: &Layout,
    after_layout: &Layout,
) -> (r: Result<Expr, LowerError>)
    requires
        fits(*function_layout, old(env).ptr_bytes),
        fits(*before_layout, old(env).ptr_bytes),
        fits(*after_layout, old(env).ptr_bytes),
        old(env).wf(),
    ensures
        final(env).wf(),
        returned_layout(*function_layout) is Some <==> r is Ok,
        r matches Err(e) ==> e == (LowerError::InvalidLayout { op: ListOp::KeepErrs, layout: *function_layout })
            && *final(env) == *old(env),
        r matches Ok(v) ==> {
            let c0 = old(env).wrappers@;
            let result_layout = returned_layout(*function_layout)->0;
            &&& became(*old(env), *final(env), old(env).stmts@, after(c0, WrapperKind::Dec, result_layout))
            &&& is_list_call(
                v,
                RuntimeFn::ListKeepErrs,
                seq![to_boundary_expr(list)] + callback_args(roc_function_call) + seq![
                    align_expr(*before_layout, old(env).ptr_bytes),
                    width_expr(*before_layout, old(env).ptr_bytes),
                    width_expr(result_layout, old(env).ptr_bytes),
                    width_expr(*after_layout, old(env).ptr_bytes),
                    wrapper_expr(c0, WrapperKind::Dec, result_layout),
                ],
            )
        },
{
    list_keep_by_result(
        env,
        roc_function_call,
        function_layout,
        list,
        before_layout,
        after_layout,
        RuntimeFn::ListKeepErrs,
        ListOp::KeepErrs,
    )
}

/// List.sortWith : List a, (a, a -> Ordering) -> List a
///
/// The runtime calls the comparison through `compare_wrapper`, with the
/// captured data of `roc_function_call`.
pub fn list_sort_with(
    env: &Env,
    roc_function_call: RocFunctionCall,
    compare_wrapper: Expr,
    list: Expr,
    element_layout: &Layout,
) -> (r: Expr)
    requires
        fits(*element_layout, env.ptr_bytes),
        valid_ptr_bytes(env.ptr_bytes),
    ensures
        is_list_call(
            r,
            RuntimeFn::ListSortWith,
            seq![
                to_boundary_expr(list),
                compare_wrapper,
                Expr::ToOpaque(Box::new(roc_function_call.data)),
                roc_function_call.inc_n_data,
                roc_function_call.data_is_owned,
                align_expr(*element_layout, env.ptr_bytes),
                width_expr(*element_layout, env.ptr_bytes),
            ],
        ),
{
    let RocFunctionCall { caller: _, data, inc_n_data, data_is_owned } = roc_function_call;
    let mut args: Vec<Expr> = Vec::new();
    args.push(pass_list_as_i128(list));
    args.push(compare_wrapper);
    args.push(pass_as_opaque(data));
    args.push(inc_n_data);
    args.push(data_is_owned);
    args.push(alignment_intvalue(env, element_layout));
    args.push(layout_width(env, element_layout));
    call_bitcode_fn_returns_list(args, RuntimeFn::ListSortWith)
}

/// List.mapWithIndex : List before, (Nat, before -> after) -> List after
pub fn list_map_with_index(
    env: &Env,
    roc_function_call: RocFunctionCall,
    list: Expr,
    element_layout: &Layout,
    return_layout: &Layout,
) -> (r: Expr)
    requires
        fits(*element_layout, env.ptr_bytes),
        fits(*return_layout, env.ptr_bytes),
        valid_ptr_bytes(env.ptr_bytes),
    ensures
        is_list_call(
            r,
            RuntimeFn::ListMapWithIndex,
            seq![to_boundary_expr(list)] + callback_args(roc_function_call) + seq![
                align_expr(*element_layout, env.ptr_bytes),
                width_expr(*element_layout, env.ptr_bytes),
                width_expr(*return_layout, env.ptr_bytes),
            ],
        ),
{
    let mut args: Vec<Expr> = Vec::new();
    args.push(pass_list_as_i128(list));
    push_callback(&mut args, roc_function_call);
    args.push(alignment_intvalue(env, element_layout));
    args.push(layout_width(env, element_layout));
    args.push(layout_width(env, return_layout));
    call_bitcode_fn_returns_list(args, RuntimeFn::ListMapWithIndex)
}

/// List.map : List before, (before -> after) -> List after
pub fn list_map(
    env: &Env,
    roc_function_call: RocFunctionCall,
    list: Expr,
    element_layout: &Layout,
    return_layout: &Layout,
) -> (r: Expr)
    requires
        fits(*element_layout, env.ptr_bytes),
        fits(*return_layout, env.ptr_bytes),
        valid_ptr_bytes(env.ptr_bytes),
    ensures
        is_list_call(
            r,
            RuntimeFn::ListMap,
            seq![to_boundary_expr(list)] + callback_args(roc_function_call) + seq![
                align_expr(*element_layout, env.ptr_bytes),
                width_expr(*element_layout, env.ptr_bytes),
                width_expr(*return_layout, env.ptr_bytes),
            ],
        ),
{
    let mut args: Vec<Expr> = Vec::new();
    args.push(pass_list_as_i128(list));
    push_callback(&mut args, roc_function_call);
    args.push(alignment_intvalue(env, element_layout));
    args.push(layout_width(env, element_layout));
    args.push(layout_width(env, return_layout));
    call_bitcode_fn_returns_list(args, RuntimeFn::ListMap)
}

/// List.map2 : List a, List b, (a, b -> c) -> List c
pub fn list_map2(
    env: &mut Env,
    roc_function_call: RocFunctionCall,
    list1: Expr,
    list2: Expr,
    element1_layout: &Layout,
    element2_layout: &Layout,
    return_layout: &Layout,
) -> (r: Expr)
    requires
        fits(*element1_layout, old(env).ptr_bytes),
        fits(*element2_layout, old(env).ptr_bytes),
        fits(*return_layout, old(env).ptr_bytes),
        old(env).wf(),
    ensures
        ({
            let c0 = old(env).wrappers@;
            let c1 = after(c0, WrapperKind::Dec, *element1_layout);
            let pb = old(env).ptr_bytes;
            &&& became(*old(env), *final(env), old(env).stmts@, after(c1, WrapperKind::Dec, *element2_layout))
            &&& is_list_call(
                r,
                RuntimeFn::ListMap2,
                seq![to_boundary_expr(list1), to_boundary_expr(list2)] + callback_args(roc_function_call) + seq![
                    align_expr(*return_layout, pb),
                    width_expr(*element1_layout, pb),
                    width_expr(*element2_layout, pb),
                    width_expr(*return_layout, pb),
                    wrapper_expr(c0, WrapperKind::Dec, *element1_layout),
                    wrapper_expr(c1, WrapperKind::Dec, *element2_layout),
                ],
            )
        }),
{
    let dec_a = env.wrapper(WrapperKind::Dec, element1_layout);
    let dec_b = env.wrapper(WrapperKind::Dec, element2_layout);
    let mut args: Vec<Expr> = Vec::new();
    args.push(pass_list_as_i128(list1));
    args.push(pass_list_as_i128(list2));
    push_callback(&mut args, roc_function_call);
    args.push(alignment_intvalue(env, return_layout));
    args.push(layout_width(env, element1_layout));
    args.push(layout_width(env, element2_layout));
    args.push(layout_width(env, return_layout));
    args.push(Expr::Wrapper(dec_a));
    args.push(Expr::Wrapper(dec_b));
    call_bitcode_fn_returns_list(args, RuntimeFn::ListMap2)
}

/// List.map3 : List a, List b, List c, (a, b, c -> d) -> List d
pub fn list_map3(
    env: &mut Env,
    roc_function_call: RocFunctionCall,
    list1: Expr,
    list2: Expr,
    list3: Expr,
    element1_layout: &Layout,
    element2_layout: &Layout,
    element3_layout: &Layout,
    result_layout: &Layout,
) -> (r: Expr)
    requires
        fits(*element1_layout, old(env).ptr_bytes),
        fits(*element2_layout, old(env).ptr_bytes),
        fits(*element3_layout, old(env).ptr_bytes),
        fits(*result_layout, old(env).ptr_bytes),
        old(env).wf(),
    ensures
        ({
            let c0 = old(env).wrappers@;
            let c1 = after(c0, WrapperKind::Dec, *element1_layout);
            let c2 = after(c1, WrapperKind::Dec, *element2_layout);
            let pb = old(env).ptr_bytes;
            &&& became(*old(env), *final(env), old(env).stmts@, after(c2, WrapperKind::Dec, *element3_layout))
            &&& is_list_call(
                r,
                RuntimeFn::ListMap3,
                seq![to_boundary_expr(list1), to_boundary_expr(list2), to_boundary_expr(list3)]
                    + callback_args(roc_function_call) + seq![
                    align_expr(*result_layout, pb),
                    width_expr(*element1_layout, pb),
                    width_expr(*element2_layout, pb),
                    width_expr(*element3_layout, pb),
                    width_expr(*result_layout, pb),
                    wrapper_expr(c0, WrapperKind::Dec, *element1_layout),
                    wrapper_expr(c1, WrapperKind::Dec, *element2_layout),
                    wrapper_expr(c2, WrapperKind::Dec, *element3_layout),
                ],
            )
        }),
{
    let dec_a = env.wrapper(WrapperKind::Dec, element1_layout);
    let dec_b = env.wrapper(WrapperKind::Dec, element2_layout);
    let dec_c = env.wrapper(WrapperKind::Dec, element3_layout);
    let mut args: Vec<Expr> = Vec::new();
    args.push(pass_list_as_i128(list1));
    args.push(pass_list_as_i128(list2));
    args.push(pass_list_as_i128(list3));
    push_callback(&mut args, roc_function_call);
    args.push(alignment_intvalue(env, result_layout));
    args.push(layout_width(env, element1_layout));
    args.push(layout_width(env, element2_layout));
    args.push(layout_width(env, element3_layout));
    args.push(layout_width(env, result_layout));
    args.push(Expr::Wrapper(dec_a));
    args.push(Expr::Wrapper(dec_b));
    args.push(Expr::Wrapper(dec_c));
    call_bitcode_fn_returns_list(args, RuntimeFn::ListMap3)
}

/// Keeps what a transform returns for each element, through runtime entry
/// point `op`: the transform is function `transform`, called with captured
/// data `closure_data`.
pub fn list_keep_result(
    env: &mut Env,
    transform: u64,
    transform_layout: &Layout,
    closure_data: Expr,
    closure_data_layout: &Layout,
    list: Expr,
    before_layout: &Layout,
    after_layout: &Layout,
    op: RuntimeFn,
) -> (r: Result<Expr, LowerError>)
    requires
        fits(*transform_layout, old(env).ptr_bytes),
        fits(*before_layout, old(env).ptr_bytes),
        fits(*after_layout, old(env).ptr_bytes),
        old(env).wf(),
    ensures
        final(env).wf(),
        returned_layout(*transform_layout) is Some <==> r is Ok,
        r matches Err(e) ==> e == (LowerError::InvalidLayout { op: ListOp::KeepResult, layout: *transform_layout })
            && *final(env) == *old(env),
        r matches Ok(v) ==> {
            let n = old(env).stmts@.len() as int;
            let pb = old(env).ptr_bytes;
            let result_layout = returned_layout(*transform_layout)->0;
            let caller = WrapperKind::Caller { function: transform };
            let c0 = old(env).wrappers@;
            let c1 = after(c0, caller, *closure_data_layout);
            let c2 = after(c1, WrapperKind::Inc, *transform_layout);
            &&& became(*old(env), *final(env), spill(old(env).stmts@, closure_data, *closure_data_layout), after(c2, WrapperKind::Dec, result_layout))
            &&& is_list_call(
                v,
                op,
                seq![
                    to_boundary_expr(list),
                    opaque_slot(n),
                    wrapper_expr(c0, caller, *closure_data_layout),
                    align_expr(*before_layout, pb),
                    width_expr(*before_layout, pb),
                    width_expr(*after_layout, pb),
                    width_expr(result_layout, pb),
                    wrapper_expr(c1, WrapperKind::Inc, *transform_layout),
                    wrapper_expr(c2, WrapperKind::Dec, result_layout),
                ],
            )
        },
{
    let result_layout: &Layout = match transform_layout {
        Layout::FunctionPointer(ret) => &**ret,
        Layout::Closure(_, ret) => &**ret,
        _ => {
            return Err(LowerError::InvalidLayout { op: ListOp::KeepResult, layout: transform_layout.copy() });
        },
    };
    let closure_data_ptr = pass_element_as_opaque(env, closure_data, closure_data_layout);
    let stepper_caller = env.wrapper(WrapperKind::Caller { function: transform }, closure_data_layout);
    let inc_closure = env.wrapper(WrapperKind::Inc, transform_layout);
    let dec_result_fn = env.wrapper(WrapperKind::Dec, result_layout);
    let mut args: Vec<Expr> = Vec::new();
    args.push(pass_list_as_i128(list));
    args.push(closure_data_ptr);
    args.push(Expr::Wrapper(stepper_caller));
    args.push(alignment_intvalue(env, before_layout));
    args.push(layout_width(env, before_layout));
    args.push(layout_width(env, after_layout));
    args.push(layout_width(env, result_layout));
    args.push(Expr::Wrapper(inc_closure));
    args.push(Expr::Wrapper(dec_result_fn));
    Ok(call_bitcode_fn_returns_list(args, op))
}

/// The number of refcount increments among `s`.
pub open spec fn increments(s: Seq<Stmt>) -> nat
    decreases s.len(),
{
    if s.len() == 0 {
        0
    } else {
        increments(s.drop_last()) + if s.last() is IncRef { 1nat } else { 0nat }
    }
}

/// An unchecked read increments the element's refcount exactly once when
/// its layout holds refcounted data, and not at all when it can be copied
/// byte for byte.
pub proof fn lemma_get_increments_once(n: int, wrapper_struct: Expr, index: Expr, elem: Layout)
    ensures
        increments(get_stmts(n, wrapper_struct, index, elem)) == if memcpy_safe(elem) { 0nat } else { 1nat },
{
    let s = get_stmts(n, wrapper_struct, index, elem);
    reveal_with_fuel(increments, 3);
    assert(s[0] is Let);
    if memcpy_safe(elem) {
        assert(s.drop_last() =~= Seq::<Stmt>::empty());
    } else {
        assert(s.drop_last().drop_last() =~= Seq::<Stmt>::empty());
        assert(s.drop_last().last() is Let);
    }
}

} // verus!
