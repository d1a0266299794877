use vstd::prelude::*;
use crate::abi::{ListValue, boundary_bits, struct_of_bits, list_to_boundary, list_from_boundary, lemma_marshal_round_trip};
use crate::layout::Layout;

verus! {

/// Entry points of the runtime list library.
#[derive(PartialEq, Eq, Structural, Clone, Copy, Debug)]
pub enum RuntimeFn {
    ListSingle,
    ListRepeat,
    ListJoin,
    ListReverse,
    ListAppend,
    ListDrop,
    ListSet,
    ListContains,
    ListKeepIf,
    ListKeepOks,
    ListKeepErrs,
    ListSortWith,
    ListMapWithIndex,
    ListMap,
    ListMap2,
    ListMap3,
    ListConcat,
    ListWalk,
    ListWalkBackwards,
    ListWalkUntil,
    ListRange,
}

/// How the refcount header of a fresh buffer is set.
#[derive(PartialEq, Eq, Structural, Clone, Copy, Debug)]
pub enum RcInit {
    /// A new buffer: the count starts at one.
    One,
    /// A buffer reused in place: the count it had is kept.
    Inherit,
}

/// The static shape of an emitted value.
#[derive(PartialEq, Eq, Structural, Clone, Copy, Debug)]
pub enum BasicType {
    Int(u32),
    Pointer,
    ListStruct,
    Boundary,
}

/// An emitted value.
#[derive(PartialEq, Eq, Debug)]
pub enum Expr {
    /// A pointer-width integer constant.
    Int(u64),
    /// An 8-bit integer constant.
    Byte(u8),
    /// A boundary-width integer constant.
    Wide(u128),
    /// A value built elsewhere in the pipeline, by its number.
    Operand(u64),
    /// The value bound by statement `n` of the session.
    Reg(usize),
    /// The stack slot made by statement `n` of the session.
    Slot(usize),
    /// A pointer to wrapper function `n` of the session.
    Wrapper(usize),
    /// The index of the innermost enclosing loop.
    LoopIndex,
    /// The element that the innermost enclosing element loop loaded.
    LoopElement,
    /// A constant list in struct form.
    ConstList(ListValue),
    /// A pointer cast to an untyped byte pointer.
    ToOpaque(Box<Expr>),
    /// A list struct reinterpreted as its boundary value.
    ToBoundary(Box<Expr>),
    /// A boundary value reinterpreted as a list struct.
    FromBoundary(Box<Expr>),
    ListLen(Box<Expr>),
    ListPtr(Box<Expr>),
    /// A list struct from a pointer and a length.
    MakeList(Box<Expr>, Box<Expr>),
    Add(Box<Expr>, Box<Expr>),
    Mul(Box<Expr>, Box<Expr>),
    /// The address of element `index` of the buffer at `ptr`, whose elements
    /// have the given layout.
    ElemPtr(Box<Expr>, Box<Expr>, Layout),
    /// The value of the given layout stored at a pointer.
    Load(Box<Expr>, Layout),
    /// Unsigned less-than.
    Less(Box<Expr>, Box<Expr>),
    Call(RuntimeFn, Vec<Expr>),
    /// A heap buffer of `data_bytes` bytes behind a refcount header; the value
    /// is the address of its first element.
    Allocate { data_bytes: Box<Expr>, alignment: u32, refcount: RcInit },
}

/// Direction of an index loop.
#[derive(PartialEq, Eq, Structural, Clone, Copy, Debug)]
pub enum LoopDirection {
    Ascending,
    Descending,
}

/// An emitted statement.
#[derive(PartialEq, Eq, Debug)]
pub enum Stmt {
    /// Binds a value; later statements read it as `Expr::Reg`.
    Let(Expr),
    /// A stack slot for a value of the given layout; later statements read
    /// its address as `Expr::Slot`.
    StackSlot(Layout),
    /// Stores `value` at `ptr`.
    Store { ptr: Expr, value: Expr },
    /// Copies `bytes` bytes from `src` to `dst`.
    Memcpy { dst: Expr, src: Expr, bytes: Expr, align: u32 },
    /// A runtime call whose result is not used.
    CallVoid(RuntimeFn, Vec<Expr>),
    /// Increments the refcount of a value of the given layout by `amount`.
    IncRef { value: Expr, amount: u64, layout: Layout },
    /// An index loop over `0..bound`; with `elements`, a buffer and the
    /// layout of its elements, each pass also loads the element at the index.
    Loop { direction: LoopDirection, bound: Expr, elements: Option<(Expr, Layout)>, body: Vec<Stmt> },
    /// Runs one of two bodies and binds the value that the taken one gives.
    Branch {
        cond: Expr,
        then_body: Vec<Stmt>,
        then_value: Expr,
        else_body: Vec<Stmt>,
        else_value: Expr,
        ty: BasicType,
    },
}

/// What a higher-order operation hands to the runtime to call user code:
/// the entry point, the captured data, how to increment that data, and
/// whether the callee owns it.
#[derive(PartialEq, Eq, Debug)]
pub struct RocFunctionCall {
    pub caller: Expr,
    pub data: Expr,
    pub inc_n_data: Expr,
    pub data_is_owned: Expr,
}

/// The list operations that can fail to lower.
#[derive(PartialEq, Eq, Structural, Clone, Copy, Debug)]
pub enum ListOp {
    Join,
    Reverse,
    GetUnsafe,
    Prepend,
    KeepOks,
    KeepErrs,
    KeepResult,
    Concat,
    WalkBackwardsUntil,
    Range,
}

/// Why lowering stopped. Both are fatal for the unit being lowered.
#[derive(PartialEq, Eq, Debug)]
pub enum LowerError {
    /// A layout that an earlier phase should never have let through.
    InvalidLayout { op: ListOp, layout: Layout },
    /// A known combination that is not supported.
    Unimplemented { op: ListOp, layout: Layout },
}

/// The boundary form of a list expression; constants are folded.
pub open spec fn to_boundary_expr(e: Expr) -> Expr {
    match e {
        Expr::ConstList(l) => Expr::Wide(boundary_bits(l)),
        _ => Expr::ToBoundary(Box::new(e)),
    }
}

/// The struct form of a boundary expression; constants and a conversion
/// just made the other way are folded.
pub open spec fn from_boundary_expr(e: Expr) -> Expr {
    match e {
        Expr::Wide(b) => Expr::ConstList(struct_of_bits(b)),
        Expr::ToBoundary(x) => *x,
        _ => Expr::FromBoundary(Box::new(e)),
    }
}

/// `e` is a call of `f` with exactly the arguments `args`.
pub open spec fn is_call(e: Expr, f: RuntimeFn, args: Seq<Expr>) -> bool {
    e matches Expr::Call(g, a) && g == f && a@ =~= args
}

/// `s` is a void call of `f` with exactly the arguments `args`.
pub open spec fn is_void_call(s: Stmt, f: RuntimeFn, args: Seq<Expr>) -> bool {
    s matches Stmt::CallVoid(g, a) && g == f && a@ =~= args
}

/// `e` is the struct form of what a call of `f` with `args` returns.
pub open spec fn is_list_call(e: Expr, f: RuntimeFn, args: Seq<Expr>) -> bool {
    e matches Expr::FromBoundary(c) && is_call(*c, f, args)
}

/// A list struct as a value that can cross the runtime boundary.
pub fn pass_list_as_i128(list: Expr) -> (r: Expr)
    ensures
        r == to_boundary_expr(list),
{
    match list {
        Expr::ConstList(l) => Expr::Wide(list_to_boundary(l)),
        _ => Expr::ToBoundary(Box::new(list)),
    }
}

/// A boundary value that the runtime returned, as a list struct.
pub fn list_returned_from_zig(output: Expr) -> (r: Expr)
    ensures
        r == from_boundary_expr(output),
{
    match output {
        Expr::Wide(b) => Expr::ConstList(list_from_boundary(b)),
        Expr::ToBoundary(x) => *x,
        _ => Expr::FromBoundary(Box::new(output)),
    }
}

/// Any typed pointer as an untyped byte pointer.
pub fn pass_as_opaque(ptr: Expr) -> (r: Expr)
    ensures
        r == Expr::ToOpaque(Box::new(ptr)),
{
    Expr::ToOpaque(Box::new(ptr))
}

/// Converting a list expression to its boundary form and back gives the
/// same expression.
pub proof fn lemma_marshal_expr_round_trip(e: Expr)
    ensures
        from_boundary_expr(to_boundary_expr(e)) == e,
{
    if let Expr::ConstList(l) = e {
        lemma_marshal_round_trip(l);
    }
}

} // verus!
