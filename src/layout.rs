use vstd::prelude::*;

verus! {

/// How a list buffer is owned.
#[derive(PartialEq, Eq, Structural, Clone, Copy, Debug)]
pub enum MemoryMode {
    /// Single owner: the buffer may be mutated in place.
    Unique,
    /// Shared: elements need increments and decrements.
    Refcounted,
}

/// Whether a freshly requested buffer reuses an existing one in place.
#[derive(PartialEq, Eq, Structural, Clone, Copy, Debug)]
pub enum InPlace {
    InPlace,
    Clone,
}

/// Built-in value shapes.
#[derive(PartialEq, Eq, Debug)]
pub enum Builtin {
    Int128,
    Int64,
    Int32,
    Int16,
    Int8,
    Int1,
    Usize,
    Str,
    EmptyStr,
    /// A list whose element type is not fixed, or proven empty.
    EmptyList,
    List(MemoryMode, Box<Layout>),
}

/// The static memory shape of a value.
#[derive(PartialEq, Eq, Debug)]
pub enum Layout {
    Builtin(Builtin),
    /// A record with no fields.
    Unit,
    /// A record: its first field, then the record of the fields after it.
    Struct(Box<Layout>, Box<Layout>),
    /// A pointer back into an enclosing recursive type.
    RecursivePointer,
    /// A function pointer, with the layout of what it returns.
    FunctionPointer(Box<Layout>),
    /// A closure: the layout of its captured data, then of what it returns.
    Closure(Box<Layout>, Box<Layout>),
}

/// A pointer width that the target may have, in bytes.
pub open spec fn valid_ptr_bytes(ptr_bytes: u32) -> bool {
    ptr_bytes == 4 || ptr_bytes == 8
}

/// Bytes that a value of layout `l` occupies on the stack.
pub open spec fn size_of(l: Layout, ptr_bytes: u32) -> nat
    decreases l,
{
    match l {
        Layout::Builtin(b) => match b {
            Builtin::Int128 => 16,
            Builtin::Int64 => 8,
            Builtin::Int32 => 4,
            Builtin::Int16 => 2,
            Builtin::Int8 => 1,
            Builtin::Int1 => 1,
            Builtin::Usize => ptr_bytes as nat,
            _ => (2 * ptr_bytes) as nat,
        },
        Layout::Unit => 0,
        Layout::Struct(first, rest) => size_of(*first, ptr_bytes) + size_of(*rest, ptr_bytes),
        Layout::RecursivePointer => ptr_bytes as nat,
        Layout::FunctionPointer(_) => ptr_bytes as nat,
        Layout::Closure(data, _) => size_of(*data, ptr_bytes),
    }
}

/// Alignment in bytes of a value of layout `l`.
pub open spec fn align_of(l: Layout, ptr_bytes: u32) -> nat
    decreases l,
{
    match l {
        Layout::Builtin(b) => match b {
            Builtin::Int128 => 16,
            Builtin::Int64 => 8,
            Builtin::Int32 => 4,
            Builtin::Int16 => 2,
            Builtin::Int8 => 1,
            Builtin::Int1 => 1,
            _ => ptr_bytes as nat,
        },
        Layout::Unit => 1,
        Layout::Struct(first, rest) => {
            let a = align_of(*first, ptr_bytes);
            let b = align_of(*rest, ptr_bytes);
            if a < b { b } else { a }
        },
        Layout::RecursivePointer => ptr_bytes as nat,
        Layout::FunctionPointer(_) => ptr_bytes as nat,
        Layout::Closure(data, _) => align_of(*data, ptr_bytes),
    }
}

/// Values of layout `l` can be copied byte for byte: they hold no refcounted
/// heap pointer.
pub open spec fn memcpy_safe(l: Layout) -> bool
    decreases l,
{
    match l {
        Layout::Builtin(b) => match b {
            Builtin::Str => false,
            Builtin::List(_, _) => false,
            _ => true,
        },
        Layout::Unit => true,
        Layout::Struct(first, rest) => memcpy_safe(*first) && memcpy_safe(*rest),
        Layout::RecursivePointer => false,
        Layout::FunctionPointer(_) => true,
        Layout::Closure(data, _) => memcpy_safe(*data),
    }
}

/// The size of `l`, and of every layout inside it, fits in 32 bits.
pub open spec fn fits(l: Layout, ptr_bytes: u32) -> bool
    decreases l,
{
    &&& size_of(l, ptr_bytes) <= u32::MAX
    &&& match l {
        Layout::Builtin(Builtin::List(_, e)) => fits(*e, ptr_bytes),
        Layout::Struct(first, rest) => fits(*first, ptr_bytes) && fits(*rest, ptr_bytes),
        Layout::FunctionPointer(ret) => fits(*ret, ptr_bytes),
        Layout::Closure(data, ret) => fits(*data, ptr_bytes) && fits(*ret, ptr_bytes),
        _ => true,
    }
}

/// The layout of the elements of a list layout, if it is one with a fixed
/// element type.
pub open spec fn list_element(l: Layout) -> Option<Layout> {
    match l {
        Layout::Builtin(Builtin::List(_, e)) => Some(*e),
        _ => None,
    }
}

/// The layout of what a callable layout returns.
pub open spec fn returned_layout(l: Layout) -> Option<Layout> {
    match l {
        Layout::FunctionPointer(ret) => Some(*ret),
        Layout::Closure(_, ret) => Some(*ret),
        _ => None,
    }
}

impl Builtin {
    /// A structurally equal copy.
    pub fn copy(&self) -> (r: Builtin)
        ensures
            r == *self,
        decreases self,
    {
        match self {
            Builtin::Int128 => Builtin::Int128,
            Builtin::Int64 => Builtin::Int64,
            Builtin::Int32 => Builtin::Int32,
            Builtin::Int16 => Builtin::Int16,
            Builtin::Int8 => Builtin::Int8,
            Builtin::Int1 => Builtin::Int1,
            Builtin::Usize => Builtin::Usize,
            Builtin::Str => Builtin::Str,
            Builtin::EmptyStr => Builtin::EmptyStr,
            Builtin::EmptyList => Builtin::EmptyList,
            Builtin::List(m, e) => Builtin::List(*m, Box::new(e.copy())),
        }
    }
}

impl Layout {
    /// A structurally equal copy.
    pub fn copy(&self) -> (r: Layout)
        ensures
            r == *self,
        decreases self,
    {
        match self {
            Layout::Builtin(b) => Layout::Builtin(b.copy()),
            Layout::Unit => Layout::Unit,
            Layout::Struct(first, rest) => Layout::Struct(Box::new(first.copy()), Box::new(rest.copy())),
            Layout::RecursivePointer => Layout::RecursivePointer,
            Layout::FunctionPointer(ret) => Layout::FunctionPointer(Box::new(ret.copy())),
            Layout::Closure(data, ret) => Layout::Closure(Box::new(data.copy()), Box::new(ret.copy())),
        }
    }

    /// Structural equality of two layouts.
    pub fn same_as(&self, other: &Layout) -> (r: bool)
        ensures
            r == (*self == *other),
        decreases self,
    {
        match (self, other) {
            (Layout::Builtin(a), Layout::Builtin(b)) => match (a, b) {
                (Builtin::Int128, Builtin::Int128) => true,
                (Builtin::Int64, Builtin::Int64) => true,
                (Builtin::Int32, Builtin::Int32) => true,
                (Builtin::Int16, Builtin::Int16) => true,
                (Builtin::Int8, Builtin::Int8) => true,
                (Builtin::Int1, Builtin::Int1) => true,
                (Builtin::Usize, Builtin::Usize) => true,
                (Builtin::Str, Builtin::Str) => true,
                (Builtin::EmptyStr, Builtin::EmptyStr) => true,
                (Builtin::EmptyList, Builtin::EmptyList) => true,
                (Builtin::List(m1, e1), Builtin::List(m2, e2)) => *m1 == *m2 && e1.same_as(e2),
                _ => false,
            },
            (Layout::Unit, Layout::Unit) => true,
            (Layout::Struct(f1, r1), Layout::Struct(f2, r2)) => f1.same_as(f2) && r1.same_as(r2),
            (Layout::RecursivePointer, Layout::RecursivePointer) => true,
            (Layout::FunctionPointer(r1), Layout::FunctionPointer(r2)) => r1.same_as(r2),
            (Layout::Closure(d1, r1), Layout::Closure(d2, r2)) => d1.same_as(d2) && r1.same_as(r2),
            _ => false,
        }
    }

    /// Bytes that a value of this layout occupies on the stack.
    pub fn stack_size(&self, ptr_bytes: u32) -> (r: u32)
        requires
            valid_ptr_bytes(ptr_bytes),
            fits(*self, ptr_bytes),
        ensures
            r == size_of(*self, ptr_bytes),
        decreases self,
    {
        match self {
            Layout::Builtin(b) => match b {
                Builtin::Int128 => 16,
                Builtin::Int64 => 8,
                Builtin::Int32 => 4,
                Builtin::Int16 => 2,
                Builtin::Int8 => 1,
                Builtin::Int1 => 1,
                Builtin::Usize => ptr_bytes,
                _ => 2 * ptr_bytes,
            },
            Layout::Unit => 0,
            Layout::Struct(first, rest) => first.stack_size(ptr_bytes) + rest.stack_size(ptr_bytes),
            Layout::RecursivePointer => ptr_bytes,
            Layout::FunctionPointer(_) => ptr_bytes,
            Layout::Closure(data, _) => data.stack_size(ptr_bytes),
        }
    }

    /// Alignment in bytes of a value of this layout.
    pub fn alignment_bytes(&self, ptr_bytes: u32) -> (r: u32)
        requires
            valid_ptr_bytes(ptr_bytes),
        ensures
            r == align_of(*self, ptr_bytes),
            1 <= r <= 16,
        decreases self,
    {
        match self {
            Layout::Builtin(b) => match b {
                Builtin::Int128 => 16,
                Builtin::Int64 => 8,
                Builtin::Int32 => 4,
                Builtin::Int16 => 2,
                Builtin::Int8 => 1,
                Builtin::Int1 => 1,
                _ => ptr_bytes,
            },
            Layout::Unit => 1,
            Layout::Struct(first, rest) => {
                let a = first.alignment_bytes(ptr_bytes);
                let b = rest.alignment_bytes(ptr_bytes);
                if a < b { b } else { a }
            },
            Layout::RecursivePointer => ptr_bytes,
            Layout::FunctionPointer(_) => ptr_bytes,
            Layout::Closure(data, _) => data.alignment_bytes(ptr_bytes),
        }
    }

    /// Whether values of this layout can be copied byte for byte.
    pub fn safe_to_memcpy(&self) -> (r: bool)
        ensures
            r == memcpy_safe(*self),
        decreases self,
    {
        match self {
            Layout::Builtin(b) => match b {
                Builtin::Str => false,
                Builtin::List(_, _) => false,
                _ => true,
            },
            Layout::Unit => true,
            Layout::Struct(first, rest) => first.safe_to_memcpy() && rest.safe_to_memcpy(),
            Layout::RecursivePointer => false,
            Layout::FunctionPointer(_) => true,
            Layout::Closure(data, _) => data.safe_to_memcpy(),
        }
    }
}

} // verus!
