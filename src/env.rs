use vstd::prelude::*;
use crate::ir::{Expr, Stmt};
use crate::layout::{Layout, valid_ptr_bytes};

verus! {

/// The role of a synthesized callback wrapper.
#[derive(PartialEq, Eq, Structural, Clone, Copy, Debug)]
pub enum WrapperKind {
    Inc,
    IncN,
    Dec,
    Eq,
    /// Calls user function `function`; the key's layout is that of its
    /// captured data.
    Caller { function: u64 },
}

/// What identifies a wrapper in the cache.
#[derive(PartialEq, Eq, Debug)]
pub struct WrapperKey {
    pub kind: WrapperKind,
    pub layout: Layout,
}

/// One code-generation session: the target's pointer width, the statements
/// emitted so far and the wrappers synthesized so far, each at most once.
#[derive(Debug)]
pub struct Env {
    pub ptr_bytes: u32,
    pub stmts: Vec<Stmt>,
    pub wrappers: Vec<WrapperKey>,
}

/// No key stands twice in the cache.
pub open spec fn keys_unique(s: Seq<WrapperKey>) -> bool {
    forall|i: int, j: int| 0 <= i < s.len() && 0 <= j < s.len() && s[i] == s[j] ==> i == j
}

pub open spec fn has_key(s: Seq<WrapperKey>, k: WrapperKey) -> bool {
    exists|i: int| 0 <= i < s.len() && s[i] == k
}

/// The wrapper number that a request for `k` yields.
pub open spec fn cache_id(s: Seq<WrapperKey>, k: WrapperKey) -> nat {
    if has_key(s, k) {
        (choose|i: int| 0 <= i < s.len() && s[i] == k) as nat
    } else {
        s.len()
    }
}

/// The cache after a request for `k`.
pub open spec fn cache_after(s: Seq<WrapperKey>, k: WrapperKey) -> Seq<WrapperKey> {
    if has_key(s, k) {
        s
    } else {
        s.push(k)
    }
}

/// Asking the cache twice for the same kind and layout gives the same
/// wrapper, and the second request synthesizes nothing.
pub proof fn lemma_wrapper_memoized(s: Seq<WrapperKey>, k: WrapperKey)
    requires
        keys_unique(s),
    ensures
        keys_unique(cache_after(s, k)),
        has_key(cache_after(s, k), k),
        cache_after(s, k)[cache_id(s, k) as int] == k,
        cache_id(cache_after(s, k), k) == cache_id(s, k),
        cache_after(cache_after(s, k), k) == cache_after(s, k),
{
    let s1 = cache_after(s, k);
    if !has_key(s, k) {
        assert(s1[s.len() as int] == k);
        assert forall|i: int, j: int| 0 <= i < s1.len() && 0 <= j < s1.len() && s1[i] == s1[j] implies i == j by {
            if i < s.len() && j == s.len() {
                assert(s[i] == k);
            }
            if j < s.len() && i == s.len() {
                assert(s[j] == k);
            }
        }
    }
    assert(has_key(s1, k)) by {
        assert(s1[cache_id(s, k) as int] == k);
    }
    let i1 = choose|i: int| 0 <= i < s1.len() && s1[i] == k;
    assert(s1[i1] == k);
}

impl Env {
    /// Well-formed: a pointer width of 4 or 8 bytes, and each wrapper key once.
    pub open spec fn wf(&self) -> bool {
        &&& valid_ptr_bytes(self.ptr_bytes)
        &&& keys_unique(self.wrappers@)
    }

    /// A fresh session.
    pub fn new(ptr_bytes: u32) -> (r: Env)
        requires
            valid_ptr_bytes(ptr_bytes),
        ensures
            r.wf(),
            r.ptr_bytes == ptr_bytes,
            r.stmts@ == Seq::<Stmt>::empty(),
            r.wrappers@ == Seq::<WrapperKey>::empty(),
    {
        Env { ptr_bytes, stmts: Vec::new(), wrappers: Vec::new() }
    }

    /// Appends a statement and returns its number.
    pub fn emit(&mut self, s: Stmt) -> (r: usize)
        ensures
            final(self).ptr_bytes == old(self).ptr_bytes,
            final(self).wrappers == old(self).wrappers,
            final(self).stmts@ == old(self).stmts@.push(s),
            r == old(self).stmts@.len(),
    {
        let n = self.stmts.len();
        self.stmts.push(s);
        n
    }

    /// Binds a value and returns the register that names it.
    pub fn bind(&mut self, e: Expr) -> (r: Expr)
        ensures
            final(self).ptr_bytes == old(self).ptr_bytes,
            final(self).wrappers == old(self).wrappers,
            final(self).stmts@ == old(self).stmts@.push(Stmt::Let(e)),
            r == Expr::Reg(old(self).stmts@.len() as usize),
    {
        let n = self.emit(Stmt::Let(e));
        Expr::Reg(n)
    }

    /// Makes a stack slot for a value of `layout` and returns its address.
    pub fn stack_slot(&mut self, layout: &Layout) -> (r: Expr)
        ensures
            final(self).ptr_bytes == old(self).ptr_bytes,
            final(self).wrappers == old(self).wrappers,
            final(self).stmts@ == old(self).stmts@.push(Stmt::StackSlot(*layout)),
            r == Expr::Slot(old(self).stmts@.len() as usize),
    {
        let n = self.emit(Stmt::StackSlot(layout.copy()));
        Expr::Slot(n)
    }

    /// The wrapper of role `kind` for `layout`: the one made before for the
    /// same pair, or a new one.
    pub fn wrapper(&mut self, kind: WrapperKind, layout: &Layout) -> (r: usize)
        requires
            old(self).wf(),
        ensures
            final(self).wf(),
            final(self).ptr_bytes == old(self).ptr_bytes,
            final(self).stmts == old(self).stmts,
            final(self).wrappers@ == cache_after(old(self).wrappers@, WrapperKey { kind, layout: *layout }),
            r == cache_id(old(self).wrappers@, WrapperKey { kind, layout: *layout }),
            r < final(self).wrappers@.len(),
            final(self).wrappers@[r as int] == (WrapperKey { kind, layout: *layout }),
    {
        let ghost key = WrapperKey { kind, layout: *layout };
        proof {
            lemma_wrapper_memoized(self.wrappers@, key);
        }
        let mut i: usize = 0;
        while i < self.wrappers.len()
            invariant
                0 <= i <= self.wrappers@.len(),
                self.wf(),
                self.wrappers@ == old(self).wrappers@,
                self.stmts == old(self).stmts,
                self.ptr_bytes == old(self).ptr_bytes,
                key == (WrapperKey { kind, layout: *layout }),
                forall|j: int| 0 <= j < i ==> self.wrappers@[j] != key,
            decreases self.wrappers@.len() - i,
        {
            if self.wrappers[i].kind == kind && self.wrappers[i].layout.same_as(layout) {
                assert(self.wrappers@[i as int] == key);
                assert(has_key(self.wrappers@, key));
                let ghost c = choose|k: int| 0 <= k < self.wrappers@.len() && self.wrappers@[k] == key;
                assert(self.wrappers@[c] == self.wrappers@[i as int]);
                return i;
            }
            i = i + 1;
        }
        assert(!has_key(self.wrappers@, key));
        let n = self.wrappers.len();
        self.wrappers.push(WrapperKey { kind, layout: layout.copy() });
        n
    }
}

} // verus!
