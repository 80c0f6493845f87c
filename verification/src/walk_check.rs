use vstd::prelude::*;

use crate::ast::{Block, Expr, ExprAssign, ExprBinary, ExprIf, ExprReturn, KernelFn, Local, Node, Pat, Stmt};
use crate::ir_spec::{
    Emitted, assign_ir, binary_ir, expr_ir, if_ir, local_ir, node_ir, nodes_ir, operand_ir,
    return_ir, stmt_ir, stmts_ir, with_last_temp,
};
use crate::kernel::{module_ir, nvvm_ir};

verus! {

// Counting walks: they follow the generator's walk but only track the
// temporary counter, to tell beforehand whether the generator would panic.

/// `r` is the counter after the walk `e`, or `None` exactly where that walk panics.
pub open spec fn counts(r: Option<usize>, e: Emitted) -> bool {
    &&& (r is Some <==> e is Some)
    &&& (r matches Some(n) ==> e matches Some((_, t2)) && n == t2)
}

fn operand_count(e: &Expr, t: usize) -> (r: Option<usize>)
    ensures
        r is Some <==> operand_ir(*e, t as nat) is Some,
        r matches Some(n) ==> operand_ir(*e, t as nat) matches Some((_, _, t2)) && n == t2,
    decreases e,
{
    match e {
        Expr::Binary(b) => match binary_count(b, t) {
            Some(n) => if n >= 1 { Some(n) } else { None },
            None => None,
        },
        Expr::Paren(inner) => match expr_count(inner, t) {
            Some(n) => if n >= 1 { Some(n) } else { None },
            None => None,
        },
        _ => Some(t),
    }
}

fn binary_count(b: &ExprBinary, t: usize) -> (r: Option<usize>)
    ensures
        counts(r, binary_ir(*b, t as nat)),
    decreases b,
{
    match operand_count(&b.left, t) {
        None => None,
        Some(t1) => match operand_count(&b.right, t1) {
            None => None,
            Some(t2) => if t2 < usize::MAX { Some(t2 + 1) } else { None },
        },
    }
}

/// The counter after a binary right side, for assignments, `let` and `return`.
fn value_count(e: &Expr, t: usize) -> (r: Option<usize>)
    ensures
        *e matches Expr::Binary(b) ==> ((r is Some) == (with_last_temp(binary_ir(b, t as nat)) is Some)),
        *e matches Expr::Binary(b) ==> (r matches Some(n) ==> with_last_temp(binary_ir(b, t as nat)) matches Some((_, _, t2)) && n == t2),
        !(*e is Binary) ==> r == Some(t),
    decreases e,
{
    match e {
        Expr::Binary(b) => match binary_count(b, t) {
            Some(n) => if n >= 1 { Some(n) } else { None },
            None => None,
        },
        _ => Some(t),
    }
}

fn assign_count(a: &ExprAssign, t: usize) -> (r: Option<usize>)
    ensures
        counts(r, assign_ir(*a, t as nat)),
    decreases a,
{
    value_count(&a.right, t)
}

fn if_count(n: &ExprIf, t: usize) -> (r: Option<usize>)
    ensures
        counts(r, if_ir(*n, t as nat)),
    decreases n,
{
    if t > usize::MAX - 3 {
        return None;
    }
    match stmts_count(&n.then_branch.stmts, t + 3) {
        None => None,
        Some(t1) => match &n.else_branch {
            Some(e) => match &**e {
                Expr::Block(b) => stmts_count(&b.stmts, t1),
                _ => Some(t1),
            },
            None => Some(t1),
        },
    }
}

fn return_count(r: &ExprReturn, t: usize) -> (res: Option<usize>)
    ensures
        counts(res, return_ir(*r, t as nat)),
    decreases r,
{
    match &r.expr {
        Some(e) => value_count(e, t),
        None => Some(t),
    }
}

fn local_count(l: &Local, t: usize) -> (r: Option<usize>)
    ensures
        counts(r, local_ir(*l, t as nat)),
    decreases l,
{
    match &l.init {
        Some(e) => match &l.pat {
            Pat::Ident(_) => value_count(e, t),
            Pat::Other => Some(t),
        },
        None => Some(t),
    }
}

fn stmt_count(s: &Stmt, t: usize) -> (r: Option<usize>)
    ensures
        counts(r, stmt_ir(*s, t as nat)),
    decreases s,
{
    match s {
        Stmt::Local(l) => local_count(l, t),
        Stmt::Expr(e) => expr_count(e, t),
        Stmt::Semi(e) => expr_count(e, t),
        Stmt::Item => Some(t),
    }
}

fn expr_count(e: &Expr, t: usize) -> (r: Option<usize>)
    ensures
        counts(r, expr_ir(*e, t as nat)),
    decreases e,
{
    match e {
        Expr::Assign(a) => assign_count(a, t),
        Expr::Binary(b) => binary_count(b, t),
        Expr::Block(b) => stmts_count(&b.stmts, t),
        Expr::If(n) => if_count(n, t),
        Expr::Lit(_) => Some(t),
        Expr::Paren(inner) => expr_count(inner, t),
        Expr::Path(_) => Some(t),
        Expr::Return(r) => return_count(r, t),
        Expr::Other(ns) => nodes_count(ns, t),
    }
}

fn stmts_count(stmts: &Vec<Stmt>, t: usize) -> (r: Option<usize>)
    ensures
        counts(r, stmts_ir(stmts@, t as nat)),
    decreases stmts,
{
    let n = stmts.len();
    let mut i: usize = 0;
    let mut cur: usize = t;
    proof {
        assert(stmts@.take(0) =~= Seq::<Stmt>::empty());
    }
    while i < n
        invariant
            n == stmts@.len(),
            i <= n,
            stmts_ir(stmts@.take(i as int), t as nat) matches Some((_, t1)) && cur == t1,
        decreases n - i,
    {
        proof {
            let s2 = stmts@.take(i + 1);
            assert(s2.subrange(0, s2.len() - 1) =~= stmts@.take(i as int));
            assert(s2[s2.len() - 1] == stmts@[i as int]);
        }
        match stmt_count(&stmts[i], cur) {
            Some(next) => {
                cur = next;
            },
            None => {
                proof {
                    lemma_stmts_prefix_fails(stmts@, t as nat, i + 1);
                }
                return None;
            },
        }
        i += 1;
    }
    proof {
        assert(stmts@.take(n as int) =~= stmts@);
    }
    Some(cur)
}

fn nodes_count(nodes: &Vec<Node>, t: usize) -> (r: Option<usize>)
    ensures
        counts(r, nodes_ir(nodes@, t as nat)),
    decreases nodes,
{
    let n = nodes.len();
    let mut i: usize = 0;
    let mut cur: usize = t;
    proof {
        assert(nodes@.take(0) =~= Seq::<Node>::empty());
    }
    while i < n
        invariant
            n == nodes@.len(),
            i <= n,
            nodes_ir(nodes@.take(i as int), t as nat) matches Some((_, t1)) && cur == t1,
        decreases n - i,
    {
        proof {
            let s2 = nodes@.take(i + 1);
            assert(s2.subrange(0, s2.len() - 1) =~= nodes@.take(i as int));
            assert(s2[s2.len() - 1] == nodes@[i as int]);
        }
        let step = match &nodes[i] {
            Node::Expr(e) => expr_count(e, cur),
            Node::Block(b) => stmts_count(&b.stmts, cur),
        };
        assert(counts(step, node_ir(nodes@[i as int], cur as nat)));
        match step {
            Some(next) => {
                cur = next;
            },
            None => {
                proof {
                    lemma_nodes_prefix_fails(nodes@, t as nat, i + 1);
                }
                return None;
            },
        }
        i += 1;
    }
    proof {
        assert(nodes@.take(n as int) =~= nodes@);
    }
    Some(cur)
}

/// Where a prefix of the statements panics, so do the statements.
proof fn lemma_stmts_prefix_fails(s: Seq<Stmt>, t: nat, k: int)
    requires
        0 <= k <= s.len(),
        stmts_ir(s.take(k), t) is None,
    ensures
        stmts_ir(s, t) is None,
    decreases s.len() - k,
{
    if k < s.len() {
        let s2 = s.take(k + 1);
        assert(s2.subrange(0, s2.len() - 1) =~= s.take(k));
        lemma_stmts_prefix_fails(s, t, k + 1);
    } else {
        assert(s.take(k) =~= s);
    }
}

/// Where a prefix of the parts panics, so do the parts.
proof fn lemma_nodes_prefix_fails(s: Seq<Node>, t: nat, k: int)
    requires
        0 <= k <= s.len(),
        nodes_ir(s.take(k), t) is None,
    ensures
        nodes_ir(s, t) is None,
    decreases s.len() - k,
{
    if k < s.len() {
        let s2 = s.take(k + 1);
        assert(s2.subrange(0, s2.len() - 1) =~= s.take(k));
        lemma_nodes_prefix_fails(s, t, k + 1);
    } else {
        assert(s.take(k) =~= s);
    }
}

/// Whether walking the block from the counter `t` runs without panic.
pub fn block_walk_fits(block: &Block, t: usize) -> (ok: bool)
    ensures
        ok == stmts_ir(block.stmts@, t as nat) is Some,
{
    stmts_count(&block.stmts, t).is_some()
}

/// The NVVM IR module of a kernel function, or `None` where generating it
/// would panic.
pub fn try_nvvm_ir(item: &KernelFn) -> (ir: Option<String>)
    ensures
        ir is Some <==> module_ir(*item) is Some,
        ir matches Some(text) ==> module_ir(*item) == Some(text@),
{
    if block_walk_fits(&item.block, 0) {
        Some(nvvm_ir(item))
    } else {
        None
    }
}

} // verus!
