use vstd::prelude::*;

use crate::ast::{Block, Expr, ExprAssign, ExprBinary, ExprIf, ExprReturn, Local, Node, Pat, Stmt};
use crate::ir_spec::{
    assign_ir, binary_ir, cond_text, expr_ir, if_ir, local_ir, node_ir, nodes_ir, op_text, operand_ir,
    return_ir, stmt_ir, stmts_ir, target_text, temp_name, with_last_temp,
};
use crate::text::{decimal, decimal_injective, decimal_reads_back, digits_value};
use crate::ast::BinOp;

verus! {

/// Temporaries allocated at different counter values have different names;
/// as `next_temp` raises the counter by one at each call, a generator never
/// hands out the same name twice.
pub proof fn temp_names_distinct(i: nat, j: nat)
    requires
        i != j,
    ensures
        temp_name(i) != temp_name(j),
{
    decimal_injective(i, j);
    let p = "%"@;
    if temp_name(i) == temp_name(j) {
        assert(temp_name(i).subrange(p.len() as int, temp_name(i).len() as int) =~= crate::text::decimal(i));
        assert(temp_name(j).subrange(p.len() as int, temp_name(j).len() as int) =~= crate::text::decimal(j));
    }
}

/// Walking an expression never lowers the temporary counter.
pub proof fn expr_walk_counter_grows(e: Expr, t: nat)
    ensures
        expr_ir(e, t) matches Some((_, t2)) ==> t <= t2,
    decreases e,
{
    match e {
        Expr::Assign(a) => assign_counter_grows(a, t),
        Expr::Binary(b) => binary_walk_allocates(b, t),
        Expr::Block(b) => stmts_walk_counter_grows(b.stmts@, t),
        Expr::If(n) => if_counter_grows(n, t),
        Expr::Paren(inner) => expr_walk_counter_grows(*inner, t),
        Expr::Return(r) => return_counter_grows(r, t),
        Expr::Other(ns) => nodes_counter_grows(ns@, t),
        _ => {},
    }
}

/// Walking a binary expression allocates at least one temporary: the one
/// that holds its value.
pub proof fn binary_walk_allocates(b: ExprBinary, t: nat)
    ensures
        binary_ir(b, t) matches Some((_, t2)) ==> t < t2,
    decreases b,
{
    operand_counter_grows(*b.left, t);
    if let Some((_, _, t1)) = operand_ir(*b.left, t) {
        operand_counter_grows(*b.right, t1);
    }
}

/// Walking statements one after the other never lowers the temporary counter.
pub proof fn stmts_walk_counter_grows(s: Seq<Stmt>, t: nat)
    ensures
        stmts_ir(s, t) matches Some((_, t2)) ==> t <= t2,
    decreases s,
{
    if s.len() > 0 {
        stmts_walk_counter_grows(s.subrange(0, s.len() - 1), t);
        if let Some((_, t1)) = stmts_ir(s.subrange(0, s.len() - 1), t) {
            stmt_counter_grows(s[s.len() - 1], t1);
        }
    }
}

proof fn operand_counter_grows(e: Expr, t: nat)
    ensures
        operand_ir(e, t) matches Some((_, _, t2)) ==> t <= t2,
    decreases e,
{
    match e {
        Expr::Binary(b) => binary_walk_allocates(b, t),
        Expr::Paren(inner) => expr_walk_counter_grows(*inner, t),
        _ => {},
    }
}

proof fn assign_counter_grows(a: ExprAssign, t: nat)
    ensures
        assign_ir(a, t) matches Some((_, t2)) ==> t <= t2,
    decreases a,
{
    if let Expr::Binary(b) = *a.right {
        binary_walk_allocates(b, t);
    }
}

proof fn if_counter_grows(n: ExprIf, t: nat)
    ensures
        if_ir(n, t) matches Some((_, t2)) ==> t <= t2,
    decreases n,
{
    stmts_walk_counter_grows(n.then_branch.stmts@, t + 3);
    if let Some((_, t1)) = stmts_ir(n.then_branch.stmts@, t + 3) {
        if let Some(e) = n.else_branch {
            if let Expr::Block(b) = *e {
                stmts_walk_counter_grows(b.stmts@, t1);
            }
        }
    }
}

proof fn return_counter_grows(r: ExprReturn, t: nat)
    ensures
        return_ir(r, t) matches Some((_, t2)) ==> t <= t2,
    decreases r,
{
    if let Some(e) = r.expr {
        if let Expr::Binary(b) = *e {
            binary_walk_allocates(b, t);
        }
    }
}

proof fn local_counter_grows(l: Local, t: nat)
    ensures
        local_ir(l, t) matches Some((_, t2)) ==> t <= t2,
    decreases l,
{
    if let Some(e) = l.init {
        if let Pat::Ident(_) = l.pat {
            if let Expr::Binary(b) = *e {
                binary_walk_allocates(b, t);
            }
        }
    }
}

proof fn stmt_counter_grows(s: Stmt, t: nat)
    ensures
        stmt_ir(s, t) matches Some((_, t2)) ==> t <= t2,
    decreases s,
{
    match s {
        Stmt::Local(l) => local_counter_grows(l, t),
        Stmt::Expr(e) => expr_walk_counter_grows(e, t),
        Stmt::Semi(e) => expr_walk_counter_grows(e, t),
        Stmt::Item => {},
    }
}

proof fn node_counter_grows(n: Node, t: nat)
    ensures
        node_ir(n, t) matches Some((_, t2)) ==> t <= t2,
    decreases n,
{
    match n {
        Node::Expr(e) => expr_walk_counter_grows(e, t),
        Node::Block(b) => stmts_walk_counter_grows(b.stmts@, t),
    }
}

proof fn nodes_counter_grows(s: Seq<Node>, t: nat)
    ensures
        nodes_ir(s, t) matches Some((_, t2)) ==> t <= t2,
    decreases s,
{
    if s.len() > 0 {
        nodes_counter_grows(s.subrange(0, s.len() - 1), t);
        if let Some((_, t1)) = nodes_ir(s.subrange(0, s.len() - 1), t) {
            node_counter_grows(s[s.len() - 1], t1);
        }
    }
}

/// Walking `s1 + s2` is walking `s1`, then `s2` from the counter where `s1`
/// left it: the IR of a block is the IR of its statements in order.
pub proof fn stmts_walk_concat(s1: Seq<Stmt>, s2: Seq<Stmt>, t: nat)
    ensures
        stmts_ir(s1 + s2, t) == (match stmts_ir(s1, t) {
            None => None,
            Some((a, t1)) => match stmts_ir(s2, t1) {
                None => None,
                Some((b, t2)) => Some((a + b, t2)),
            },
        }),
    decreases s2.len(),
{
    if s2.len() == 0 {
        assert(s1 + s2 =~= s1);
        if let Some((a, t1)) = stmts_ir(s1, t) {
            assert(a + seq![] =~= a);
        }
    } else {
        let p = s2.subrange(0, s2.len() - 1);
        stmts_walk_concat(s1, p, t);
        let whole = s1 + s2;
        assert(whole.subrange(0, whole.len() - 1) =~= s1 + p);
        assert(whole[whole.len() - 1] == s2[s2.len() - 1]);
        if let Some((a, t1)) = stmts_ir(s1, t) {
            if let Some((b, t2)) = stmts_ir(p, t1) {
                if let Some((c, t3)) = stmt_ir(s2[s2.len() - 1], t2) {
                    assert(a + b + c =~= a + (b + c));
                }
            }
        }
    }
}

/// The last instruction emitted for a binary expression is the one of its
/// outermost operator, and it defines the newest temporary: the one numbered
/// one below the counter after the walk. Its operands are the values named by
/// the walks of the left and then the right operand, emitted before it.
pub proof fn binary_defines_newest_temp(b: ExprBinary, t: nat)
    ensures
        binary_ir(b, t) matches Some((out, t2)) ==> {
            &&& t < t2
            &&& operand_ir(*b.left, t) matches Some((lo, ls, t1))
            &&& operand_ir(*b.right, t1) matches Some((ro, rs, tr))
            &&& tr == t2 - 1
            &&& out == lo + ro + ("  "@ + temp_name((t2 - 1) as nat) + " = "@ + op_text(b.op) + " "@ + ls
                + ", "@ + rs + "\n"@)
        },
{
    binary_walk_allocates(b, t);
}

/// `let name = left op right;` copies into `%name` the value of the whole
/// right side: the temporary defined by the last instruction of its walk
/// (numbered one below the counter after the walk), not an inner one.
pub proof fn let_binds_value_of_whole_binary(v: String, b: ExprBinary, t: nat)
    ensures
        ({
            let l = Local { pat: Pat::Ident(v), init: Some(Box::new(Expr::Binary(b))) };
            local_ir(l, t) matches Some((out, t1)) ==> {
                &&& binary_ir(b, t) matches Some((bout, tb))
                &&& t1 == tb
                &&& t < tb
                &&& out == bout + ("  %"@ + v@ + " = "@ + temp_name((tb - 1) as nat) + "\n"@)
            }
        }),
{
    binary_walk_allocates(b, t);
    let l = Local { pat: Pat::Ident(v), init: Some(Box::new(Expr::Binary(b))) };
    if let Some((bout, tb)) = binary_ir(b, t) {
        reveal_strlit("  %");
        reveal_strlit("  ");
        reveal_strlit("%");
        let name = temp_name((tb - 1) as nat);
        assert("  "@ + ("%"@ + v@) + " = "@ + name + "\n"@ =~= "  %"@ + v@ + " = "@ + name + "\n"@);
    }
}

/// `x = left op right` copies into the target the value of the whole right
/// side: the temporary defined by the last instruction of its walk.
pub proof fn assign_copies_value_of_whole_binary(left: Expr, b: ExprBinary, t: nat)
    ensures
        ({
            let a = ExprAssign { left: Box::new(left), right: Box::new(Expr::Binary(b)) };
            assign_ir(a, t) matches Some((out, t1)) ==> {
                &&& binary_ir(b, t) matches Some((bout, tb))
                &&& t1 == tb
                &&& t < tb
                &&& out == bout + ("  "@ + target_text(left) + " = "@ + temp_name((tb - 1) as nat) + "\n"@)
            }
        }),
{
    binary_walk_allocates(b, t);
}

/// `return left op right` returns the value of the whole expression: the
/// temporary defined by the last instruction of its walk.
pub proof fn return_yields_value_of_whole_binary(b: ExprBinary, t: nat)
    ensures
        ({
            let r = ExprReturn { expr: Some(Box::new(Expr::Binary(b))) };
            return_ir(r, t) matches Some((out, t1)) ==> {
                &&& binary_ir(b, t) matches Some((bout, tb))
                &&& t1 == tb
                &&& t < tb
                &&& out == bout + ("  ret i32 "@ + temp_name((tb - 1) as nat) + "\n"@)
            }
        }),
{
    binary_walk_allocates(b, t);
}

/// The IR of a block used as an `else` part (empty for no `else` or an `else if`).
pub open spec fn else_part_is(e: Option<Box<Expr>>, t1: nat, els: Seq<char>, t2: nat) -> bool {
    match e {
        Some(x) => match *x {
            Expr::Block(b) => stmts_ir(b.stmts@, t1) == Some((els, t2)),
            _ => els == Seq::<char>::empty() && t2 == t1,
        },
        None => els == Seq::<char>::empty() && t2 == t1,
    }
}

/// Lowering an `if`, with or without `else`: it allocates three distinct
/// labels `%t` (then), `%t+1` (else), `%t+2` (end); the conditional branch
/// goes to the then label when the condition holds and to the else label
/// otherwise; the then label is printed right before the instructions of the
/// then branch, which jump to the end label; the else label is printed
/// right before the else part, which jumps to the end label, printed last.
pub proof fn if_branches_to_then_when_true(n: ExprIf, t: nat)
    ensures
        if_ir(n, t) matches Some((out, t2)) ==> {
            let then_label = temp_name(t);
            let else_label = temp_name(t + 1);
            let end_label = temp_name(t + 2);
            let head = "  br i1 "@ + cond_text(*n.cond) + ", label "@ + then_label + ", label "@
                + else_label + "\n"@ + then_label + ":\n"@;
            let mid = "  br label "@ + end_label + "\n"@ + else_label + ":\n"@;
            let tail = "  br label "@ + end_label + "\n"@ + end_label + ":\n"@;
            &&& then_label != else_label && then_label != end_label && else_label != end_label
            &&& stmts_ir(n.then_branch.stmts@, t + 3) matches Some((body, t1))
            &&& out.len() >= head.len() + body.len() + mid.len() + tail.len()
            &&& else_part_is(
                n.else_branch,
                t1,
                out.subrange((head.len() + body.len() + mid.len()) as int, out.len() - tail.len()),
                t2,
            )
            &&& out == head + body + mid + out.subrange(
                (head.len() + body.len() + mid.len()) as int,
                out.len() - tail.len(),
            ) + tail
        },
{
    temp_names_distinct(t, t + 1);
    temp_names_distinct(t, t + 2);
    temp_names_distinct(t + 1, t + 2);
    if let Some((out, t2)) = if_ir(n, t) {
        let then_label = temp_name(t);
        let else_label = temp_name(t + 1);
        let end_label = temp_name(t + 2);
        let head = "  br i1 "@ + cond_text(*n.cond) + ", label "@ + then_label + ", label "@
            + else_label + "\n"@ + then_label + ":\n"@;
        let mid = "  br label "@ + end_label + "\n"@ + else_label + ":\n"@;
        let tail = "  br label "@ + end_label + "\n"@ + end_label + ":\n"@;
        let (body, t1) = stmts_ir(n.then_branch.stmts@, t + 3).unwrap();
        let els: Seq<char> = match n.else_branch {
            Some(x) => match *x {
                Expr::Block(b) => stmts_ir(b.stmts@, t1).unwrap().0,
                _ => Seq::<char>::empty(),
            },
            None => Seq::<char>::empty(),
        };
        assert(out == head + body + mid + els + tail);
        let k = (head.len() + body.len() + mid.len()) as int;
        assert(out.subrange(k, out.len() - tail.len()) =~= els);
    }
}

/// An `if`, with or without `else`, walks without panic whenever its three
/// labels fit in the counter and its then branch (and a block `else`) walk
/// without panic: a missing `else` is simply skipped.
pub proof fn if_walk_panics_only_on_overflow(n: ExprIf, t: nat)
    requires
        t + 3 <= usize::MAX,
        stmts_ir(n.then_branch.stmts@, t + 3) is Some,
        match n.else_branch {
            Some(x) => match *x {
                Expr::Block(b) => stmts_ir(b.stmts@, stmts_ir(n.then_branch.stmts@, t + 3).unwrap().1)
                    is Some,
                _ => true,
            },
            None => true,
        },
    ensures
        if_ir(n, t) is Some,
{
}

/// The name of temporary `i` is `%` followed by the decimal digits of `i`.
pub proof fn temp_name_is_percent_number(i: nat)
    ensures
        temp_name(i).len() >= 2,
        temp_name(i)[0] == '%',
        digits_value(temp_name(i).subrange(1, temp_name(i).len() as int)) == i,
{
    reveal_strlit("%");
    decimal_reads_back(i);
    assert(temp_name(i).subrange(1, temp_name(i).len() as int) =~= decimal(i));
}

/// Each operator becomes the LLVM instruction of the same operation on
/// 32-bit integers (signed division and signed comparisons; wrapping-free
/// `nsw` arithmetic), and operators without an IR form become `unknown`.
pub proof fn operator_instructions()
    ensures
        op_text(BinOp::Add) == "add nsw i32"@,
        op_text(BinOp::Sub) == "sub nsw i32"@,
        op_text(BinOp::Mul) == "mul nsw i32"@,
        op_text(BinOp::Div) == "sdiv i32"@,
        op_text(BinOp::Eq) == "icmp eq i32"@,
        op_text(BinOp::Ne) == "icmp ne i32"@,
        op_text(BinOp::Lt) == "icmp slt i32"@,
        op_text(BinOp::Le) == "icmp sle i32"@,
        op_text(BinOp::Gt) == "icmp sgt i32"@,
        op_text(BinOp::Ge) == "icmp sge i32"@,
        op_text(BinOp::Other) == "unknown i32"@,
{
}

/// Variables are referred to as `%` and their name, literals as written,
/// wherever the generator names a value: as an operand, as the condition of
/// an `if`, and as the target of an assignment. Naming them emits nothing
/// and allocates nothing.
pub proof fn values_are_named_by_their_text(p: String, l: String, t: nat)
    ensures
        operand_ir(Expr::Path(p), t) == Some((Seq::<char>::empty(), "%"@ + p@, t)),
        operand_ir(Expr::Lit(l), t) == Some((Seq::<char>::empty(), l@, t)),
        cond_text(Expr::Path(p)) == "%"@ + p@,
        cond_text(Expr::Lit(l)) == l@,
        target_text(Expr::Path(p)) == "%"@ + p@,
{
}

/// A binary or parenthesised operand is named by the newest temporary after
/// its walk: the value the walk computed last.
pub proof fn compound_operand_names_newest_temp(e: Expr, t: nat)
    ensures
        (e is Binary || e is Paren) ==> (operand_ir(e, t) matches Some((out, name, t1)) ==> {
            &&& t1 >= 1
            &&& name == temp_name((t1 - 1) as nat)
            &&& (match e {
                Expr::Binary(b) => binary_ir(b, t) == Some((out, t1)),
                Expr::Paren(inner) => expr_ir(*inner, t) == Some((out, t1)),
                _ => true,
            })
        }),
{
}

} // verus!
