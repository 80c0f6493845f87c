use vstd::prelude::*;

use crate::ast::{BinOp, Expr, ExprAssign, ExprBinary, ExprIf, ExprReturn, Local, Node, Pat, Stmt};
use crate::text::decimal;

verus! {

// What the NVVM IR generator emits, as a function of the syntax it walks and
// of the number of temporaries allocated before. Each function gives the text
// appended to the IR and the temporary counter afterwards, or `None` where the
// generator panics (the counter would leave `usize`, or the name of "the last
// temporary" is asked for while none was ever allocated).

/// Text appended to the IR, and the temporary counter after the walk.
pub type Emitted = Option<(Seq<char>, nat)>;

/// Like `Emitted`, with the text that names the value of the walked operand.
pub type Operand = Option<(Seq<char>, Seq<char>, nat)>;

/// The name of the temporary with index `i`: `%` and its decimal number.
pub open spec fn temp_name(i: nat) -> Seq<char> {
    "%"@ + decimal(i)
}

/// The IR instruction of a binary operator (on 32-bit integers).
pub open spec fn op_text(op: BinOp) -> Seq<char> {
    match op {
        BinOp::Add => "add nsw i32"@,
        BinOp::Sub => "sub nsw i32"@,
        BinOp::Mul => "mul nsw i32"@,
        BinOp::Div => "sdiv i32"@,
        BinOp::Eq => "icmp eq i32"@,
        BinOp::Ne => "icmp ne i32"@,
        BinOp::Lt => "icmp slt i32"@,
        BinOp::Le => "icmp sle i32"@,
        BinOp::Gt => "icmp sgt i32"@,
        BinOp::Ge => "icmp sge i32"@,
        BinOp::Other => "unknown i32"@,
    }
}

/// The value an `if` tests: a variable, a literal, or nothing the generator supports.
pub open spec fn cond_text(e: Expr) -> Seq<char> {
    match e {
        Expr::Path(p) => "%"@ + p@,
        Expr::Lit(l) => l@,
        _ => "<unsupported>"@,
    }
}

/// The variable an assignment writes.
pub open spec fn target_text(e: Expr) -> Seq<char> {
    match e {
        Expr::Path(p) => "%"@ + p@,
        _ => "<unsupported>"@,
    }
}

/// `  temp = op left, right`: one instruction into a temporary.
pub open spec fn binary_line(temp: Seq<char>, op: BinOp, left: Seq<char>, right: Seq<char>) -> Seq<char> {
    "  "@ + temp + " = "@ + op_text(op) + " "@ + left + ", "@ + right + "\n"@
}

/// `  dst = src`: a copy of a value.
pub open spec fn copy_line(dst: Seq<char>, src: Seq<char>) -> Seq<char> {
    "  "@ + dst + " = "@ + src + "\n"@
}

/// `  ret i32 value`.
pub open spec fn ret_line(value: Seq<char>) -> Seq<char> {
    "  ret i32 "@ + value + "\n"@
}

/// `  br i1 cond, label then, label else` and the then label.
pub open spec fn branch_head(cond: Seq<char>, then_label: Seq<char>, else_label: Seq<char>) -> Seq<char> {
    "  br i1 "@ + cond + ", label "@ + then_label + ", label "@ + else_label + "\n"@ + then_label
        + ":\n"@
}

/// `  br label target` followed by the label `next`.
pub open spec fn jump_then_label(target: Seq<char>, next: Seq<char>) -> Seq<char> {
    "  br label "@ + target + "\n"@ + next + ":\n"@
}

/// After a walk, the name of the temporary allocated last (`temp_idx - 1`).
pub open spec fn with_last_temp(r: Emitted) -> Operand {
    match r {
        Some((out, t)) => if t >= 1 {
            Some((out, temp_name((t - 1) as nat), t))
        } else {
            None
        },
        None => None,
    }
}

/// An operand of a binary expression: the text it emits and the value it names.
pub open spec fn operand_ir(e: Expr, t: nat) -> Operand
    decreases e,
{
    match e {
        Expr::Path(p) => Some((seq![], "%"@ + p@, t)),
        Expr::Lit(l) => Some((seq![], l@, t)),
        Expr::Binary(b) => with_last_temp(binary_ir(b, t)),
        Expr::Paren(inner) => with_last_temp(expr_ir(*inner, t)),
        _ => Some((seq![], "<unsupported>"@, t)),
    }
}

/// `left op right`: both operands, then one instruction into a fresh temporary.
pub open spec fn binary_ir(b: ExprBinary, t: nat) -> Emitted
    decreases b,
{
    match operand_ir(*b.left, t) {
        None => None,
        Some((lo, ls, t1)) => match operand_ir(*b.right, t1) {
            None => None,
            Some((ro, rs, t2)) => if t2 < usize::MAX {
                Some((lo + ro + binary_line(temp_name(t2), b.op, ls, rs), t2 + 1))
            } else {
                None
            },
        },
    }
}

/// `left = right`: a copy into the target, for a binary, literal or variable right side.
pub open spec fn assign_ir(a: ExprAssign, t: nat) -> Emitted
    decreases a,
{
    let left = target_text(*a.left);
    match *a.right {
        Expr::Binary(b) => match with_last_temp(binary_ir(b, t)) {
            Some((out, name, t1)) => Some((out + copy_line(left, name), t1)),
            None => None,
        },
        Expr::Lit(l) => Some((copy_line(left, l@), t)),
        Expr::Path(p) => Some((copy_line(left, "%"@ + p@), t)),
        _ => Some((seq![], t)),
    }
}

/// `if`: a branch on the condition into three fresh labels (then, else, end).
pub open spec fn if_ir(n: ExprIf, t: nat) -> Emitted
    decreases n,
{
    if t + 3 <= usize::MAX {
        let then_label = temp_name(t);
        let else_label = temp_name(t + 1);
        let end_label = temp_name(t + 2);
        let head = branch_head(cond_text(*n.cond), then_label, else_label);
        match stmts_ir(n.then_branch.stmts@, t + 3) {
            None => None,
            Some((body, t1)) => {
                let mid = jump_then_label(end_label, else_label);
                let tail = jump_then_label(end_label, end_label);
                let other = match n.else_branch {
                    Some(e) => match *e {
                        Expr::Block(b) => stmts_ir(b.stmts@, t1),
                        _ => Some((seq![], t1)),
                    },
                    None => Some((seq![], t1)),
                };
                match other {
                    None => None,
                    Some((els, t2)) => Some((head + body + mid + els + tail, t2)),
                }
            },
        }
    } else {
        None
    }
}

/// `return`: `ret i32` of a variable, literal or binary value; `ret void` otherwise.
pub open spec fn return_ir(r: ExprReturn, t: nat) -> Emitted
    decreases r,
{
    match r.expr {
        Some(e) => match *e {
            Expr::Path(p) => Some((ret_line("%"@ + p@), t)),
            Expr::Lit(l) => Some((ret_line(l@), t)),
            Expr::Binary(b) => match with_last_temp(binary_ir(b, t)) {
                Some((out, name, t1)) => Some((out + ret_line(name), t1)),
                None => None,
            },
            _ => Some(("  ret void\n"@, t)),
        },
        None => Some(("  ret void\n"@, t)),
    }
}

/// `let name = init;`: a copy into `%name` of a binary, literal or variable value.
pub open spec fn local_ir(l: Local, t: nat) -> Emitted
    decreases l,
{
    match l.init {
        Some(e) => match l.pat {
            Pat::Ident(v) => match *e {
                Expr::Binary(b) => match with_last_temp(binary_ir(b, t)) {
                    Some((out, name, t1)) => Some((out + copy_line("%"@ + v@, name), t1)),
                    None => None,
                },
                Expr::Lit(x) => Some((copy_line("%"@ + v@, x@), t)),
                Expr::Path(p) => Some((copy_line("%"@ + v@, "%"@ + p@), t)),
                _ => Some((seq![], t)),
            },
            Pat::Other => Some((seq![], t)),
        },
        None => Some((seq![], t)),
    }
}

/// A statement; nested items emit nothing.
pub open spec fn stmt_ir(s: Stmt, t: nat) -> Emitted
    decreases s,
{
    match s {
        Stmt::Local(l) => local_ir(l, t),
        Stmt::Expr(e) => expr_ir(e, t),
        Stmt::Semi(e) => expr_ir(e, t),
        Stmt::Item => Some((seq![], t)),
    }
}

/// Any expression, as the syntax-tree walk dispatches it: the handled kinds
/// by their rules, and every other kind through the parts inside it.
pub open spec fn expr_ir(e: Expr, t: nat) -> Emitted
    decreases e,
{
    match e {
        Expr::Assign(a) => assign_ir(a, t),
        Expr::Binary(b) => binary_ir(b, t),
        Expr::Block(b) => stmts_ir(b.stmts@, t),
        Expr::If(n) => if_ir(n, t),
        Expr::Lit(_) => Some((seq![], t)),
        Expr::Paren(inner) => expr_ir(*inner, t),
        Expr::Path(_) => Some((seq![], t)),
        Expr::Return(r) => return_ir(r, t),
        Expr::Other(ns) => nodes_ir(ns@, t),
    }
}

/// The statements of a block, one after the other.
pub open spec fn stmts_ir(s: Seq<Stmt>, t: nat) -> Emitted
    decreases s,
{
    if s.len() == 0 {
        Some((seq![], t))
    } else {
        match stmts_ir(s.subrange(0, s.len() - 1), t) {
            None => None,
            Some((a, t1)) => match stmt_ir(s[s.len() - 1], t1) {
                None => None,
                Some((b, t2)) => Some((a + b, t2)),
            },
        }
    }
}

/// A part of an expression of another kind.
pub open spec fn node_ir(n: Node, t: nat) -> Emitted
    decreases n,
{
    match n {
        Node::Expr(e) => expr_ir(e, t),
        Node::Block(b) => stmts_ir(b.stmts@, t),
    }
}

/// The parts of an expression of another kind, one after the other.
pub open spec fn nodes_ir(s: Seq<Node>, t: nat) -> Emitted
    decreases s,
{
    if s.len() == 0 {
        Some((seq![], t))
    } else {
        match nodes_ir(s.subrange(0, s.len() - 1), t) {
            None => None,
            Some((a, t1)) => match node_ir(s[s.len() - 1], t1) {
                None => None,
                Some((b, t2)) => Some((a + b, t2)),
            },
        }
    }
}

} // verus!
