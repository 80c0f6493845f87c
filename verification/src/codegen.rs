use vstd::prelude::*;

use crate::ast::{BinOp, Block, Expr, ExprAssign, ExprBinary, ExprIf, ExprReturn, Local, Node, Pat, Stmt};
use crate::ir_spec::{
    Emitted, assign_ir, binary_ir, binary_line, branch_head, cond_text, copy_line, expr_ir, if_ir,
    jump_then_label, local_ir, node_ir, nodes_ir, op_text, operand_ir, ret_line, return_ir, stmt_ir,
    stmts_ir, target_text, temp_name,
};
use crate::text::push_decimal;

verus! {

/// Walks the body of a kernel function and writes its NVVM IR instructions.
pub struct IRGenerator {
    /// The instructions written so far.
    pub ir: String,
    /// The number of temporaries (and labels) allocated so far.
    pub temp_idx: usize,
}

/// The IR instruction text of a binary operator.
fn op_str(op: BinOp) -> (s: &'static str)
    ensures
        s@ == op_text(op),
{
    match op {
        BinOp::Add => "add nsw i32",
        BinOp::Sub => "sub nsw i32",
        BinOp::Mul => "mul nsw i32",
        BinOp::Div => "sdiv i32",
        BinOp::Eq => "icmp eq i32",
        BinOp::Ne => "icmp ne i32",
        BinOp::Lt => "icmp slt i32",
        BinOp::Le => "icmp sle i32",
        BinOp::Gt => "icmp sgt i32",
        BinOp::Ge => "icmp sge i32",
        BinOp::Other => "unknown i32",
    }
}

/// `%` followed by the token text of a variable.
fn var_ref(p: &String) -> (s: String)
    ensures
        s@ == "%"@ + p@,
{
    let mut s = String::from_str("%");
    s.append(p.as_str());
    s
}

/// `  temp = op left, right` and a newline.
fn binary_line_str(temp: &String, op: BinOp, left: &String, right: &String) -> (s: String)
    ensures
        s@ == binary_line(temp@, op, left@, right@),
{
    let mut s = String::from_str("  ");
    s.append(temp.as_str());
    s.append(" = ");
    s.append(op_str(op));
    s.append(" ");
    s.append(left.as_str());
    s.append(", ");
    s.append(right.as_str());
    s.append("\n");
    s
}

/// `  dst = src` and a newline.
fn copy_line_str(dst: &String, src: &String) -> (s: String)
    ensures
        s@ == copy_line(dst@, src@),
{
    let mut s = String::from_str("  ");
    s.append(dst.as_str());
    s.append(" = ");
    s.append(src.as_str());
    s.append("\n");
    s
}

/// `  ret i32 value` and a newline.
fn ret_line_str(value: &String) -> (s: String)
    ensures
        s@ == ret_line(value@),
{
    let mut s = String::from_str("  ret i32 ");
    s.append(value.as_str());
    s.append("\n");
    s
}

/// The conditional branch of an `if` and its then label.
fn branch_head_str(cond: &String, then_label: &String, else_label: &String) -> (s: String)
    ensures
        s@ == branch_head(cond@, then_label@, else_label@),
{
    let mut s = String::from_str("  br i1 ");
    s.append(cond.as_str());
    s.append(", label ");
    s.append(then_label.as_str());
    s.append(", label ");
    s.append(else_label.as_str());
    s.append("\n");
    s.append(then_label.as_str());
    s.append(":\n");
    s
}

/// A jump to `target`, then the label `next`.
fn jump_then_label_str(target: &String, next: &String) -> (s: String)
    ensures
        s@ == jump_then_label(target@, next@),
{
    let mut s = String::from_str("  br label ");
    s.append(target.as_str());
    s.append("\n");
    s.append(next.as_str());
    s.append(":\n");
    s
}

impl IRGenerator {
    /// `next` is this generator after a walk that emitted `r` (which did not panic).
    pub open spec fn emitted(self, next: Self, r: Emitted) -> bool {
        &&& r matches Some((out, t))
        &&& next.ir@ == self.ir@ + out
        &&& next.temp_idx == t
    }

    /// A generator with no instructions and no temporaries.
    pub fn new() -> (g: Self)
        ensures
            g.ir@ == Seq::<char>::empty(),
            g.temp_idx == 0,
    {
        IRGenerator { ir: String::new(), temp_idx: 0 }
    }

    /// Allocates a fresh temporary and returns its name.
    pub fn next_temp(&mut self) -> (name: String)
        requires
            old(self).temp_idx < usize::MAX,
        ensures
            name@ == temp_name(old(self).temp_idx as nat),
            final(self).temp_idx == old(self).temp_idx + 1,
            final(self).ir@ == old(self).ir@,
    {
        let mut name = String::from_str("%");
        push_decimal(&mut name, self.temp_idx);
        self.temp_idx += 1;
        name
    }

    /// The name of the temporary allocated last.
    fn last_temp(&self) -> (name: String)
        requires
            self.temp_idx >= 1,
        ensures
            name@ == temp_name((self.temp_idx - 1) as nat),
    {
        let mut name = String::from_str("%");
        push_decimal(&mut name, self.temp_idx - 1);
        name
    }

    /// Walks an operand of a binary expression and returns the text naming its value.
    fn visit_operand(&mut self, e: &Expr) -> (s: String)
        requires
            operand_ir(*e, old(self).temp_idx as nat) is Some,
        ensures
            operand_ir(*e, old(self).temp_idx as nat) matches Some((out, text, t))
                && final(self).ir@ == old(self).ir@ + out && final(self).temp_idx == t
                && s@ == text,
        decreases e,
    {
        match e {
            Expr::Path(p) => var_ref(p),
            Expr::Lit(l) => l.clone(),
            Expr::Binary(b) => {
                self.visit_expr_binary(b);
                self.last_temp()
            },
            Expr::Paren(inner) => {
                self.visit_expr(inner);
                self.last_temp()
            },
            _ => String::from_str("<unsupported>"),
        }
    }

    /// `left op right`.
    pub fn visit_expr_binary(&mut self, node: &ExprBinary)
        requires
            binary_ir(*node, old(self).temp_idx as nat) is Some,
        ensures
            old(self).emitted(*final(self), binary_ir(*node, old(self).temp_idx as nat)),
        decreases node,
    {
        let ghost ir0 = self.ir@;
        let left = self.visit_operand(&node.left);
        let ghost ir1 = self.ir@;
        let right = self.visit_operand(&node.right);
        let ghost ir2 = self.ir@;
        let temp = self.next_temp();
        let line = binary_line_str(&temp, node.op, &left, &right);
        self.ir.append(line.as_str());
        proof {
            let lo = ir1.subrange(ir0.len() as int, ir1.len() as int);
            let ro = ir2.subrange(ir1.len() as int, ir2.len() as int);
            assert(ir1 =~= ir0 + lo);
            assert(ir2 =~= ir1 + ro);
            assert(self.ir@ =~= ir0 + (lo + ro + line@));
            let t0 = old(self).temp_idx as nat;
            assert(operand_ir(*node.left, t0) matches Some((a, b, c)) && a == lo && b == left@);
            let t1 = operand_ir(*node.left, t0).unwrap().2;
            assert(operand_ir(*node.right, t1) matches Some((a, b, c)) && a == ro && b == right@);
            assert(binary_ir(*node, t0) == Some((lo + ro + line@, self.temp_idx as nat)));
        }
    }

    /// Dispatches an expression to the walk of its kind.
    pub fn visit_expr(&mut self, e: &Expr)
        requires
            expr_ir(*e, old(self).temp_idx as nat) is Some,
        ensures
            old(self).emitted(*final(self), expr_ir(*e, old(self).temp_idx as nat)),
        decreases e,
    {
        match e {
            Expr::Assign(a) => self.visit_expr_assign(a),
            Expr::Binary(b) => self.visit_expr_binary(b),
            Expr::Block(b) => self.visit_block(b),
            Expr::If(n) => self.visit_expr_if(n),
            Expr::Lit(_) => {},
            Expr::Paren(inner) => self.visit_expr(inner),
            Expr::Path(_) => {},
            Expr::Return(r) => self.visit_expr_return(r),
            Expr::Other(ns) => self.visit_nodes(ns),
        }
    }

    /// `left = right`.
    pub fn visit_expr_assign(&mut self, node: &ExprAssign)
        requires
            assign_ir(*node, old(self).temp_idx as nat) is Some,
        ensures
            old(self).emitted(*final(self), assign_ir(*node, old(self).temp_idx as nat)),
        decreases node,
    {
        let ghost ir0 = self.ir@;
        let ghost t0 = self.temp_idx as nat;
        let left = match &*node.left {
            Expr::Path(p) => var_ref(p),
            _ => String::from_str("<unsupported>"),
        };
        assert(left@ == target_text(*node.left));
        match &*node.right {
            Expr::Binary(b) => {
                self.visit_expr_binary(b);
                let ghost ir1 = self.ir@;
                let temp = self.last_temp();
                let line = copy_line_str(&left, &temp);
                self.ir.append(line.as_str());
                proof {
                    let out = ir1.subrange(ir0.len() as int, ir1.len() as int);
                    assert(ir1 =~= ir0 + out);
                    assert(self.ir@ =~= ir0 + (out + line@));
                    assert(binary_ir(*b, t0) == Some((out, self.temp_idx as nat)));
                    assert(assign_ir(*node, t0) == Some((out + line@, self.temp_idx as nat)));
                }
            },
            Expr::Lit(l) => {
                let line = copy_line_str(&left, l);
                self.ir.append(line.as_str());
                assert(assign_ir(*node, t0) == Some((line@, t0)));
            },
            Expr::Path(p) => {
                let value = var_ref(p);
                let line = copy_line_str(&left, &value);
                self.ir.append(line.as_str());
                assert(assign_ir(*node, t0) == Some((line@, t0)));
            },
            _ => {
                assert(self.ir@ =~= self.ir@ + Seq::<char>::empty());
            },
        }
    }

    /// `if cond { ... } else { ... }`: a conditional branch to a then label
    /// and an else label, the two branches, and a jump from each to an end label.
    pub fn visit_expr_if(&mut self, node: &ExprIf)
        requires
            if_ir(*node, old(self).temp_idx as nat) is Some,
        ensures
            old(self).emitted(*final(self), if_ir(*node, old(self).temp_idx as nat)),
        decreases node,
    {
        let ghost ir0 = self.ir@;
        let cond = match &*node.cond {
            Expr::Path(p) => var_ref(p),
            Expr::Lit(l) => l.clone(),
            _ => String::from_str("<unsupported>"),
        };
        assert(cond@ == cond_text(*node.cond));
        let then_label = self.next_temp();
        let else_label = self.next_temp();
        let end_label = self.next_temp();
        let head = branch_head_str(&cond, &then_label, &else_label);
        self.ir.append(head.as_str());
        let ghost ir1 = self.ir@;
        let ghost t1 = self.temp_idx as nat;
        self.visit_stmts(&node.then_branch.stmts);
        let ghost ir2 = self.ir@;
        let ghost t2 = self.temp_idx as nat;
        let mid = jump_then_label_str(&end_label, &else_label);
        self.ir.append(mid.as_str());
        let ghost ir3 = self.ir@;
        match &node.else_branch {
            Some(e) => match &**e {
                Expr::Block(b) => self.visit_stmts(&b.stmts),
                _ => {},
            },
            None => {},
        }
        let ghost ir4 = self.ir@;
        let tail = jump_then_label_str(&end_label, &end_label);
        self.ir.append(tail.as_str());
        proof {
            let body = ir2.subrange(ir1.len() as int, ir2.len() as int);
            let els = ir4.subrange(ir3.len() as int, ir4.len() as int);
            assert(ir2 =~= ir1 + body);
            assert(ir4 =~= ir3 + els);
            assert(self.ir@ =~= ir0 + (head@ + body + mid@ + els + tail@));
            let t0 = old(self).temp_idx as nat;
            assert(head@ == branch_head(cond_text(*node.cond), temp_name(t0), temp_name(t0 + 1)));
            assert(t1 == t0 + 3);
            assert(stmts_ir(node.then_branch.stmts@, t1) == Some((body, t2)));
            assert(if_ir(*node, t0) == Some((head@ + body + mid@ + els + tail@, self.temp_idx as nat)));
        }
    }

    /// `return expr?`.
    pub fn visit_expr_return(&mut self, node: &ExprReturn)
        requires
            return_ir(*node, old(self).temp_idx as nat) is Some,
        ensures
            old(self).emitted(*final(self), return_ir(*node, old(self).temp_idx as nat)),
        decreases node,
    {
        let ghost ir0 = self.ir@;
        let ghost t0 = self.temp_idx as nat;
        match &node.expr {
            Some(expr) => match &**expr {
                Expr::Path(p) => {
                    let value = var_ref(p);
                    let line = ret_line_str(&value);
                    self.ir.append(line.as_str());
                    assert(return_ir(*node, t0) == Some((line@, t0)));
                },
                Expr::Lit(l) => {
                    let line = ret_line_str(l);
                    self.ir.append(line.as_str());
                    assert(return_ir(*node, t0) == Some((line@, t0)));
                },
                Expr::Binary(b) => {
                    self.visit_expr_binary(b);
                    let ghost ir1 = self.ir@;
                    let temp = self.last_temp();
                    let line = ret_line_str(&temp);
                    self.ir.append(line.as_str());
                    proof {
                        let out = ir1.subrange(ir0.len() as int, ir1.len() as int);
                        assert(ir1 =~= ir0 + out);
                        assert(self.ir@ =~= ir0 + (out + line@));
                        assert(binary_ir(*b, t0) == Some((out, self.temp_idx as nat)));
                        assert(return_ir(*node, t0) == Some((out + line@, self.temp_idx as nat)));
                    }
                },
                _ => {
                    self.ir.append("  ret void\n");
                    assert(return_ir(*node, t0) == Some(("  ret void\n"@, t0)));
                },
            },
            None => {
                self.ir.append("  ret void\n");
                assert(return_ir(*node, t0) == Some(("  ret void\n"@, t0)));
            },
        }
    }

    /// `let pat = init;`: only a plain identifier bound to a binary, literal
    /// or variable value emits a copy.
    pub fn visit_local(&mut self, node: &Local)
        requires
            local_ir(*node, old(self).temp_idx as nat) is Some,
        ensures
            old(self).emitted(*final(self), local_ir(*node, old(self).temp_idx as nat)),
        decreases node,
    {
        let ghost ir0 = self.ir@;
        let ghost t0 = self.temp_idx as nat;
        if let Some(expr) = &node.init {
            match &node.pat {
                Pat::Ident(var) => {
                    let dst = var_ref(var);
                    match &**expr {
                        Expr::Binary(b) => {
                            self.visit_expr_binary(b);
                            let ghost ir1 = self.ir@;
                            let temp = self.last_temp();
                            let line = copy_line_str(&dst, &temp);
                            self.ir.append(line.as_str());
                            proof {
                                let out = ir1.subrange(ir0.len() as int, ir1.len() as int);
                                assert(ir1 =~= ir0 + out);
                                assert(self.ir@ =~= ir0 + (out + line@));
                                assert(binary_ir(*b, t0) == Some((out, self.temp_idx as nat)));
                                assert(local_ir(*node, t0) == Some((out + line@, self.temp_idx as nat)));
                            }
                        },
                        Expr::Lit(lit) => {
                            let line = copy_line_str(&dst, lit);
                            self.ir.append(line.as_str());
                            assert(local_ir(*node, t0) == Some((line@, t0)));
                        },
                        Expr::Path(p) => {
                            let value = var_ref(p);
                            let line = copy_line_str(&dst, &value);
                            self.ir.append(line.as_str());
                            assert(local_ir(*node, t0) == Some((line@, t0)));
                        },
                        _ => {
                            assert(self.ir@ =~= self.ir@ + Seq::<char>::empty());
                        },
                    }
                },
                _ => {
                    assert(self.ir@ =~= self.ir@ + Seq::<char>::empty());
                },
            }
        } else {
            assert(self.ir@ =~= self.ir@ + Seq::<char>::empty());
        }
    }

    /// A statement: a `let`, or an expression with or without semicolon; items are skipped.
    pub fn visit_stmt(&mut self, node: &Stmt)
        requires
            stmt_ir(*node, old(self).temp_idx as nat) is Some,
        ensures
            old(self).emitted(*final(self), stmt_ir(*node, old(self).temp_idx as nat)),
        decreases node,
    {
        match node {
            Stmt::Local(local) => self.visit_local(local),
            Stmt::Expr(expr) => self.visit_expr(expr),
            Stmt::Semi(expr) => self.visit_expr(expr),
            Stmt::Item => {
                assert(self.ir@ =~= self.ir@ + Seq::<char>::empty());
            },
        }
    }

    /// A block: its statements one after the other.
    pub fn visit_block(&mut self, node: &Block)
        requires
            stmts_ir(node.stmts@, old(self).temp_idx as nat) is Some,
        ensures
            old(self).emitted(*final(self), stmts_ir(node.stmts@, old(self).temp_idx as nat)),
        decreases node,
    {
        self.visit_stmts(&node.stmts);
    }

    /// Statements one after the other.
    pub fn visit_stmts(&mut self, stmts: &Vec<Stmt>)
        requires
            stmts_ir(stmts@, old(self).temp_idx as nat) is Some,
        ensures
            old(self).emitted(*final(self), stmts_ir(stmts@, old(self).temp_idx as nat)),
        decreases stmts,
    {
        let ghost t0 = self.temp_idx as nat;
        let ghost ir0 = self.ir@;
        proof {
            lemma_stmts_prefixes(stmts@, t0);
            assert(stmts@.take(0) =~= Seq::<Stmt>::empty());
            assert(ir0 =~= ir0 + Seq::<char>::empty());
        }
        let n = stmts.len();
        let mut i: usize = 0;
        while i < n
            invariant
                n == stmts@.len(),
                i <= n,
                forall|k: int| 0 <= k <= n ==> #[trigger] stmts_ir(stmts@.take(k), t0) is Some,
                stmts_ir(stmts@.take(i as int), t0) matches Some((out, t)) && self.ir@ == ir0 + out
                    && self.temp_idx == t,
            decreases n - i,
        {
            proof {
                let s2 = stmts@.take(i + 1);
                assert(s2.subrange(0, s2.len() - 1) =~= stmts@.take(i as int));
                assert(s2[s2.len() - 1] == stmts@[i as int]);
                assert(stmts_ir(s2, t0) is Some);
            }
            self.visit_stmt(&stmts[i]);
            i += 1;
            proof {
                let s2 = stmts@.take(i as int);
                assert(s2.subrange(0, s2.len() - 1) =~= stmts@.take(i - 1));
            }
        }
        proof {
            assert(stmts@.take(n as int) =~= stmts@);
        }
    }

    /// The parts of an expression of another kind, one after the other.
    fn visit_nodes(&mut self, nodes: &Vec<Node>)
        requires
            nodes_ir(nodes@, old(self).temp_idx as nat) is Some,
        ensures
            old(self).emitted(*final(self), nodes_ir(nodes@, old(self).temp_idx as nat)),
        decreases nodes,
    {
        let ghost t0 = self.temp_idx as nat;
        let ghost ir0 = self.ir@;
        proof {
            lemma_nodes_prefixes(nodes@, t0);
            assert(nodes@.take(0) =~= Seq::<Node>::empty());
            assert(ir0 =~= ir0 + Seq::<char>::empty());
        }
        let n = nodes.len();
        let mut i: usize = 0;
        while i < n
            invariant
                n == nodes@.len(),
                i <= n,
                forall|k: int| 0 <= k <= n ==> #[trigger] nodes_ir(nodes@.take(k), t0) is Some,
                nodes_ir(nodes@.take(i as int), t0) matches Some((out, t)) && self.ir@ == ir0 + out
                    && self.temp_idx == t,
            decreases n - i,
        {
            proof {
                let s2 = nodes@.take(i + 1);
                assert(s2.subrange(0, s2.len() - 1) =~= nodes@.take(i as int));
                assert(s2[s2.len() - 1] == nodes@[i as int]);
                assert(nodes_ir(s2, t0) is Some);
                assert(node_ir(nodes@[i as int], self.temp_idx as nat) is Some);
            }
            match &nodes[i] {
                Node::Expr(e) => self.visit_expr(e),
                Node::Block(b) => self.visit_stmts(&b.stmts),
            }
            i += 1;
            proof {
                let s2 = nodes@.take(i as int);
                assert(s2.subrange(0, s2.len() - 1) =~= nodes@.take(i - 1));
            }
        }
        proof {
            assert(nodes@.take(n as int) =~= nodes@);
        }
    }
}

/// Every prefix of statements whose walk does not panic walks without panic.
proof fn lemma_stmts_prefixes(s: Seq<Stmt>, t: nat)
    requires
        stmts_ir(s, t) is Some,
    ensures
        forall|k: int| 0 <= k <= s.len() ==> #[trigger] stmts_ir(s.take(k), t) is Some,
    decreases s.len(),
{
    if s.len() > 0 {
        let p = s.subrange(0, s.len() - 1);
        lemma_stmts_prefixes(p, t);
        assert forall|k: int| 0 <= k <= s.len() implies #[trigger] stmts_ir(s.take(k), t) is Some by {
            if k < s.len() {
                assert(p.take(k) =~= s.take(k));
            } else {
                assert(s.take(k) =~= s);
            }
        }
    } else {
        assert forall|k: int| 0 <= k <= s.len() implies #[trigger] stmts_ir(s.take(k), t) is Some by {
            assert(s.take(k) =~= s);
        }
    }
}

/// Every prefix of parts whose walk does not panic walks without panic.
proof fn lemma_nodes_prefixes(s: Seq<Node>, t: nat)
    requires
        nodes_ir(s, t) is Some,
    ensures
        forall|k: int| 0 <= k <= s.len() ==> #[trigger] nodes_ir(s.take(k), t) is Some,
    decreases s.len(),
{
    if s.len() > 0 {
        let p = s.subrange(0, s.len() - 1);
        lemma_nodes_prefixes(p, t);
        assert forall|k: int| 0 <= k <= s.len() implies #[trigger] nodes_ir(s.take(k), t) is Some by {
            if k < s.len() {
                assert(p.take(k) =~= s.take(k));
            } else {
                assert(s.take(k) =~= s);
            }
        }
    } else {
        assert forall|k: int| 0 <= k <= s.len() implies #[trigger] nodes_ir(s.take(k), t) is Some by {
            assert(s.take(k) =~= s);
        }
    }
}

} // verus!
