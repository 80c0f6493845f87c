use rust_cuda::ast::{
    BinOp, Block, Expr, ExprAssign, ExprBinary, ExprIf, ExprReturn, FnArg, KernelFn, Local, Node,
    Pat, Stmt,
};
use rust_cuda::codegen::IRGenerator;
use rust_cuda::kernel::{contains_i32, nvvm_ir};
use rust_cuda::walk_check::{block_walk_fits, try_nvvm_ir};

fn path(s: &str) -> Expr {
    Expr::Path(String::from(s))
}

fn lit(s: &str) -> Expr {
    Expr::Lit(String::from(s))
}

fn bin(l: Expr, op: BinOp, r: Expr) -> Expr {
    Expr::Binary(ExprBinary { left: Box::new(l), op, right: Box::new(r) })
}

fn bin_node(l: Expr, op: BinOp, r: Expr) -> ExprBinary {
    ExprBinary { left: Box::new(l), op, right: Box::new(r) }
}

fn let_stmt(name: &str, init: Expr) -> Stmt {
    Stmt::Local(Local { pat: Pat::Ident(String::from(name)), init: Some(Box::new(init)) })
}

fn typed(pat: &str, ty: &str) -> FnArg {
    FnArg::Typed { pat: String::from(pat), ty: String::from(ty) }
}

fn walk(stmts: Vec<Stmt>) -> (String, usize) {
    let mut g = IRGenerator::new();
    g.visit_block(&Block { stmts });
    (g.ir, g.temp_idx)
}

// `#[cuda] fn test_cuda_macro(a: i32, b: i32) -> i32 { a + b }` expands to the
// same function with the generated module printed first.
fn test_cuda_macro_kernel() -> KernelFn {
    KernelFn {
        name: String::from("test_cuda_macro"),
        inputs: vec![typed("a", "i32"), typed("b", "i32")],
        output: Some(String::from("i32")),
        block: Block { stmts: vec![Stmt::Expr(bin(path("a"), BinOp::Add, path("b")))] },
    }
}

fn test_cuda_macro(a: i32, b: i32) -> i32 {
    println!("[NVVM IR for {}]:\n{}", "test_cuda_macro", nvvm_ir(&test_cuda_macro_kernel()));
    a + b
}

#[test]
fn test_macro() {
    let result = test_cuda_macro(2, 3);
    assert_eq!(result, 5);
}

#[test]
fn macro_module_text() {
    assert_eq!(
        nvvm_ir(&test_cuda_macro_kernel()),
        "; ModuleID = 'rust_cuda_macro'\nsource_filename = \"rust_cuda_macro\"\n\ndefine i32 @test_cuda_macro(i32 %a, i32 %b) {\n  %0 = add nsw i32 %a, %b\n}\n"
    );
}

#[test]
fn next_temp_counts_in_decimal() {
    let mut g = IRGenerator::new();
    let mut names = Vec::new();
    for _ in 0..12 {
        names.push(g.next_temp());
    }
    assert_eq!(names[0], "%0");
    assert_eq!(names[9], "%9");
    assert_eq!(names[10], "%10");
    assert_eq!(names[11], "%11");
    assert_eq!(g.temp_idx, 12);
    assert_eq!(g.ir, "");
}

#[test]
fn temp_names_never_repeat() {
    let mut g = IRGenerator::new();
    let mut names: Vec<String> = Vec::new();
    for _ in 0..200 {
        let n = g.next_temp();
        assert!(!names.contains(&n));
        names.push(n);
    }
}

#[test]
fn nested_binary_uses_last_temporary() {
    let mut g = IRGenerator::new();
    let e = bin_node(Expr::Paren(Box::new(bin(path("a"), BinOp::Add, path("b")))), BinOp::Mul, lit("2"));
    g.visit_expr_binary(&e);
    assert_eq!(g.ir, "  %0 = add nsw i32 %a, %b\n  %1 = mul nsw i32 %0, 2\n");
    assert_eq!(g.temp_idx, 2);
}

#[test]
fn binary_operand_on_the_left_is_walked_first() {
    let mut g = IRGenerator::new();
    let e = bin_node(bin(path("x"), BinOp::Sub, lit("1")), BinOp::Lt, bin(path("y"), BinOp::Div, path("z")));
    g.visit_expr_binary(&e);
    assert_eq!(
        g.ir,
        "  %0 = sub nsw i32 %x, 1\n  %1 = sdiv i32 %y, %z\n  %2 = icmp slt i32 %0, %1\n"
    );
}

#[test]
fn every_operator_text() {
    let ops = [
        (BinOp::Add, "add nsw i32"),
        (BinOp::Sub, "sub nsw i32"),
        (BinOp::Mul, "mul nsw i32"),
        (BinOp::Div, "sdiv i32"),
        (BinOp::Eq, "icmp eq i32"),
        (BinOp::Ne, "icmp ne i32"),
        (BinOp::Lt, "icmp slt i32"),
        (BinOp::Le, "icmp sle i32"),
        (BinOp::Gt, "icmp sgt i32"),
        (BinOp::Ge, "icmp sge i32"),
        (BinOp::Other, "unknown i32"),
    ];
    for (op, text) in ops {
        let mut g = IRGenerator::new();
        g.visit_expr_binary(&bin_node(path("p"), op, lit("3")));
        assert_eq!(g.ir, format!("  %0 = {} %p, 3\n", text));
    }
}

#[test]
fn unsupported_operand() {
    let mut g = IRGenerator::new();
    let call = Expr::Other(vec![Node::Expr(path("f"))]);
    g.visit_expr_binary(&bin_node(call, BinOp::Add, lit("1")));
    assert_eq!(g.ir, "  %0 = add nsw i32 <unsupported>, 1\n");
}

#[test]
fn let_statements() {
    let (ir, t) = walk(vec![
        let_stmt("x", bin(path("a"), BinOp::Sub, lit("1"))),
        let_stmt("y", lit("5")),
        let_stmt("z", path("a")),
        Stmt::Local(Local { pat: Pat::Other, init: Some(Box::new(lit("5"))) }),
        Stmt::Local(Local { pat: Pat::Ident(String::from("u")), init: None }),
        let_stmt("v", Expr::Other(vec![])),
    ]);
    assert_eq!(ir, "  %0 = sub nsw i32 %a, 1\n  %x = %0\n  %y = 5\n  %z = %a\n");
    assert_eq!(t, 1);
}

#[test]
fn assignments() {
    let assign = |l: Expr, r: Expr| Stmt::Semi(Expr::Assign(ExprAssign { left: Box::new(l), right: Box::new(r) }));
    let (ir, _) = walk(vec![
        assign(path("x"), bin(path("a"), BinOp::Add, path("b"))),
        assign(path("x"), lit("3")),
        assign(path("x"), path("y")),
        assign(Expr::Other(vec![]), lit("4")),
        assign(path("x"), Expr::Other(vec![])),
    ]);
    assert_eq!(ir, "  %0 = add nsw i32 %a, %b\n  %x = %0\n  %x = 3\n  %x = %y\n  <unsupported> = 4\n");
}

#[test]
fn return_statements() {
    let ret = |e: Option<Expr>| Stmt::Expr(Expr::Return(ExprReturn { expr: e.map(Box::new) }));
    let (ir, _) = walk(vec![
        ret(Some(path("a"))),
        ret(Some(lit("0"))),
        ret(Some(bin(path("a"), BinOp::Mul, path("b")))),
        ret(None),
        ret(Some(Expr::Other(vec![]))),
    ]);
    assert_eq!(
        ir,
        "  ret i32 %a\n  ret i32 0\n  %0 = mul nsw i32 %a, %b\n  ret i32 %0\n  ret void\n  ret void\n"
    );
}

#[test]
fn if_else_branches() {
    let ret = |e: Expr| Stmt::Semi(Expr::Return(ExprReturn { expr: Some(Box::new(e)) }));
    let node = ExprIf {
        cond: Box::new(path("c")),
        then_branch: Block { stmts: vec![ret(path("a"))] },
        else_branch: Some(Box::new(Expr::Block(Block { stmts: vec![ret(lit("1"))] }))),
    };
    let mut g = IRGenerator::new();
    g.visit_expr_if(&node);
    assert_eq!(
        g.ir,
        "  br i1 %c, label %0, label %1\n%0:\n  ret i32 %a\n  br label %2\n%1:\n  ret i32 1\n  br label %2\n%2:\n"
    );
    assert_eq!(g.temp_idx, 3);
}

#[test]
fn if_with_else_if_and_unsupported_condition() {
    let inner = ExprIf { cond: Box::new(lit("true")), then_branch: Block { stmts: vec![] }, else_branch: None };
    let node = ExprIf {
        cond: Box::new(bin(path("a"), BinOp::Lt, path("b"))),
        then_branch: Block { stmts: vec![] },
        else_branch: Some(Box::new(Expr::If(inner))),
    };
    let mut g = IRGenerator::new();
    g.visit_expr_if(&node);
    assert_eq!(
        g.ir,
        "  br i1 <unsupported>, label %0, label %1\n%0:\n  br label %2\n%1:\n  br label %2\n%2:\n"
    );
}

#[test]
fn walk_descends_into_other_expressions() {
    // f(a + b, { let k = 1; })
    let call = Expr::Other(vec![
        Node::Expr(path("f")),
        Node::Expr(bin(path("a"), BinOp::Add, path("b"))),
        Node::Block(Block { stmts: vec![let_stmt("k", lit("1"))] }),
    ]);
    let (ir, t) = walk(vec![Stmt::Semi(call), Stmt::Item]);
    assert_eq!(ir, "  %0 = add nsw i32 %a, %b\n  %k = 1\n");
    assert_eq!(t, 1);
}

#[test]
fn block_expression_and_parenthesis() {
    let (ir, _) = walk(vec![
        Stmt::Expr(Expr::Block(Block { stmts: vec![let_stmt("q", lit("2"))] })),
        Stmt::Expr(Expr::Paren(Box::new(bin(lit("1"), BinOp::Add, lit("2"))))),
    ]);
    assert_eq!(ir, "  %q = 2\n  %0 = add nsw i32 1, 2\n");
}

#[test]
fn block_is_its_statements_in_order() {
    let first = vec![let_stmt("x", bin(path("a"), BinOp::Add, lit("1")))];
    let second = vec![let_stmt("y", bin(path("x"), BinOp::Mul, lit("2")))];
    let mut g = IRGenerator::new();
    g.visit_block(&Block { stmts: first });
    g.visit_block(&Block { stmts: second });
    let (whole, t) = walk(vec![
        let_stmt("x", bin(path("a"), BinOp::Add, lit("1"))),
        let_stmt("y", bin(path("x"), BinOp::Mul, lit("2"))),
    ]);
    assert_eq!(g.ir, whole);
    assert_eq!(g.temp_idx, t);
}

#[test]
fn kernel_signature_types() {
    let k = KernelFn {
        name: String::from("k"),
        inputs: vec![FnArg::Receiver, typed("x", "f32"), typed("mut y", "& i32")],
        output: None,
        block: Block { stmts: vec![] },
    };
    assert_eq!(
        nvvm_ir(&k),
        "; ModuleID = 'rust_cuda_macro'\nsource_filename = \"rust_cuda_macro\"\n\ndefine void @k(unknown %x, i32 %mut y) {\n}\n"
    );
    let k2 = KernelFn {
        name: String::from("k2"),
        inputs: vec![],
        output: Some(String::from("u64")),
        block: Block { stmts: vec![] },
    };
    assert!(nvvm_ir(&k2).contains("define void @k2() {\n}\n"));
}

#[test]
fn contains_i32_text() {
    assert!(contains_i32("i32"));
    assert!(contains_i32("Vec < i32 >"));
    assert!(!contains_i32("i3 2"));
    assert!(!contains_i32("u32"));
    assert!(!contains_i32(""));
    assert!(!contains_i32("i3"));
}

#[test]
fn parenthesised_variable_first_would_panic() {
    // `(a) + 1` asks for the last temporary before any was allocated.
    let e = bin(Expr::Paren(Box::new(path("a"))), BinOp::Add, lit("1"));
    let block = Block { stmts: vec![Stmt::Expr(e)] };
    assert!(!block_walk_fits(&block, 0));
    assert!(block_walk_fits(&block, 1));
    let k = KernelFn { name: String::from("p"), inputs: vec![], output: None, block };
    assert!(try_nvvm_ir(&k).is_none());
    assert_eq!(
        try_nvvm_ir(&test_cuda_macro_kernel()),
        Some(nvvm_ir(&test_cuda_macro_kernel()))
    );
}

#[test]
fn parenthesised_variable_after_a_temporary() {
    let mut g = IRGenerator::new();
    g.next_temp();
    g.visit_expr(&bin(Expr::Paren(Box::new(path("a"))), BinOp::Add, lit("1")));
    assert_eq!(g.ir, "  %1 = add nsw i32 %0, 1\n");
}
