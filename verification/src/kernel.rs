use vstd::prelude::*;

use crate::ast::{FnArg, KernelFn};
use crate::codegen::IRGenerator;
use crate::ir_spec::stmts_ir;

verus! {

/// Whether `s` contains the text `i32`.
pub open spec fn has_i32(s: Seq<char>) -> bool {
    exists|i: int| 0 <= i && i + 3 <= s.len() && #[trigger] s[i] == 'i' && s[i + 1] == '3' && s[i + 2] == '2'
}

/// The IR type of an argument: `i32` when its Rust type mentions `i32`, else `unknown`.
pub open spec fn param_type(ty: Seq<char>) -> Seq<char> {
    if has_i32(ty) { "i32"@ } else { "unknown"@ }
}

/// The IR return type: `i32` when the Rust return type mentions `i32`, else `void`.
pub open spec fn return_type(output: Option<String>) -> Seq<char> {
    match output {
        Some(ty) => if has_i32(ty@) { "i32"@ } else { "void"@ },
        None => "void"@,
    }
}

/// The IR parameter declarations (`type %name`) of the typed arguments, in order;
/// a `self` argument declares nothing.
pub open spec fn param_decls(args: Seq<FnArg>) -> Seq<Seq<char>>
    decreases args.len(),
{
    if args.len() == 0 {
        seq![]
    } else {
        let rest = param_decls(args.subrange(0, args.len() - 1));
        match args[args.len() - 1] {
            FnArg::Typed { pat, ty } => rest.push(param_type(ty@) + " %"@ + pat@),
            FnArg::Receiver => rest,
        }
    }
}

/// The items joined by `sep`.
pub open spec fn join(items: Seq<Seq<char>>, sep: Seq<char>) -> Seq<char>
    decreases items.len(),
{
    if items.len() == 0 {
        seq![]
    } else if items.len() == 1 {
        items[0]
    } else {
        join(items.subrange(0, items.len() - 1), sep) + sep + items[items.len() - 1]
    }
}

/// An NVVM IR module that defines one function.
pub open spec fn module_text(ret: Seq<char>, name: Seq<char>, params: Seq<char>, body: Seq<char>) -> Seq<char> {
    "; ModuleID = 'rust_cuda_macro'\nsource_filename = \"rust_cuda_macro\"\n\ndefine "@ + ret + " @"@
        + name + "("@ + params + ") {\n"@ + body + "}\n"@
}

/// The NVVM IR module of a kernel function: its signature, and the
/// instructions of its body statements walked by a fresh generator
/// (`None` where that walk panics).
pub open spec fn module_ir(f: KernelFn) -> Option<Seq<char>> {
    match stmts_ir(f.block.stmts@, 0) {
        Some((body, _)) => Some(
            module_text(return_type(f.output), f.name@, join(param_decls(f.inputs@), ", "@), body),
        ),
        None => None,
    }
}

/// Whether `s` contains the text `i32`.
pub fn contains_i32(s: &str) -> (r: bool)
    ensures
        r == has_i32(s@),
{
    let n = s.unicode_len();
    let mut i: usize = 0;
    while i < n && n - i >= 3
        invariant
            n == s@.len(),
            i <= n,
            forall|j: int| 0 <= j < i ==> !(#[trigger] s@[j] == 'i' && s@[j + 1] == '3' && s@[j + 2] == '2'),
        decreases n - i,
    {
        if s.get_char(i) == 'i' && s.get_char(i + 1) == '3' && s.get_char(i + 2) == '2' {
            return true;
        }
        i += 1;
    }
    false
}

/// The IR parameter list: the declarations of the typed arguments, joined by `, `.
fn param_list(inputs: &Vec<FnArg>) -> (s: String)
    ensures
        s@ == join(param_decls(inputs@), ", "@),
{
    let mut s = String::new();
    let mut count: usize = 0;
    let n = inputs.len();
    let mut i: usize = 0;
    proof {
        assert(inputs@.take(0) =~= Seq::<FnArg>::empty());
    }
    while i < n
        invariant
            n == inputs@.len(),
            i <= n,
            count == param_decls(inputs@.take(i as int)).len(),
            count <= i,
            s@ == join(param_decls(inputs@.take(i as int)), ", "@),
        decreases n - i,
    {
        let ghost prev = param_decls(inputs@.take(i as int));
        proof {
            let s2 = inputs@.take(i + 1);
            assert(s2.subrange(0, s2.len() - 1) =~= inputs@.take(i as int));
        }
        match &inputs[i] {
            FnArg::Typed { pat, ty } => {
                let mut decl = if contains_i32(ty.as_str()) {
                    String::from_str("i32")
                } else {
                    String::from_str("unknown")
                };
                decl.append(" %");
                decl.append(pat.as_str());
                if count > 0 {
                    s.append(", ");
                }
                s.append(decl.as_str());
                proof {
                    let next = prev.push(decl@);
                    assert(next.subrange(0, next.len() - 1) =~= prev);
                    if count > 0 {
                        assert(s@ =~= join(prev, ", "@) + ", "@ + decl@);
                    } else {
                        assert(s@ =~= decl@);
                    }
                }
                count += 1;
            },
            FnArg::Receiver => {},
        }
        i += 1;
    }
    proof {
        assert(inputs@.take(n as int) =~= inputs@);
    }
    s
}

/// Generates the NVVM IR module of a kernel function: `define` with the IR
/// return type, the name and the parameter list, then the instructions of
/// the body statements.
pub fn nvvm_ir(item: &KernelFn) -> (ir: String)
    requires
        stmts_ir(item.block.stmts@, 0) is Some,
    ensures
        module_ir(*item) == Some(ir@),
{
    let mut visitor = IRGenerator::new();
    visitor.visit_stmts(&item.block.stmts);
    let params = param_list(&item.inputs);
    let ret = match &item.output {
        Some(ty) => if contains_i32(ty.as_str()) {
            String::from_str("i32")
        } else {
            String::from_str("void")
        },
        None => String::from_str("void"),
    };
    let mut ir = String::from_str(
        "; ModuleID = 'rust_cuda_macro'\nsource_filename = \"rust_cuda_macro\"\n\ndefine ",
    );
    ir.append(ret.as_str());
    ir.append(" @");
    ir.append(item.name.as_str());
    ir.append("(");
    ir.append(params.as_str());
    ir.append(") {\n");
    ir.append(visitor.ir.as_str());
    ir.append("}\n");
    proof {
        assert(visitor.ir@ =~= Seq::<char>::empty() + visitor.ir@);
    }
    ir
}

} // verus!
