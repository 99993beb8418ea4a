use telera::calc::{is_ident, parse_expr, parse_fn, BinOp, CalcError, CalcFn, Expr};
use telera::document::{process_layout, ParsedLayout};
use telera::ir::{DataSrc, Declaration, Layout, Number};
use telera::resolve::{entry_scope, fold_numbers};

/// Evaluates a parsed expression with `f32` arithmetic against a stack of
/// frames (innermost last) and the file's functions.
fn eval(e: &Expr, vars: &[Vec<(String, f32)>], fns: &[(String, CalcFn)], depth: u32) -> Result<f32, String> {
    match e {
        Expr::Num(t) => t.parse::<f32>().map_err(|_| format!("bad number {t}")),
        Expr::Ident(n) => vars
            .iter()
            .rev()
            .find_map(|f| f.iter().rev().find(|(k, _)| k == n).map(|(_, v)| *v))
            .ok_or_else(|| format!("unknown {n}")),
        Expr::Neg(a) => Ok(-eval(a, vars, fns, depth)?),
        Expr::Bin(op, a, b) => {
            let a = eval(a, vars, fns, depth)?;
            let b = eval(b, vars, fns, depth)?;
            match op {
                BinOp::Add => Ok(a + b),
                BinOp::Sub => Ok(a - b),
                BinOp::Mul => Ok(a * b),
                BinOp::Div if b == 0.0 => Err("division by zero".to_string()),
                BinOp::Div => Ok(a / b),
                BinOp::Rem if b == 0.0 => Err("division by zero".to_string()),
                BinOp::Rem => Ok(a % b),
            }
        }
        Expr::Call(n, args) => {
            if depth >= 32 {
                return Err("recursion".to_string());
            }
            let (_, f) = fns.iter().rev().find(|(k, _)| k == n).ok_or_else(|| format!("unknown fn {n}"))?;
            if f.params.len() != args.len() {
                return Err("arity".to_string());
            }
            let mut frame = Vec::new();
            for (p, a) in f.params.iter().zip(args) {
                frame.push((p.clone(), eval(a, vars, fns, depth)?));
            }
            eval(&f.body, &[frame], fns, depth + 1)
        }
    }
}

fn eval_str(src: &str, vars: &[Vec<(String, f32)>], fns: &[(String, CalcFn)]) -> Result<f32, String> {
    let e = parse_expr(src).map_err(|e| format!("{e:?}"))?;
    eval(&e, vars, fns, 0)
}

fn no_vars() -> Vec<Vec<(String, f32)>> {
    vec![Vec::new()]
}

/// Compiles `src`, evaluates its `calc` entries in order, each in the scopes
/// the library resolves for it, and folds the values back in.
fn compile_and_fold(src: &str) -> ParsedLayout {
    let p = process_layout(src.to_string()).expect("should parse");
    let mut vals: Vec<Option<String>> = Vec::new();
    for entry in &p.calc_table {
        let frames: Vec<Vec<(String, f32)>> = entry_scope(entry, &vals)
            .iter()
            .map(|f| f.iter().filter_map(|(n, t)| t.parse::<f32>().ok().map(|v| (n.clone(), v))).collect())
            .collect();
        vals.push(eval(&entry.expr, &frames, &p.calc_fns, 0).ok().map(|v| v.to_string()));
    }
    fold_numbers(p, &vals)
}

/// The value bound to a `set-numeric` declaration named `name`, or `None` if
/// the declaration was dropped.
fn declared_number(body: &[Layout], name: &str) -> Option<f32> {
    body.iter().find_map(|command| match command {
        Layout::Declaration { name: n, value: DataSrc::Static(Declaration::Numeric(Number::Literal(t))) }
            if n == name => t.parse::<f32>().ok(),
        _ => None,
    })
}

#[test]
fn arithmetic_and_precedence() {
    let v = no_vars();
    let f = Vec::new();
    assert_eq!(eval_str("2 + 3 * 4", &v, &f).unwrap(), 14.0);
    assert_eq!(eval_str("(2 + 3) * 4", &v, &f).unwrap(), 20.0);
    assert_eq!(eval_str("2 * 45 / 34 * (56 + 4)", &v, &f).unwrap(), 2.0 * 45.0 / 34.0 * 60.0);
    assert_eq!(eval_str("10 % 3", &v, &f).unwrap(), 1.0);
    assert_eq!(eval_str("2 * -3", &v, &f).unwrap(), -6.0);
    assert_eq!(eval_str("-2 * 3", &v, &f).unwrap(), -6.0);
    assert_eq!(eval_str("1.5 + .5", &v, &f).unwrap(), 2.0);
}

#[test]
fn precedence_is_in_the_tree() {
    let num = |t: &str| Box::new(Expr::Num(t.to_string()));
    assert_eq!(
        parse_expr("2 + 3 * 4").unwrap(),
        Expr::Bin(BinOp::Add, num("2"), Box::new(Expr::Bin(BinOp::Mul, num("3"), num("4"))))
    );
    assert_eq!(
        parse_expr("10 - 3 - 2").unwrap(),
        Expr::Bin(BinOp::Sub, Box::new(Expr::Bin(BinOp::Sub, num("10"), num("3"))), num("2"))
    );
    assert_eq!(parse_expr("-x").unwrap(), Expr::Neg(Box::new(Expr::Ident("x".to_string()))));
    assert_eq!(
        parse_expr("f()").unwrap(),
        Expr::Call("f".to_string(), Vec::new())
    );
    assert_eq!(
        parse_expr(" g(1, y) ").unwrap(),
        Expr::Call("g".to_string(), vec![Expr::Num("1".to_string()), Expr::Ident("y".to_string())])
    );
}

#[test]
fn hyphen_is_always_subtraction() {
    let vars = vec![vec![("base".to_string(), 10.0)]];
    // no spaces around `-`
    assert_eq!(eval_str("base-3", &vars, &[]).unwrap(), 7.0);
    // a hyphenated name is not a valid identifier token
    assert!(matches!(parse_expr("a-b-c"), Ok(_))); // parses as a - b - c
    assert!(eval_str("a-b", &no_vars(), &[]).is_err());
}

#[test]
fn left_associative() {
    let v = no_vars();
    assert_eq!(eval_str("10 - 3 - 2", &v, &[]).unwrap(), 5.0);
    assert_eq!(eval_str("100 / 5 / 2", &v, &[]).unwrap(), 10.0);
}

#[test]
fn syntax_errors() {
    assert!(matches!(parse_expr("2 +"), Err(CalcError::Syntax(_))));
    assert!(matches!(parse_expr("2 3"), Err(CalcError::Syntax(_))));
    assert!(matches!(parse_expr("(1 + 2"), Err(CalcError::Syntax(_))));
    assert!(matches!(parse_expr("2 * * 3"), Err(CalcError::Syntax(_))));
    assert!(matches!(parse_expr(""), Err(CalcError::Syntax(_))));
}

#[test]
fn lexical_errors() {
    assert!(matches!(parse_expr("."), Err(CalcError::Syntax(_))));
    assert!(matches!(parse_expr("1.2.3"), Err(CalcError::Syntax(_))));
    assert!(matches!(parse_expr("2 ^ 3"), Err(CalcError::Syntax(_))));
    assert!(matches!(parse_expr("f(1,)"), Err(CalcError::Syntax(_))));
}

#[test]
fn user_functions() {
    let (name, scale) = parse_fn("scale(a, b) = a * b").unwrap();
    assert_eq!(name, "scale");
    let fns = vec![(name, scale)];
    let v = no_vars();
    assert_eq!(eval_str("scale(3, 4)", &v, &fns).unwrap(), 12.0);
    assert_eq!(eval_str("scale(scale(1, 1), 3)", &v, &fns).unwrap(), 3.0);
    assert_eq!(eval_str("scale(2, 2) + 1", &v, &fns).unwrap(), 5.0);
}

#[test]
fn identifiers_and_calls_are_case_sensitive() {
    let (name, f) = parse_fn("Scale(A, b) = A * b").unwrap();
    assert_eq!(name, "Scale");
    assert_eq!(f.params, vec!["A".to_string(), "b".to_string()]);
    let fns = vec![(name, f)];
    let vars = vec![vec![("gap".to_string(), 4.0)]];
    assert_eq!(eval_str("Scale(gap, 2)", &vars, &fns).unwrap(), 8.0);
    assert!(eval_str("SCALE(gap, 2)", &vars, &fns).is_err());
    assert!(eval_str("Scale(Gap, 2)", &vars, &fns).is_err());
}

#[test]
fn function_calling_function() {
    let fns = vec![
        parse_fn("double(x) = x * 2").unwrap(),
        parse_fn("quad(x) = double(double(x))").unwrap(),
    ];
    assert_eq!(eval_str("quad(3)", &no_vars(), &fns).unwrap(), 12.0);
}

#[test]
fn parse_fn_rejects_malformed() {
    assert!(parse_fn("scale(a, b) a * b").is_err()); // no `=`
    assert!(parse_fn("scale a, b = a").is_err()); // no parens
    assert!(parse_fn("2bad(a) = a").is_err()); // bad name
    assert!(parse_fn("f(1) = 1").is_err()); // bad param
}

#[test]
fn parse_fn_zero_params() {
    let (name, f) = parse_fn("answer() = 6 * 7").unwrap();
    assert_eq!(name, "answer");
    assert!(f.params.is_empty());
    let fns = vec![(name, f)];
    assert_eq!(eval_str("answer()", &no_vars(), &fns).unwrap(), 42.0);
}

#[test]
fn parse_fn_keeps_the_body_tree() {
    let (name, f) = parse_fn("  area( w ,h ) = w*h ").unwrap();
    assert_eq!(name, "area");
    assert_eq!(f.params, vec!["w".to_string(), "h".to_string()]);
    assert_eq!(
        f.body,
        Expr::Bin(
            BinOp::Mul,
            Box::new(Expr::Ident("w".to_string())),
            Box::new(Expr::Ident("h".to_string()))
        )
    );
    assert!(parse_fn("f(a) = ").is_err()); // empty body
    assert!(parse_fn("f(a b) = a").is_err()); // two words for one parameter
}

#[test]
fn identifiers() {
    assert!(is_ident("scale"));
    assert!(is_ident("_x9"));
    assert!(!is_ident(""));
    assert!(!is_ident("9x"));
    assert!(!is_ident("a-b"));
    assert!(!is_ident("a b"));
}

#[test]
fn set_numeric_expression_folds_to_constant() {
    let src = "\
# root
- `declarations`
    - `set-numeric` *a* 5
    - `set-numeric` *b* 2
    - `set-numeric` *c* `(a + b) * 3`
";
    let body = compile_and_fold(src).body;
    assert_eq!(declared_number(&body, "c"), Some(21.0));
    // a plain literal still works, backticked or not
    assert_eq!(declared_number(&body, "a"), Some(5.0));
}

#[test]
fn calc_fn_from_header_is_callable() {
    let src = "\
#### TML 1.0
- `calc` `scale(a, b) = a * b`

# root
- `declarations`
    - `set-numeric` *x* `scale(3, 4)`
    - `set-numeric` *y* `scale(scale(1, 1), 3)`
";
    let body = compile_and_fold(src).body;
    assert_eq!(declared_number(&body, "x"), Some(12.0));
    assert_eq!(declared_number(&body, "y"), Some(3.0));
}

#[test]
fn header_after_body_still_provides_calc_fns() {
    let src = "\
# root
- `declarations`
    - `set-numeric` *x* `dbl(21)`

#### TML 1.0
- `calc` `dbl(n) = n * 2`
";
    let body = compile_and_fold(src).body;
    assert_eq!(declared_number(&body, "x"), Some(42.0));
}

#[test]
fn forward_and_runtime_references_are_dropped() {
    let src = "\
# root
- `declarations`
    - `set-numeric` *forward* `later + 1`
    - `set-numeric` *later* 2
    - `get-numeric` *runtime* some_field
    - `set-numeric` *bad* `runtime * 2`
";
    let body = compile_and_fold(src).body;
    assert_eq!(declared_number(&body, "forward"), None);
    assert_eq!(declared_number(&body, "later"), Some(2.0));
    assert_eq!(declared_number(&body, "bad"), None);
}

#[test]
fn recursive_calc_fn_is_dropped_not_hung() {
    let src = "\
#### TML 1.0
- `calc` `r(n) = r(n)`

# root
- `declarations`
    - `set-numeric` *x* `r(1)`
";
    let body = compile_and_fold(src).body;
    assert_eq!(declared_number(&body, "x"), None);
}

#[test]
fn calc_scope_is_per_list() {
    // A `list` gets its own frame; its leading declarations don't leak out,
    // but they do see the enclosing page scope.
    let src = "\
# root
- `declarations`
    - `set-numeric` *page_base* 10
- `list` rows
    - `declarations`
        - `set-numeric` *row_pad* `page_base + 2`
    - `element`
";
    let body = compile_and_fold(src).body;
    assert_eq!(declared_number(&body, "row_pad"), Some(12.0));
}

#[test]
fn expressions_wait_in_the_table_until_folded() {
    let src = "\
#### TML 1.0
- `calc` `dbl(n) = n * 2`

# root
- `declarations`
    - `set-numeric` *a* 5
    - `set-numeric` *b* `dbl(a)`
";
    let p = process_layout(src.to_string()).expect("should parse");
    assert_eq!(p.calc_fns.len(), 1);
    assert_eq!(p.calc_fns[0].0, "dbl");
    assert_eq!(p.calc_table.len(), 1);
    // the declaration refers to its entry, which sees `a` in the page scope
    assert!(p.body.iter().any(|c| matches!(
        c,
        Layout::Declaration { name, value: DataSrc::Static(Declaration::Numeric(Number::Pending(0))) }
            if name == "b"
    )));
    let scope = entry_scope(&p.calc_table[0], &Vec::new());
    assert_eq!(scope, vec![vec![("a".to_string(), "5".to_string())]]);

    // a missing value drops the declaration; a given one replaces the entry
    let dropped = fold_numbers(p, &vec![None]);
    assert!(dropped.calc_table.is_empty());
    assert_eq!(declared_number(&dropped.body, "b"), None);
    assert_eq!(declared_number(&dropped.body, "a"), Some(5.0));

    let p = process_layout(src.to_string()).expect("should parse");
    let folded = fold_numbers(p, &vec![Some("10".to_string())]);
    assert_eq!(declared_number(&folded.body, "b"), Some(10.0));
}

#[test]
fn an_identifier_reads_back_as_one_name() {
    // a name is an identifier exactly when an expression made of it alone
    // is that name
    for n in ["scale", "_x9", "a1_b", "", "9x", "a-b", "a b", "1.5", "(a)"] {
        let alone = matches!(parse_expr(n), Ok(Expr::Ident(ref v)) if v.as_str() == n);
        assert_eq!(is_ident(n), alone, "{n}");
    }
}
