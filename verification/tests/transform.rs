use macro_examples::syntax::{Declaration, ExpandError, FieldShape, FunctionDecl, Shape};
use macro_examples::transform::{
    derive_my_debug, emit_field_statements, log_call, my_debug_derive, reverse_exprs,
    reverse_parsed, wrap_with_log,
};

const OPENING: &str = "impl MyDebug for ";

fn tokens(text: &str) -> String {
    text.parse::<proc_macro2::TokenStream>().unwrap().to_string()
}

fn strings(list: &[&str]) -> Vec<String> {
    list.iter().map(|s| s.to_string()).collect()
}

#[test]
fn reverse_exprs_of_three() {
    assert_eq!(reverse_exprs("1, 3, 5"), Ok("(5, 3, 1)".to_string()));
}

#[test]
fn reverse_exprs_of_one_is_that_expression_in_parentheses() {
    assert_eq!(reverse_exprs("7"), Ok("(7)".to_string()));
    let back: syn::Expr = syn::parse_str(&reverse_exprs("7").unwrap()).unwrap();
    match back {
        syn::Expr::Paren(inner) => match *inner.expr {
            syn::Expr::Lit(_) => {}
            _ => panic!("the inner expression changed"),
        },
        _ => panic!("one expression does not make a tuple"),
    }
}

#[test]
fn reverse_exprs_of_none_is_the_empty_tuple() {
    assert_eq!(reverse_exprs(""), Ok("()".to_string()));
    assert_eq!(reverse_exprs("   "), Ok("()".to_string()));
}

#[test]
fn reverse_exprs_allows_a_trailing_comma() {
    assert_eq!(reverse_exprs("1, 3, 5,"), Ok("(5, 3, 1)".to_string()));
}

#[test]
fn reverse_exprs_keeps_each_expression_whole() {
    let out = reverse_exprs("a + b, f(x, y), [1, 2]").unwrap();
    assert_eq!(tokens(&out), tokens("([1, 2], f(x, y), a + b)"));
}

#[test]
fn reverse_exprs_twice_gives_the_order_back() {
    let once = reverse_exprs("p, q, r, s").unwrap();
    assert_eq!(once, "(s, r, q, p)");
    let inner = &once[1..once.len() - 1];
    assert_eq!(reverse_exprs(inner), Ok("(p, q, r, s)".to_string()));
}

#[test]
fn reverse_exprs_rejects_what_is_no_list() {
    assert_eq!(reverse_exprs("1 +"), Err(ExpandError::Malformed));
    assert_eq!(reverse_exprs("1 2"), Err(ExpandError::Malformed));
    assert_eq!(reverse_exprs(", 1"), Err(ExpandError::Malformed));
    assert_eq!(reverse_exprs("(1, 2"), Err(ExpandError::Malformed));
}

#[test]
fn reverse_parsed_of_given_texts() {
    assert_eq!(reverse_parsed(&strings(&["1", "3", "5"])), "(5, 3, 1)");
    assert_eq!(reverse_parsed(&strings(&["x"])), "(x)");
    assert_eq!(reverse_parsed(&Vec::new()), "()");
}

#[test]
fn derive_for_three_named_fields() {
    let out = my_debug_derive("struct Point { x: i32, y: i32, z: i32 }").unwrap();
    let expected = "impl MyDebug for Point { fn my_fmt(&self) { \
print!(\"{}: {{ \", stringify!(Point)); \
print!(\"{}: {:?}, \", stringify!(x), self.x); \
print!(\"{}: {:?}, \", stringify!(y), self.y); \
print!(\"{}: {:?}, \", stringify!(z), self.z); \
println!(\"}}\"); } }";
    assert_eq!(out, expected);
    let x = out.find("self.x").unwrap();
    let y = out.find("self.y").unwrap();
    let z = out.find("self.z").unwrap();
    assert!(x < y && y < z);
}

#[test]
fn derive_for_two_positional_fields() {
    let out = my_debug_derive("struct Coords(f64, f64);").unwrap();
    let expected = "impl MyDebug for Coords { fn my_fmt(&self) { \
print!(\"{}: {{ \", stringify!(Coords)); \
print!(\"{}: {:?}, \", 0usize, self.0); \
print!(\"{}: {:?}, \", 1usize, self.1); \
println!(\"}}\"); } }";
    assert_eq!(out, expected);
    assert!(!out.contains("self.2"));
}

#[test]
fn derive_for_no_fields() {
    let out = my_debug_derive("struct Empty;").unwrap();
    let expected = "impl MyDebug for Empty { fn my_fmt(&self) { \
print!(\"{}: {{ \", stringify!(Empty)); \
print!(\"(unit struct)\"); \
println!(\"}}\"); } }";
    assert_eq!(out, expected);
    assert!(!out.contains("self."));
}

#[test]
fn derive_for_empty_braces_has_no_statement() {
    let out = my_debug_derive("struct Hollow {}").unwrap();
    let expected = "impl MyDebug for Hollow { fn my_fmt(&self) { \
print!(\"{}: {{ \", stringify!(Hollow)); \
println!(\"}}\"); } }";
    assert_eq!(out, expected);
}

#[test]
fn derive_output_is_one_impl_block() {
    for src in ["struct Point { x: i32, y: i32 }", "struct Coords(f64, f64);", "struct Empty;"] {
        let out = my_debug_derive(src).unwrap();
        assert!(out.starts_with(OPENING));
        let block: syn::ItemImpl = syn::parse_str(&out).unwrap();
        assert_eq!(block.items.len(), 1);
    }
}

#[test]
fn derive_for_an_enum_fails() {
    assert_eq!(my_debug_derive("enum Colour { Red, Green }"), Err(ExpandError::NotAStruct));
}

#[test]
fn derive_for_a_union_fails() {
    assert_eq!(my_debug_derive("union Bits { a: u32, b: i32 }"), Err(ExpandError::NotAStruct));
}

#[test]
fn derive_for_what_is_no_declaration_fails() {
    assert_eq!(my_debug_derive("fn f() {}"), Err(ExpandError::Malformed));
    assert_eq!(my_debug_derive("struct"), Err(ExpandError::Malformed));
    assert_eq!(my_debug_derive(""), Err(ExpandError::Malformed));
}

#[test]
fn derive_from_a_given_declaration() {
    let decl = Declaration {
        name: "Pair".to_string(),
        shape: Shape::Struct(FieldShape::Named(strings(&["left", "right"]))),
    };
    let out = derive_my_debug(&decl).unwrap();
    assert_eq!(out, my_debug_derive("struct Pair { left: u8, right: u8 }").unwrap());
    let none = Declaration { name: "E".to_string(), shape: Shape::Enum };
    assert_eq!(derive_my_debug(&none), Err(ExpandError::NotAStruct));
    let union = Declaration { name: "U".to_string(), shape: Shape::Union };
    assert_eq!(derive_my_debug(&union), Err(ExpandError::NotAStruct));
}

#[test]
fn field_statements_count_positions_in_decimal() {
    let statements = emit_field_statements(&FieldShape::Positional(12));
    assert_eq!(statements.len(), 12);
    assert_eq!(statements[0], "print!(\"{}: {:?}, \", 0usize, self.0); ");
    assert_eq!(statements[11], "print!(\"{}: {:?}, \", 11usize, self.11); ");
    assert_eq!(emit_field_statements(&FieldShape::Positional(0)), Vec::<String>::new());
    assert_eq!(
        emit_field_statements(&FieldShape::Unit),
        vec!["print!(\"(unit struct)\"); ".to_string()]
    );
    assert_eq!(
        emit_field_statements(&FieldShape::Named(strings(&["a"]))),
        vec!["print!(\"{}: {:?}, \", stringify!(a), self.a); ".to_string()]
    );
}

#[test]
fn wrap_with_log_of_given_parts() {
    let f = FunctionDecl {
        attrs: strings(&["#[inline]", "#[must_use]"]),
        vis: "pub".to_string(),
        sig: "fn calculate_sum(a: i32, b: i32) -> i32".to_string(),
        name: "calculate_sum".to_string(),
        body: "{ a + b }".to_string(),
    };
    let expected = "#[inline] #[must_use] pub fn calculate_sum(a: i32, b: i32) -> i32 { \
println!(\"Calling function `{}`\", stringify!(calculate_sum)); \
let result = { a + b }; \
println!(\"Function `{}` returned\", stringify!(calculate_sum)); \
result }";
    assert_eq!(wrap_with_log(&f), expected);
}

#[test]
fn log_call_wraps_the_body_between_the_two_lines() {
    let out = log_call("", "pub fn calculate_sum(a: i32, b: i32) -> i32 { a + b }").unwrap();
    let expected = "pub fn calculate_sum(a: i32, b: i32) -> i32 { \
println!(\"Calling function `{}`\", stringify!(calculate_sum)); \
let result = { a + b }; \
println!(\"Function `{}` returned\", stringify!(calculate_sum)); \
result }";
    assert_eq!(tokens(&out), tokens(expected));
    let entry = out.find("Calling function").unwrap();
    let bound = out.find("let result =").unwrap();
    let exit = out.find("returned").unwrap();
    assert!(entry < bound && bound < exit);
    assert!(out.ends_with("result }"));
}

#[test]
fn log_call_keeps_signature_visibility_and_attributes() {
    let src = "#[inline] #[allow(unused)] pub(crate) fn pick<T: Copy>(x: &T, n: usize) -> T where T: Default { *x }";
    let before: syn::ItemFn = syn::parse_str(src).unwrap();
    let after: syn::ItemFn = syn::parse_str(&log_call("", src).unwrap()).unwrap();
    assert_eq!(before.sig, after.sig);
    assert_eq!(before.vis, after.vis);
    assert_eq!(before.attrs, after.attrs);
    assert_eq!(after.block.stmts.len(), 4);
    assert_ne!(before.block, after.block);
}

#[test]
fn log_call_without_visibility() {
    let out = log_call("", "fn nothing() {}").unwrap();
    let f: syn::ItemFn = syn::parse_str(&out).unwrap();
    assert_eq!(f.vis, syn::Visibility::Inherited);
    assert_eq!(f.sig.ident.to_string(), "nothing");
}

#[test]
fn log_call_does_not_read_the_attribute_arguments() {
    let src = "fn one() -> u8 { 1 }";
    assert_eq!(log_call("", src), log_call("level = 3", src));
}

#[test]
fn log_call_rejects_what_is_no_function() {
    assert_eq!(log_call("", "struct S;"), Err(ExpandError::Malformed));
    assert_eq!(log_call("", "fn broken("), Err(ExpandError::Malformed));
    assert_eq!(log_call("", ""), Err(ExpandError::Malformed));
}
