use whython::ast::keywords::Keyword;
use whython::ast::operators::Operator;
use whython::cli::{assembly_file, executing_banner, Args};

#[test]
fn keywords_by_spelling() {
    assert_eq!(Keyword::get_enum("mod"), Some(Keyword::Mod));
    assert_eq!(Keyword::get_enum("while"), Some(Keyword::While));
    assert_eq!(Keyword::get_enum("return"), Some(Keyword::Return));
    assert_eq!(Keyword::get_enum("whilst"), None);
    assert_eq!(Keyword::get_enum(""), None);
}

#[test]
fn operators_by_spelling() {
    assert_eq!(Operator::get_operator("+"), Some(Operator::Add));
    assert_eq!(Operator::get_operator(">="), Some(Operator::GreaterEqual));
    assert_eq!(Operator::get_operator("¬"), Some(Operator::HeapDealloc));
    assert_eq!(Operator::get_operator("^"), Some(Operator::HeapAlloc));
    assert_eq!(Operator::get_operator("=>"), None);
}

#[test]
fn banner_is_centred() {
    assert_eq!(executing_banner(9), "Executing");
    assert_eq!(executing_banner(12), "-Executing--");
    assert_eq!(executing_banner(13), "--Executing--");
    let wide = executing_banner(300);
    assert_eq!(wide.len(), 300);
    assert!(wide.starts_with(&"-".repeat(145)));
    assert!(wide.ends_with(&format!("Executing{}", "-".repeat(146))));
}

#[test]
fn banner_on_odd_terminals() {
    assert_eq!(executing_banner(8), "Executing...");
    assert_eq!(executing_banner(0), "Executing...");
    assert_eq!(executing_banner(301), "Executing...");
    assert_eq!(executing_banner(u16::MAX), "Executing...");
}

#[test]
fn default_options() {
    let a = Args::default();
    assert_eq!(a.input, "main.why");
    assert_eq!(a.output, "build/out");
    assert!(!a.build);
    assert_eq!(assembly_file(&a.output), "build/out.asm");
}
