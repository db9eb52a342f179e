use ir_playground::ir::{is_known_kind, IrType};

const KNOWN: [&str; 16] = [
    "normal",
    "identified",
    "expanded",
    "expanded,identified",
    "expanded,hygiene",
    "ast-tree",
    "ast-tree,expanded",
    "hir",
    "hir,identified",
    "hir,typed",
    "hir-tree",
    "thir-tree",
    "thir-flat",
    "mir",
    "stable-mir",
    "mir-cfg",
];

fn kind(s: &str) -> IrType {
    IrType::new(s.to_string())
}

#[test]
fn known_kinds_pass_unchanged() {
    for k in KNOWN {
        assert!(is_known_kind(&k.to_string()), "{k}");
        assert_eq!(kind(k).rustc_flag(), k);
    }
}

#[test]
fn unknown_kinds_fall_back_to_hir() {
    for k in ["bogus-kind", "", "HIR", "Normal", " mir", "mir ", "hir,", "thir", "expanded,typed", "mir-cfg,mir"] {
        assert!(!is_known_kind(&k.to_string()), "{k:?}");
        assert_eq!(kind(k).rustc_flag(), "hir");
    }
}

#[test]
fn kind_keeps_what_was_sent() {
    assert_eq!(kind("bogus-kind").as_str(), "bogus-kind");
    assert_eq!(kind("hir,typed").as_str(), "hir,typed");
}
