use ogham::compiler;
use ogham::domain;

#[test]
fn crate_id_is_stable() {
    assert_eq!(compiler::crate_id(), "ogham-compiler");
}

#[test]
fn lib_crate_id_is_stable() {
    assert_eq!(domain::crate_id(), "ogham-core");
}
