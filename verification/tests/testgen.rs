use logic_test::testgen::Config;
use logic_test::testgen::test_case_name;

#[test]
fn names_from_paths() {
    assert_eq!(
        test_case_name("run", "slt/select1.test", "test").unwrap(),
        "run_slt__select1"
    );
    assert_eq!(
        test_case_name("run", "suite\\nested\\case.slt", "slt").unwrap(),
        "run_suite__nested__case"
    );
    assert_eq!(test_case_name("run", "top.slt", "slt").unwrap(), "run_top");
}

#[test]
fn separator_runs_collapse() {
    // A separator next to an underscore would leave three in a row: one
    // pass collapses each such run to two.
    assert_eq!(
        test_case_name("t", "a/_b.slt", "slt").unwrap(),
        "t_a__b"
    );
    assert_eq!(
        test_case_name("t_", "x.slt", "slt").unwrap(),
        "t__x"
    );
}

#[test]
fn wrong_extension_gives_nothing() {
    assert_eq!(test_case_name("run", "select1.test", "slt"), None);
    assert_eq!(test_case_name("run", "slt", "slt"), None);
    assert_eq!(test_case_name("run", "", "slt"), None);
}

#[test]
fn config_holds_the_pattern() {
    let config = Config { pattern: "slt/**/*.slt".to_string() };
    assert_eq!(config.pattern, "slt/**/*.slt");
}
