use cxx_qt_gen::cfg_eval::{
    CfgEvaluator, CfgExpr, CfgResult, TableCfgEvaluator, UndeterminedCfgEvaluator, try_eval,
    try_eval_attributes,
};

fn eq_expr(key: &str, value: &str) -> CfgExpr {
    CfgExpr::Eq(key.to_owned(), Some(value.to_owned()))
}

fn module_attrs_eq() -> Vec<CfgExpr> {
    vec![eq_expr("a", "1"), eq_expr("b", "2")]
}

fn module_attrs_any() -> Vec<CfgExpr> {
    vec![CfgExpr::Any(vec![eq_expr("a", "1"), eq_expr("b", "2")])]
}

fn module_attrs_all() -> Vec<CfgExpr> {
    vec![CfgExpr::All(vec![eq_expr("a", "1"), eq_expr("b", "2")])]
}

fn module_attrs_not() -> Vec<CfgExpr> {
    vec![CfgExpr::Not(Box::new(eq_expr("a", "1")))]
}

#[test]
fn test_try_eval_attributes_eq() {
    let mut cfg_evaluator = TableCfgEvaluator::new();
    assert_eq!(
        try_eval_attributes(&cfg_evaluator, module_attrs_eq()).unwrap(),
        false
    );

    // Insert cfg into the table
    cfg_evaluator.insert("a".to_owned(), Some("1".to_owned()));
    cfg_evaluator.insert("b".to_owned(), Some("2".to_owned()));
    assert_eq!(
        try_eval_attributes(&cfg_evaluator, module_attrs_eq()).unwrap(),
        true
    );
}

#[test]
fn test_try_eval_attributes_any() {
    let mut cfg_evaluator = TableCfgEvaluator::new();
    assert_eq!(
        try_eval_attributes(&cfg_evaluator, module_attrs_any()).unwrap(),
        false
    );

    // Insert cfg into the table
    cfg_evaluator.insert("a".to_owned(), Some("1".to_owned()));
    assert_eq!(
        try_eval_attributes(&cfg_evaluator, module_attrs_any()).unwrap(),
        true
    );
}

#[test]
fn test_try_eval_attributes_all() {
    let mut cfg_evaluator = TableCfgEvaluator::new();
    assert_eq!(
        try_eval_attributes(&cfg_evaluator, module_attrs_all()).unwrap(),
        false
    );

    // Insert cfg into the table
    cfg_evaluator.insert("a".to_owned(), Some("1".to_owned()));
    cfg_evaluator.insert("b".to_owned(), Some("2".to_owned()));
    assert_eq!(
        try_eval_attributes(&cfg_evaluator, module_attrs_all()).unwrap(),
        true
    );
}

#[test]
fn test_try_eval_attributes_not() {
    let mut cfg_evaluator = TableCfgEvaluator::new();
    assert_eq!(
        try_eval_attributes(&cfg_evaluator, module_attrs_not()).unwrap(),
        true
    );

    // Insert cfg into the table
    cfg_evaluator.insert("a".to_owned(), Some("1".to_owned()));
    assert_eq!(
        try_eval_attributes(&cfg_evaluator, module_attrs_not()).unwrap(),
        false
    );
}

#[test]
fn test_all_reports_every_undetermined_leaf() {
    // An `all` group over two undecidable flags fails with both reports,
    // not just the first.
    let cfg_evaluator = UndeterminedCfgEvaluator { msg: "flag is not known here".to_owned() };
    let expr = CfgExpr::All(vec![
        CfgExpr::Eq("a".to_owned(), None),
        CfgExpr::Eq("b".to_owned(), None),
    ]);
    let errors = try_eval(&cfg_evaluator, &expr).unwrap_err();
    assert_eq!(errors.len(), 2);
    assert_eq!(errors[0].key, "a");
    assert_eq!(errors[0].msg, "flag is not known here");
    assert_eq!(errors[1].key, "b");
    assert_eq!(errors[1].msg, "flag is not known here");
}

#[test]
fn test_any_short_circuits_on_first_true() {
    let mut cfg_evaluator = TableCfgEvaluator::new();
    cfg_evaluator.insert("a".to_owned(), None);
    // The second branch alone would be undetermined, but the first decides.
    let undetermined = UndeterminedCfgEvaluator { msg: "unknown".to_owned() };
    let expr = CfgExpr::Any(vec![
        CfgExpr::Eq("a".to_owned(), None),
        CfgExpr::Eq("b".to_owned(), None),
    ]);
    assert_eq!(try_eval(&cfg_evaluator, &expr).unwrap(), true);
    assert!(try_eval(&undetermined, &expr).is_err());
}

#[test]
fn test_false_after_undetermined_wins() {
    // A definite `false` in an `all` group wins over an earlier
    // undetermined branch.
    let mut cfg_evaluator = TableCfgEvaluator::new();
    cfg_evaluator.insert("decided".to_owned(), Some("other".to_owned()));
    let expr = CfgExpr::All(vec![
        CfgExpr::Unconditional,
        CfgExpr::Eq("decided".to_owned(), Some("wanted".to_owned())),
    ]);
    assert_eq!(try_eval(&cfg_evaluator, &expr).unwrap(), false);
}

#[test]
fn test_empty_attribute_list_is_enabled() {
    let cfg_evaluator = TableCfgEvaluator::new();
    assert_eq!(try_eval_attributes(&cfg_evaluator, Vec::new()).unwrap(), true);
}

#[test]
fn test_undetermined_result_carries_message() {
    let cfg_evaluator = UndeterminedCfgEvaluator { msg: "try again later".to_owned() };
    match cfg_evaluator_eval(&cfg_evaluator) {
        CfgResult::Undetermined { msg } => assert_eq!(msg, "try again later"),
        _ => panic!("expected an undetermined answer"),
    }
}

fn cfg_evaluator_eval(ev: &UndeterminedCfgEvaluator) -> CfgResult {
    ev.eval("anything", None)
}
