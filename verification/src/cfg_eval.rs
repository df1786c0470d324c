//! Evaluation of conditional-compilation predicates against an external flag
//! resolver.
//!
//! A predicate tree is evaluated to a boolean where possible. An `all` group
//! short-circuits to `false` on the first definite `false`, but otherwise
//! accumulates the reason of every undetermined leaf before failing, so a
//! caller sees all blocking reasons at once; `any` is the structural dual.

use vstd::prelude::*;
use vstd::string::*;

use crate::text::{opt_str_eq, opt_str_view, opt_string_view, str_eq};

verus! {

/// One answer of the external flag resolver.
#[derive(PartialEq, Eq, Debug)]
pub enum CfgResult {
    /// The flag is enabled.
    True,
    /// The flag is disabled.
    False,
    /// The resolver cannot decide the flag; the message says why.
    Undetermined { msg: String },
}

/// Mathematical model of a resolver answer.
#[verifier::ext_equal]
pub enum GAnswer {
    True,
    False,
    Undetermined(Seq<char>),
}

impl View for CfgResult {
    type V = GAnswer;

    open spec fn view(&self) -> GAnswer {
        match self {
            CfgResult::True => GAnswer::True,
            CfgResult::False => GAnswer::False,
            CfgResult::Undetermined { msg } => GAnswer::Undetermined(msg@),
        }
    }
}

/// A conditional-compilation predicate over key-value flags.
#[derive(PartialEq, Eq, Debug)]
pub enum CfgExpr {
    /// No condition: always enabled.
    Unconditional,
    /// `key` alone or `key = "value"`.
    Eq(String, Option<String>),
    /// Every branch must hold.
    All(Vec<CfgExpr>),
    /// Some branch must hold.
    Any(Vec<CfgExpr>),
    /// The branch must not hold.
    Not(Box<CfgExpr>),
}

/// Mathematical model of a predicate tree.
#[verifier::ext_equal]
pub enum GExpr {
    Unconditional,
    Eq(Seq<char>, Option<Seq<char>>),
    All(Seq<GExpr>),
    Any(Seq<GExpr>),
    Not(Box<GExpr>),
}

/// The model of one predicate tree.
pub open spec fn view_expr(e: CfgExpr) -> GExpr
    decreases e, 0int, 0int,
{
    match e {
        CfgExpr::Unconditional => GExpr::Unconditional,
        CfgExpr::Eq(k, v) => GExpr::Eq(k@, opt_string_view(v)),
        CfgExpr::All(list) => GExpr::All(view_expr_seq(list@)),
        CfgExpr::Any(list) => GExpr::Any(view_expr_seq(list@)),
        CfgExpr::Not(b) => GExpr::Not(Box::new(view_expr(*b))),
    }
}

/// The models of a sequence of predicate trees, in order.
pub open spec fn view_expr_seq(s: Seq<CfgExpr>) -> Seq<GExpr>
    decreases s, 1int, 0int,
{
    if s.len() == 0 {
        Seq::empty()
    } else {
        view_expr_seq(s.drop_last()).push(view_expr(s.last()))
    }
}

impl View for CfgExpr {
    type V = GExpr;

    open spec fn view(&self) -> GExpr {
        view_expr(*self)
    }
}

/// The element-wise description of `view_expr_seq`.
pub proof fn lemma_view_expr_seq(s: Seq<CfgExpr>)
    ensures
        view_expr_seq(s).len() == s.len(),
        forall|i: int| 0 <= i < s.len() ==> #[trigger] view_expr_seq(s)[i] == view_expr(s[i]),
    decreases s.len(),
{
    if s.len() > 0 {
        lemma_view_expr_seq(s.drop_last());
    }
}

/// One undetermined leaf: the flag it names and the resolver's reason.
#[derive(PartialEq, Eq, Debug)]
pub struct CfgError {
    /// The key of the leaf that could not be decided.
    pub key: String,
    /// The queried value of the leaf, if the leaf carried one.
    pub value: Option<String>,
    /// The resolver's reason.
    pub msg: String,
}

/// Mathematical model of an undetermined leaf report.
#[verifier::ext_equal]
pub struct GCfgError {
    pub key: Seq<char>,
    pub value: Option<Seq<char>>,
    pub msg: Seq<char>,
}

impl View for CfgError {
    type V = GCfgError;

    open spec fn view(&self) -> GCfgError {
        GCfgError { key: self.key@, value: opt_string_view(self.value), msg: self.msg@ }
    }
}

/// What evaluating a predicate tree yields: a definite boolean, or the
/// reports of every undetermined leaf that was reached, in order.
#[verifier::ext_equal]
pub enum GOutcome {
    Val(bool),
    Undet(Seq<GCfgError>),
}

/// The external capability that decides one key-value flag.
///
/// `eval` answers a name-only flag with `value` of `None` and a
/// `key = "value"` flag with the value in `value`. The answer is pinned to
/// the implementor's own `answer` model, so evaluation of a whole predicate
/// tree is determined by that model alone.
pub trait CfgEvaluator {
    /// The model of this resolver: its answer for every flag.
    spec fn answer(&self, name: Seq<char>, value: Option<Seq<char>>) -> GAnswer;

    /// Decide one flag.
    fn eval(&self, name: &str, value: Option<&str>) -> (r: CfgResult)
        ensures
            r@ == self.answer(name@, opt_str_view(value)),
    ;
}

/// The outcome of a predicate tree under a resolver.
pub open spec fn eval_expr<E: CfgEvaluator>(ev: &E, e: GExpr) -> GOutcome
    decreases e, 0int, 0int,
{
    match e {
        GExpr::Unconditional => GOutcome::Val(true),
        GExpr::Eq(k, v) => match ev.answer(k, v) {
            GAnswer::True => GOutcome::Val(true),
            GAnswer::False => GOutcome::Val(false),
            GAnswer::Undetermined(m) => GOutcome::Undet(
                seq![GCfgError { key: k, value: v, msg: m }],
            ),
        },
        GExpr::All(list) => eval_all(ev, list, 0, Seq::empty()),
        GExpr::Any(list) => eval_any(ev, list, 0, Seq::empty()),
        GExpr::Not(b) => match eval_expr(ev, *b) {
            GOutcome::Val(v) => GOutcome::Val(!v),
            undet => undet,
        },
    }
}

/// The outcome of an `all` group from branch `i` on, `acc` holding the
/// reports of the undetermined branches already passed. A definite `false`
/// wins over earlier undetermined branches.
pub open spec fn eval_all<E: CfgEvaluator>(
    ev: &E,
    list: Seq<GExpr>,
    i: int,
    acc: Seq<GCfgError>,
) -> GOutcome
    decreases list, 1int, list.len() - i
        when 0 <= i <= list.len()
{
    if i == list.len() {
        if acc.len() == 0 {
            GOutcome::Val(true)
        } else {
            GOutcome::Undet(acc)
        }
    } else {
        match eval_expr(ev, list[i]) {
            GOutcome::Val(true) => eval_all(ev, list, i + 1, acc),
            GOutcome::Val(false) => GOutcome::Val(false),
            GOutcome::Undet(ms) => eval_all(ev, list, i + 1, acc + ms),
        }
    }
}

/// The outcome of an `any` group from branch `i` on: the dual of `eval_all`,
/// short-circuiting on the first definite `true`.
pub open spec fn eval_any<E: CfgEvaluator>(
    ev: &E,
    list: Seq<GExpr>,
    i: int,
    acc: Seq<GCfgError>,
) -> GOutcome
    decreases list, 1int, list.len() - i
        when 0 <= i <= list.len()
{
    if i == list.len() {
        if acc.len() == 0 {
            GOutcome::Val(false)
        } else {
            GOutcome::Undet(acc)
        }
    } else {
        match eval_expr(ev, list[i]) {
            GOutcome::Val(true) => GOutcome::Val(true),
            GOutcome::Val(false) => eval_any(ev, list, i + 1, acc),
            GOutcome::Undet(ms) => eval_any(ev, list, i + 1, acc + ms),
        }
    }
}

/// Whether the executable result reports exactly the modelled outcome.
pub open spec fn matches_outcome(r: Result<bool, Vec<CfgError>>, o: GOutcome) -> bool {
    match r {
        Result::Ok(b) => o == GOutcome::Val(b),
        Result::Err(errs) => errs@.len() > 0 && o == GOutcome::Undet(
            errs@.map_values(|c: CfgError| c@),
        ),
    }
}

/// Evaluate a predicate tree against the resolver. Yields the boolean where
/// every reached leaf is decided, and otherwise the report of every
/// undetermined leaf that was reached, in order.
#[verifier::loop_isolation(false)]
pub fn try_eval<E: CfgEvaluator>(cfg_evaluator: &E, expr: &CfgExpr) -> (r: Result<
    bool,
    Vec<CfgError>,
>)
    ensures
        matches_outcome(r, eval_expr(cfg_evaluator, expr@)),
    decreases *expr,
{
    match expr {
        CfgExpr::Unconditional => Result::Ok(true),
        CfgExpr::Eq(key, value) => {
            let value_ref: Option<&str> = match value {
                Option::Some(v) => Option::Some(v.as_str()),
                Option::None => Option::None,
            };
            match cfg_evaluator.eval(key.as_str(), value_ref) {
                CfgResult::True => Result::Ok(true),
                CfgResult::False => Result::Ok(false),
                CfgResult::Undetermined { msg } => {
                    let value_copy: Option<String> = match value {
                        Option::Some(v) => Option::Some(v.clone()),
                        Option::None => Option::None,
                    };
                    let mut errs: Vec<CfgError> = Vec::new();
                    errs.push(CfgError { key: key.clone(), value: value_copy, msg });
                    proof {
                        assert(errs@.map_values(|c: CfgError| c@) =~= seq![errs@[0]@]);
                    }
                    Result::Err(errs)
                },
            }
        },
        CfgExpr::All(list) => {
            let ghost gl = view_expr_seq(list@);
            proof {
                lemma_view_expr_seq(list@);
            }
            let mut all_errors: Vec<CfgError> = Vec::new();
            proof {
                assert(all_errors@.map_values(|c: CfgError| c@) =~= Seq::<GCfgError>::empty());
            }
            let mut i: usize = 0;
            while i < list.len()
                invariant
                    0 <= i <= list.len(),
                    gl == view_expr_seq(list@),
                    gl.len() == list@.len(),
                    forall|j: int| 0 <= j < list@.len() ==> #[trigger] gl[j] == view_expr(
                        list@[j],
                    ),
                    eval_all(cfg_evaluator, gl, 0, Seq::empty()) == eval_all(
                        cfg_evaluator,
                        gl,
                        i as int,
                        all_errors@.map_values(|c: CfgError| c@),
                    ),
                decreases list.len() - i,
            {
                proof {
                    assert(decreases_to!(*expr => list@[i as int])) by {
                        vstd::std_specs::vec::axiom_vec_index_decreases(*list, i as int);
                        if expr is All {
                            assert((*expr)->All_0 == *list);
                            assert(decreases_to!(*expr => (*expr)->All_0));
                        } else {
                            assert((*expr)->Any_0 == *list);
                            assert(decreases_to!(*expr => (*expr)->Any_0));
                        }
                    }
                }
                let ghost acc0 = all_errors@.map_values(|c: CfgError| c@);
                match try_eval(cfg_evaluator, &list[i]) {
                    Result::Ok(true) => {},
                    Result::Ok(false) => {
                        return Result::Ok(false);
                    },
                    Result::Err(mut errs) => {
                        let ghost evs = errs@.map_values(|c: CfgError| c@);
                        all_errors.append(&mut errs);
                        proof {
                            assert(all_errors@.map_values(|c: CfgError| c@) =~= acc0 + evs);
                        }
                    },
                }
                i = i + 1;
            }
            if all_errors.len() == 0 {
                Result::Ok(true)
            } else {
                Result::Err(all_errors)
            }
        },
        CfgExpr::Any(list) => {
            let ghost gl = view_expr_seq(list@);
            proof {
                lemma_view_expr_seq(list@);
            }
            let mut all_errors: Vec<CfgError> = Vec::new();
            proof {
                assert(all_errors@.map_values(|c: CfgError| c@) =~= Seq::<GCfgError>::empty());
            }
            let mut i: usize = 0;
            while i < list.len()
                invariant
                    0 <= i <= list.len(),
                    gl == view_expr_seq(list@),
                    gl.len() == list@.len(),
                    forall|j: int| 0 <= j < list@.len() ==> #[trigger] gl[j] == view_expr(
                        list@[j],
                    ),
                    eval_any(cfg_evaluator, gl, 0, Seq::empty()) == eval_any(
                        cfg_evaluator,
                        gl,
                        i as int,
                        all_errors@.map_values(|c: CfgError| c@),
                    ),
                decreases list.len() - i,
            {
                proof {
                    assert(decreases_to!(*expr => list@[i as int])) by {
                        vstd::std_specs::vec::axiom_vec_index_decreases(*list, i as int);
                        if expr is All {
                            assert((*expr)->All_0 == *list);
                            assert(decreases_to!(*expr => (*expr)->All_0));
                        } else {
                            assert((*expr)->Any_0 == *list);
                            assert(decreases_to!(*expr => (*expr)->Any_0));
                        }
                    }
                }
                let ghost acc0 = all_errors@.map_values(|c: CfgError| c@);
                match try_eval(cfg_evaluator, &list[i]) {
                    Result::Ok(true) => {
                        return Result::Ok(true);
                    },
                    Result::Ok(false) => {},
                    Result::Err(mut errs) => {
                        let ghost evs = errs@.map_values(|c: CfgError| c@);
                        all_errors.append(&mut errs);
                        proof {
                            assert(all_errors@.map_values(|c: CfgError| c@) =~= acc0 + evs);
                        }
                    },
                }
                i = i + 1;
            }
            if all_errors.len() == 0 {
                Result::Ok(false)
            } else {
                Result::Err(all_errors)
            }
        },
        CfgExpr::Not(subexpr) => {
            proof {
                assert(decreases_to!(*expr => **subexpr)) by {
                    assert(*expr == CfgExpr::Not(Box::new(**subexpr)));
                }
            }
            match try_eval(cfg_evaluator, subexpr) {
                Result::Ok(value) => Result::Ok(!value),
                Result::Err(errors) => Result::Err(errors),
            }
        },
    }
}

/// How two predicates combine under `all` semantics: the unconditional
/// predicate is the identity, an `all` group absorbs the new branch, and any
/// other pair is wrapped in a fresh two-branch `all` group.
pub open spec fn spec_merge(a: GExpr, b: GExpr) -> GExpr {
    match a {
        GExpr::Unconditional => b,
        GExpr::All(list) => match b {
            GExpr::Unconditional => GExpr::All(list),
            _ => GExpr::All(list.push(b)),
        },
        _ => match b {
            GExpr::Unconditional => a,
            _ => GExpr::All(seq![a, b]),
        },
    }
}

impl CfgExpr {
    /// Combine this predicate with another one under `all` semantics.
    pub fn merge(self, other: CfgExpr) -> (r: CfgExpr)
        ensures
            r@ == spec_merge(self@, other@),
    {
        let self_unconditional = matches!(self, CfgExpr::Unconditional);
        let other_unconditional = matches!(other, CfgExpr::Unconditional);
        if self_unconditional {
            other
        } else if other_unconditional {
            self
        } else {
            match self {
                CfgExpr::All(mut list) => {
                    let ghost l0 = list@;
                    list.push(other);
                    proof {
                        lemma_view_expr_seq_push(l0, other);
                    }
                    CfgExpr::All(list)
                },
                prev => {
                    let mut list: Vec<CfgExpr> = Vec::new();
                    let ghost gprev = view_expr(prev);
                    let ghost gother = view_expr(other);
                    list.push(prev);
                    list.push(other);
                    proof {
                        lemma_view_expr_seq_push(Seq::empty(), list@[0]);
                        lemma_view_expr_seq_push(seq![list@[0]], list@[1]);
                        assert(list@.drop_last() =~= seq![list@[0]]);
                        assert(seq![list@[0]].drop_last() =~= Seq::<CfgExpr>::empty());
                        assert(view_expr_seq(list@) =~= seq![gprev, gother]);
                    }
                    CfgExpr::All(list)
                },
            }
        }
    }
}

/// Appending one tree to a sequence appends its model.
pub proof fn lemma_view_expr_seq_push(s: Seq<CfgExpr>, e: CfgExpr)
    ensures
        view_expr_seq(s.push(e)) == view_expr_seq(s).push(view_expr(e)),
{
    assert(s.push(e).drop_last() =~= s);
    assert(s.push(e).last() == e);
}

/// The single predicate that a list of independent predicates amounts to:
/// they are combined with `all` semantics, the empty list meaning
/// unconditionally enabled.
pub open spec fn spec_merge_all(s: Seq<GExpr>, i: int, acc: GExpr) -> GExpr
    decreases s.len() - i
        when 0 <= i <= s.len()
{
    if i == s.len() {
        acc
    } else {
        spec_merge_all(s, i + 1, spec_merge(acc, s[i]))
    }
}

/// Combine the predicates attached to one item and evaluate them against the
/// resolver. An item without predicates is enabled.
pub fn try_eval_attributes<E: CfgEvaluator>(cfg_evaluator: &E, exprs: Vec<CfgExpr>) -> (r: Result<
    bool,
    Vec<CfgError>,
>)
    ensures
        matches_outcome(
            r,
            eval_expr(
                cfg_evaluator,
                spec_merge_all(view_expr_seq(exprs@), 0, GExpr::Unconditional),
            ),
        ),
{
    let ghost gl = view_expr_seq(exprs@);
    proof {
        lemma_view_expr_seq(exprs@);
    }
    let mut acc = CfgExpr::Unconditional;
    let mut i: usize = 0;
    let n = exprs.len();
    let mut rest = exprs;
    // Fold the predicates front to back; each step takes the next one out.
    while rest.len() > 0
        invariant
            0 <= i <= n,
            i + rest.len() == n,
            gl.len() == n,
            forall|j: int| 0 <= j < rest@.len() ==> #[trigger] view_expr(rest@[j]) == gl[
                i + j
            ],
            spec_merge_all(gl, 0, GExpr::Unconditional) == spec_merge_all(gl, i as int, acc@),
        decreases rest.len(),
    {
        let e = rest.remove(0);
        acc = acc.merge(e);
        i = i + 1;
    }
    try_eval(cfg_evaluator, &acc)
}

/// A resolver backed by a table of enabled flags: a flag is enabled exactly
/// when the table holds its key with the queried value; a key that is absent
/// or carries another value is disabled. It never answers undetermined.
pub struct TableCfgEvaluator {
    /// The enabled flags; an earlier entry shadows a later one with the
    /// same key.
    pub cfgs: Vec<(String, Option<String>)>,
}

/// The first table entry with the given key, if any.
pub open spec fn table_lookup(s: Seq<(String, Option<String>)>, name: Seq<char>) -> Option<
    Option<Seq<char>>,
>
    decreases s.len(),
{
    if s.len() == 0 {
        Option::None
    } else if s[0].0@ == name {
        Option::Some(opt_string_view(s[0].1))
    } else {
        table_lookup(s.drop_first(), name)
    }
}

impl TableCfgEvaluator {
    /// An empty table: every flag is disabled.
    pub fn new() -> (r: TableCfgEvaluator)
        ensures
            r.cfgs@.len() == 0,
    {
        TableCfgEvaluator { cfgs: Vec::new() }
    }

    /// Enable a flag with the given value, shadowing any earlier entry
    /// with the same key.
    pub fn insert(&mut self, name: String, value: Option<String>)
        ensures
            final(self).cfgs@ == seq![(name, value)] + old(self).cfgs@,
    {
        self.cfgs.insert(0, (name, value));
        proof {
            assert(self.cfgs@ =~= seq![(self.cfgs@[0].0, self.cfgs@[0].1)] + old(self).cfgs@);
        }
    }
}

impl CfgEvaluator for TableCfgEvaluator {
    open spec fn answer(&self, name: Seq<char>, value: Option<Seq<char>>) -> GAnswer {
        match table_lookup(self.cfgs@, name) {
            Option::Some(v) => if v == value {
                GAnswer::True
            } else {
                GAnswer::False
            },
            Option::None => GAnswer::False,
        }
    }

    fn eval(&self, name: &str, value: Option<&str>) -> (r: CfgResult) {
        proof {
            assert(self.cfgs@.skip(0) =~= self.cfgs@);
        }
        let mut i: usize = 0;
        while i < self.cfgs.len()
            invariant
                0 <= i <= self.cfgs@.len(),
                table_lookup(self.cfgs@, name@) == table_lookup(
                    self.cfgs@.skip(i as int),
                    name@,
                ),
            decreases self.cfgs@.len() - i,
        {
            proof {
                assert(self.cfgs@.skip(i as int)[0] == self.cfgs@[i as int]);
                assert(self.cfgs@.skip(i as int).drop_first() =~= self.cfgs@.skip(i + 1int));
            }
            let entry = &self.cfgs[i];
            if str_eq(entry.0.as_str(), name) {
                let entry_value: Option<String> = match &entry.1 {
                    Option::Some(v) => Option::Some(v.clone()),
                    Option::None => Option::None,
                };
                let query_value: Option<String> = match value {
                    Option::Some(v) => Option::Some(v.to_owned()),
                    Option::None => Option::None,
                };
                if opt_str_eq(&entry_value, &query_value) {
                    return CfgResult::True;
                } else {
                    return CfgResult::False;
                }
            }
            i = i + 1;
        }
        proof {
            assert(self.cfgs@.skip(self.cfgs@.len() as int).len() == 0);
        }
        CfgResult::False
    }
}

/// A resolver that cannot decide any flag and always reports the same reason.
pub struct UndeterminedCfgEvaluator {
    /// The reason reported for every flag.
    pub msg: String,
}

impl CfgEvaluator for UndeterminedCfgEvaluator {
    open spec fn answer(&self, name: Seq<char>, value: Option<Seq<char>>) -> GAnswer {
        GAnswer::Undetermined(self.msg@)
    }

    fn eval(&self, name: &str, value: Option<&str>) -> (r: CfgResult) {
        CfgResult::Undetermined { msg: self.msg.clone() }
    }
}

/// An `all` group over two leaves that the resolver cannot decide fails with
/// the reports of both leaves, in order, not just the first.
pub proof fn lemma_all_reports_every_undetermined<E: CfgEvaluator>(
    ev: &E,
    key_a: Seq<char>,
    value_a: Option<Seq<char>>,
    reason_a: Seq<char>,
    key_b: Seq<char>,
    value_b: Option<Seq<char>>,
    reason_b: Seq<char>,
)
    requires
        ev.answer(key_a, value_a) == GAnswer::Undetermined(reason_a),
        ev.answer(key_b, value_b) == GAnswer::Undetermined(reason_b),
    ensures
        eval_expr(ev, GExpr::All(seq![GExpr::Eq(key_a, value_a), GExpr::Eq(key_b, value_b)]))
            == GOutcome::Undet(
            seq![
                GCfgError { key: key_a, value: value_a, msg: reason_a },
                GCfgError { key: key_b, value: value_b, msg: reason_b },
            ],
        ),
{
    let leaves = seq![GExpr::Eq(key_a, value_a), GExpr::Eq(key_b, value_b)];
    let err_a = GCfgError { key: key_a, value: value_a, msg: reason_a };
    let err_b = GCfgError { key: key_b, value: value_b, msg: reason_b };
    assert(eval_expr(ev, leaves[0]) == GOutcome::Undet(seq![err_a]));
    assert(eval_expr(ev, leaves[1]) == GOutcome::Undet(seq![err_b]));
    assert(Seq::<GCfgError>::empty() + seq![err_a] =~= seq![err_a]);
    assert(seq![err_a] + seq![err_b] =~= seq![err_a, err_b]);
    assert(eval_all(ev, leaves, 0, Seq::empty()) == eval_all(
        ev,
        leaves,
        1,
        Seq::<GCfgError>::empty() + seq![err_a],
    ));
    assert(eval_all(ev, leaves, 1, seq![err_a]) == eval_all(
        ev,
        leaves,
        2,
        seq![err_a] + seq![err_b],
    ));
    assert(eval_all(ev, leaves, 2, seq![err_a, err_b]) == GOutcome::Undet(
        seq![err_a, err_b],
    ));
}

} // verus!
