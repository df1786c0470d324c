//! A user-declared constructor: one declared argument tuple, each argument
//! routed to exactly one of three destinations — the inner-data factory
//! call, the native base-class constructor call, or the post-construction
//! initialization call.

use vstd::prelude::*;

use crate::parser::{GParam, ParsedFunctionParameter};

verus! {

/// Where one constructor argument is routed.
#[derive(Clone, Copy, PartialEq, Eq, Structural, Debug)]
pub enum ArgRoute {
    /// Forwarded to the inner-data factory call.
    New,
    /// Forwarded to the native base-class constructor call.
    Base,
    /// Used only by the post-construction initialization call.
    Initialize,
}

/// One user-declared constructor.
#[derive(PartialEq, Eq, Debug)]
pub struct ConstructorDesc {
    /// The declared argument tuple, in source order.
    pub arguments: Vec<ParsedFunctionParameter>,
    /// The destination of each argument, one entry per argument.
    pub routing: Vec<ArgRoute>,
}

impl ConstructorDesc {
    /// Well-formed: one destination per declared argument.
    pub open spec fn wf(&self) -> bool {
        self.routing@.len() == self.arguments@.len()
    }
}

/// The indices of the arguments from `i` on that are routed to `route`, in
/// source order.
pub open spec fn spec_route_ixs(routing: Seq<ArgRoute>, route: ArgRoute, i: int) -> Seq<int>
    decreases routing.len() - i
        when 0 <= i <= routing.len()
{
    if i == routing.len() {
        Seq::empty()
    } else if routing[i] == route {
        seq![i] + spec_route_ixs(routing, route, i + 1)
    } else {
        spec_route_ixs(routing, route, i + 1)
    }
}

/// The arguments at the given indices, in that order.
pub open spec fn spec_select(args: Seq<GParam>, ixs: Seq<int>) -> Seq<GParam> {
    ixs.map_values(|ix: int| args[ix])
}

/// A route's index group holds exactly the indices routed to it, in
/// strictly increasing order.
pub proof fn lemma_route_ixs(routing: Seq<ArgRoute>, route: ArgRoute, i: int)
    requires
        0 <= i <= routing.len(),
    ensures
        forall|k: int| 0 <= k < spec_route_ixs(routing, route, i).len() ==> i
            <= #[trigger] spec_route_ixs(routing, route, i)[k] < routing.len() && routing[
            spec_route_ixs(routing, route, i)[k]
        ] == route,
        forall|x: int| spec_route_ixs(routing, route, i).contains(x) <==> (i <= x
            < routing.len() && routing[x] == route),
        forall|a: int, b: int| 0 <= a < b < spec_route_ixs(routing, route, i).len()
            ==> #[trigger] spec_route_ixs(routing, route, i)[a] < #[trigger] spec_route_ixs(
            routing,
            route,
            i,
        )[b],
    decreases routing.len() - i,
{
    if i < routing.len() {
        lemma_route_ixs(routing, route, i + 1);
        let rest = spec_route_ixs(routing, route, i + 1);
        let cur = spec_route_ixs(routing, route, i);
        if routing[i] == route {
            assert(cur == seq![i] + rest);
            assert forall|x: int| cur.contains(x) implies (i <= x < routing.len() && routing[x]
                == route) by {
                let k = choose|k: int| 0 <= k < cur.len() && cur[k] == x;
                if k == 0 {
                } else {
                    assert(rest[k - 1] == x);
                    assert(rest.contains(x));
                }
            }
            assert forall|x: int| (i <= x < routing.len() && routing[x] == route) implies cur
                .contains(x) by {
                if x == i {
                    assert(cur[0] == x);
                } else {
                    assert(rest.contains(x));
                    let k = choose|k: int| 0 <= k < rest.len() && rest[k] == x;
                    assert(cur[k + 1] == x);
                }
            }
            assert forall|a: int, b: int| 0 <= a < b < cur.len() implies cur[a] < cur[b] by {
                assert(cur[b] == rest[b - 1]);
                if a > 0 {
                    assert(cur[a] == rest[a - 1]);
                }
            }
        } else {
            assert(cur == rest);
        }
    }
}

/// The three groups cover the arguments: their sizes add up to the whole
/// tuple.
pub proof fn lemma_route_ixs_sizes(routing: Seq<ArgRoute>, i: int)
    requires
        0 <= i <= routing.len(),
    ensures
        spec_route_ixs(routing, ArgRoute::New, i).len() + spec_route_ixs(
            routing,
            ArgRoute::Base,
            i,
        ).len() + spec_route_ixs(routing, ArgRoute::Initialize, i).len() == routing.len() - i,
    decreases routing.len() - i,
{
    if i < routing.len() {
        lemma_route_ixs_sizes(routing, i + 1);
    }
}

/// Constructor argument partition: each of the three routed groups receives
/// a disjoint, order-preserving subsequence of the declared argument tuple,
/// and together the groups cover every argument exactly once — every
/// argument index lies in exactly the group its route names, each group is
/// strictly increasing, and the group sizes add up to the tuple's length.
pub proof fn lemma_constructor_partition(routing: Seq<ArgRoute>)
    ensures
        forall|x: int| 0 <= x < routing.len() ==> (spec_route_ixs(
            routing,
            ArgRoute::New,
            0,
        ).contains(x) <==> routing[x] == ArgRoute::New),
        forall|x: int| 0 <= x < routing.len() ==> (spec_route_ixs(
            routing,
            ArgRoute::Base,
            0,
        ).contains(x) <==> routing[x] == ArgRoute::Base),
        forall|x: int| 0 <= x < routing.len() ==> (spec_route_ixs(
            routing,
            ArgRoute::Initialize,
            0,
        ).contains(x) <==> routing[x] == ArgRoute::Initialize),
        forall|a: int, b: int, route: ArgRoute| 0 <= a < b < spec_route_ixs(
            routing,
            route,
            0,
        ).len() ==> #[trigger] spec_route_ixs(routing, route, 0)[a] < #[trigger] spec_route_ixs(
            routing,
            route,
            0,
        )[b],
        spec_route_ixs(routing, ArgRoute::New, 0).len() + spec_route_ixs(
            routing,
            ArgRoute::Base,
            0,
        ).len() + spec_route_ixs(routing, ArgRoute::Initialize, 0).len() == routing.len(),
{
    lemma_route_ixs(routing, ArgRoute::New, 0);
    lemma_route_ixs(routing, ArgRoute::Base, 0);
    lemma_route_ixs(routing, ArgRoute::Initialize, 0);
    lemma_route_ixs_sizes(routing, 0);
    assert forall|a: int, b: int, route: ArgRoute| 0 <= a < b < spec_route_ixs(
        routing,
        route,
        0,
    ).len() implies #[trigger] spec_route_ixs(routing, route, 0)[a] < #[trigger] spec_route_ixs(
        routing,
        route,
        0,
    )[b] by {
        lemma_route_ixs(routing, route, 0);
    }
}

impl ConstructorDesc {
    /// Split the declared argument tuple into the three routed groups, in
    /// the trait's order: the factory arguments, the base-class arguments,
    /// and the initialization arguments. No argument is used twice and no
    /// group is silently dropped.
    #[verifier::loop_isolation(false)]
    pub fn route_arguments(&self) -> (r: (
        Vec<ParsedFunctionParameter>,
        Vec<ParsedFunctionParameter>,
        Vec<ParsedFunctionParameter>,
    ))
        requires
            self.wf(),
        ensures
            ({
                let gargs = self.arguments@.map_values(|p: ParsedFunctionParameter| p@);
                let groute = self.routing@;
                &&& r.0@.map_values(|p: ParsedFunctionParameter| p@) == spec_select(
                    gargs,
                    spec_route_ixs(groute, ArgRoute::New, 0),
                )
                &&& r.1@.map_values(|p: ParsedFunctionParameter| p@) == spec_select(
                    gargs,
                    spec_route_ixs(groute, ArgRoute::Base, 0),
                )
                &&& r.2@.map_values(|p: ParsedFunctionParameter| p@) == spec_select(
                    gargs,
                    spec_route_ixs(groute, ArgRoute::Initialize, 0),
                )
            }),
    {
        let ghost gargs = self.arguments@.map_values(|p: ParsedFunctionParameter| p@);
        let ghost groute = self.routing@;
        let mut new_args: Vec<ParsedFunctionParameter> = Vec::new();
        let mut base_args: Vec<ParsedFunctionParameter> = Vec::new();
        let mut init_args: Vec<ParsedFunctionParameter> = Vec::new();
        let ghost mut new_ixs: Seq<int> = Seq::empty();
        let ghost mut base_ixs: Seq<int> = Seq::empty();
        let ghost mut init_ixs: Seq<int> = Seq::empty();
        let mut i: usize = 0;
        proof {
            assert(new_args@.map_values(|p: ParsedFunctionParameter| p@) =~= spec_select(
                gargs,
                new_ixs,
            ));
            assert(base_args@.map_values(|p: ParsedFunctionParameter| p@) =~= spec_select(
                gargs,
                base_ixs,
            ));
            assert(init_args@.map_values(|p: ParsedFunctionParameter| p@) =~= spec_select(
                gargs,
                init_ixs,
            ));
        }
        while i < self.arguments.len()
            invariant
                0 <= i <= groute.len(),
                groute.len() == gargs.len(),
                spec_route_ixs(groute, ArgRoute::New, 0) == new_ixs + spec_route_ixs(
                    groute,
                    ArgRoute::New,
                    i as int,
                ),
                spec_route_ixs(groute, ArgRoute::Base, 0) == base_ixs + spec_route_ixs(
                    groute,
                    ArgRoute::Base,
                    i as int,
                ),
                spec_route_ixs(groute, ArgRoute::Initialize, 0) == init_ixs + spec_route_ixs(
                    groute,
                    ArgRoute::Initialize,
                    i as int,
                ),
                new_args@.map_values(|p: ParsedFunctionParameter| p@) == spec_select(
                    gargs,
                    new_ixs,
                ),
                base_args@.map_values(|p: ParsedFunctionParameter| p@) == spec_select(
                    gargs,
                    base_ixs,
                ),
                init_args@.map_values(|p: ParsedFunctionParameter| p@) == spec_select(
                    gargs,
                    init_ixs,
                ),
            decreases groute.len() - i,
        {
            proof {
                assert(Seq::<int>::empty() + spec_route_ixs(groute, ArgRoute::New, i as int)
                    =~= spec_route_ixs(groute, ArgRoute::New, i as int));
            }
            let p = &self.arguments[i];
            let copied = ParsedFunctionParameter { ident: p.ident.clone(), ty: p.ty.clone_ty() };
            let ghost gcopied = copied@;
            let ghost gix = seq![i as int];
            proof {
                assert(gcopied == gargs[i as int]);
            }
            match self.routing[i] {
                ArgRoute::New => {
                    let ghost v0 = new_args@;
                    new_args.push(copied);
                    proof {
                        let ghost nixs = new_ixs + gix;
                        assert(nixs.drop_last() =~= new_ixs);
                        assert forall|k: int| 0 <= k < new_args@.len() implies (new_args@
                            .map_values(|p: ParsedFunctionParameter| p@))[k] == spec_select(
                            gargs,
                            nixs,
                        )[k] by {
                            if k < new_args@.len() - 1 {
                                assert(new_args@[k] == v0[k]);
                                assert((v0.map_values(|p: ParsedFunctionParameter| p@))[k]
                                    == gargs[new_ixs[k]]);
                                assert(nixs[k] == new_ixs[k]);
                            } else {
                                assert(new_args@[k]@ == gcopied);
                                assert(nixs[k] == i as int);
                            }
                        }
                        assert(new_args@.map_values(|p: ParsedFunctionParameter| p@)
                            =~= spec_select(gargs, nixs));
                        assert(new_ixs + (gix + spec_route_ixs(
                            groute,
                            ArgRoute::New,
                            i + 1int,
                        )) =~= nixs + spec_route_ixs(groute, ArgRoute::New, i + 1int));
                        new_ixs = nixs;
                    }
                },
                ArgRoute::Base => {
                    let ghost v0 = base_args@;
                    base_args.push(copied);
                    proof {
                        let ghost nixs = base_ixs + gix;
                        assert(nixs.drop_last() =~= base_ixs);
                        assert forall|k: int| 0 <= k < base_args@.len() implies (base_args@
                            .map_values(|p: ParsedFunctionParameter| p@))[k] == spec_select(
                            gargs,
                            nixs,
                        )[k] by {
                            if k < base_args@.len() - 1 {
                                assert(base_args@[k] == v0[k]);
                                assert((v0.map_values(|p: ParsedFunctionParameter| p@))[k]
                                    == gargs[base_ixs[k]]);
                                assert(nixs[k] == base_ixs[k]);
                            } else {
                                assert(base_args@[k]@ == gcopied);
                                assert(nixs[k] == i as int);
                            }
                        }
                        assert(base_args@.map_values(|p: ParsedFunctionParameter| p@)
                            =~= spec_select(gargs, nixs));
                        assert(base_ixs + (gix + spec_route_ixs(
                            groute,
                            ArgRoute::Base,
                            i + 1int,
                        )) =~= nixs + spec_route_ixs(groute, ArgRoute::Base, i + 1int));
                        base_ixs = nixs;
                    }
                },
                ArgRoute::Initialize => {
                    let ghost v0 = init_args@;
                    init_args.push(copied);
                    proof {
                        let ghost nixs = init_ixs + gix;
                        assert(nixs.drop_last() =~= init_ixs);
                        assert forall|k: int| 0 <= k < init_args@.len() implies (init_args@
                            .map_values(|p: ParsedFunctionParameter| p@))[k] == spec_select(
                            gargs,
                            nixs,
                        )[k] by {
                            if k < init_args@.len() - 1 {
                                assert(init_args@[k] == v0[k]);
                                assert((v0.map_values(|p: ParsedFunctionParameter| p@))[k]
                                    == gargs[init_ixs[k]]);
                                assert(nixs[k] == init_ixs[k]);
                            } else {
                                assert(init_args@[k]@ == gcopied);
                                assert(nixs[k] == i as int);
                            }
                        }
                        assert(init_args@.map_values(|p: ParsedFunctionParameter| p@)
                            =~= spec_select(gargs, nixs));
                        assert(init_ixs + (gix + spec_route_ixs(
                            groute,
                            ArgRoute::Initialize,
                            i + 1int,
                        )) =~= nixs + spec_route_ixs(groute, ArgRoute::Initialize, i + 1int));
                        init_ixs = nixs;
                    }
                },
            }
            i = i + 1;
        }
        proof {
            assert(new_ixs + spec_route_ixs(groute, ArgRoute::New, groute.len() as int)
                =~= new_ixs);
            assert(base_ixs + spec_route_ixs(groute, ArgRoute::Base, groute.len() as int)
                =~= base_ixs);
            assert(init_ixs + spec_route_ixs(groute, ArgRoute::Initialize, groute.len() as int)
                =~= init_ixs);
        }
        (new_args, base_args, init_args)
    }

    /// An exact copy of this constructor description.
    pub fn clone_desc(&self) -> (r: ConstructorDesc)
        ensures
            r.arguments@.map_values(|p: ParsedFunctionParameter| p@) == self.arguments@
                .map_values(|p: ParsedFunctionParameter| p@),
            r.routing@ == self.routing@,
    {
        let mut routing: Vec<ArgRoute> = Vec::new();
        let mut i: usize = 0;
        while i < self.routing.len()
            invariant
                0 <= i <= self.routing@.len(),
                routing@ == self.routing@.subrange(0, i as int),
            decreases self.routing@.len() - i,
        {
            routing.push(self.routing[i]);
            proof {
                assert(routing@ =~= self.routing@.subrange(0, i + 1int));
            }
            i = i + 1;
        }
        proof {
            assert(self.routing@.subrange(0, self.routing@.len() as int) =~= self.routing@);
        }
        ConstructorDesc { arguments: crate::parser::clone_params(&self.arguments), routing }
    }
}

} // verus!
