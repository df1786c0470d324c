//! Model of the declared (bridge-side) type shapes that the generator
//! accepts: path types with optional generic arguments, references, raw
//! pointers, and an opaque remainder carried as source text.

use vstd::prelude::*;

verus! {

/// A declared type as the structuring layer hands it to the generators.
#[derive(PartialEq, Eq, Debug)]
pub enum RustType {
    /// A possibly qualified path type such as `i32` or `a::B<C>`.
    Path(Vec<PathSegment>),
    /// A reference, `&T` or `&mut T`.
    Reference { mutable: bool, elem: Box<RustType> },
    /// A raw pointer, `*const T` or `*mut T`.
    Ptr { mutable: bool, elem: Box<RustType> },
    /// Any other shape, carried as its source text.
    Other(String),
}

/// One segment of a path type: its identifier and its arguments.
#[derive(PartialEq, Eq, Debug)]
pub struct PathSegment {
    /// The segment's identifier.
    pub ident: String,
    /// The segment's generic arguments.
    pub arguments: PathArgs,
}

/// The generic arguments of one path segment.
#[derive(PartialEq, Eq, Debug)]
pub enum PathArgs {
    /// No arguments.
    Empty,
    /// Angle-bracketed arguments, `<A, B>`.
    AngleBracketed(Vec<GenericArg>),
    /// Parenthesized (function-style) arguments, which the generator rejects.
    Parenthesized,
}

/// One angle-bracketed generic argument.
#[derive(PartialEq, Eq, Debug)]
pub enum GenericArg {
    /// A type argument.
    Ty(RustType),
    /// A lifetime, const or other non-type argument.
    Other,
}

/// Mathematical model of a declared type.
#[verifier::ext_equal]
pub enum GTy {
    Path(Seq<GSeg>),
    Reference { mutable: bool, elem: Box<GTy> },
    Ptr { mutable: bool, elem: Box<GTy> },
    Other(Seq<char>),
}

/// Mathematical model of a path segment.
#[verifier::ext_equal]
pub struct GSeg {
    pub ident: Seq<char>,
    pub arguments: GArgs,
}

/// Mathematical model of a segment's arguments.
#[verifier::ext_equal]
pub enum GArgs {
    Empty,
    AngleBracketed(Seq<GArg>),
    Parenthesized,
}

/// Mathematical model of one generic argument.
#[verifier::ext_equal]
pub enum GArg {
    Ty(Box<GTy>),
    Other,
}

/// The model of a declared type.
pub open spec fn view_ty(t: RustType) -> GTy
    decreases t, 0int,
{
    match t {
        RustType::Path(segs) => GTy::Path(view_seg_seq(segs@)),
        RustType::Reference { mutable, elem } => GTy::Reference {
            mutable,
            elem: Box::new(view_ty(*elem)),
        },
        RustType::Ptr { mutable, elem } => GTy::Ptr { mutable, elem: Box::new(view_ty(*elem)) },
        RustType::Other(text) => GTy::Other(text@),
    }
}

/// The models of a sequence of path segments, in order.
pub open spec fn view_seg_seq(s: Seq<PathSegment>) -> Seq<GSeg>
    decreases s, 1int,
{
    if s.len() == 0 {
        Seq::empty()
    } else {
        view_seg_seq(s.drop_last()).push(view_seg(s.last()))
    }
}

/// The model of a path segment.
pub open spec fn view_seg(s: PathSegment) -> GSeg
    decreases s, 0int,
{
    GSeg { ident: s.ident@, arguments: view_args(s.arguments) }
}

/// The model of a segment's arguments.
pub open spec fn view_args(a: PathArgs) -> GArgs
    decreases a, 0int,
{
    match a {
        PathArgs::Empty => GArgs::Empty,
        PathArgs::AngleBracketed(list) => GArgs::AngleBracketed(view_arg_seq(list@)),
        PathArgs::Parenthesized => GArgs::Parenthesized,
    }
}

/// The models of a sequence of generic arguments, in order.
pub open spec fn view_arg_seq(s: Seq<GenericArg>) -> Seq<GArg>
    decreases s, 1int,
{
    if s.len() == 0 {
        Seq::empty()
    } else {
        view_arg_seq(s.drop_last()).push(view_arg(s.last()))
    }
}

/// The model of one generic argument.
pub open spec fn view_arg(a: GenericArg) -> GArg
    decreases a, 0int,
{
    match a {
        GenericArg::Ty(t) => GArg::Ty(Box::new(view_ty(t))),
        GenericArg::Other => GArg::Other,
    }
}

impl View for RustType {
    type V = GTy;

    open spec fn view(&self) -> GTy {
        view_ty(*self)
    }
}

impl View for PathSegment {
    type V = GSeg;

    open spec fn view(&self) -> GSeg {
        view_seg(*self)
    }
}

impl View for PathArgs {
    type V = GArgs;

    open spec fn view(&self) -> GArgs {
        view_args(*self)
    }
}

impl View for GenericArg {
    type V = GArg;

    open spec fn view(&self) -> GArg {
        view_arg(*self)
    }
}

/// The element-wise description of `view_seg_seq`.
pub proof fn lemma_view_seg_seq(s: Seq<PathSegment>)
    ensures
        view_seg_seq(s).len() == s.len(),
        forall|i: int| 0 <= i < s.len() ==> #[trigger] view_seg_seq(s)[i] == view_seg(s[i]),
    decreases s.len(),
{
    if s.len() > 0 {
        lemma_view_seg_seq(s.drop_last());
    }
}

/// The element-wise description of `view_arg_seq`.
pub proof fn lemma_view_arg_seq(s: Seq<GenericArg>)
    ensures
        view_arg_seq(s).len() == s.len(),
        forall|i: int| 0 <= i < s.len() ==> #[trigger] view_arg_seq(s)[i] == view_arg(s[i]),
    decreases s.len(),
{
    if s.len() > 0 {
        lemma_view_arg_seq(s.drop_last());
    }
}

impl RustType {
    /// An exact copy of this type.
    #[verifier::loop_isolation(false)]
    pub fn clone_ty(&self) -> (r: RustType)
        ensures
            r@ == self@,
        decreases *self, 0int,
    {
        match self {
            RustType::Path(segs) => {
                let ghost gsegs = view_seg_seq(segs@);
                proof {
                    lemma_view_seg_seq(segs@);
                }
                let mut out: Vec<PathSegment> = Vec::new();
                proof {
                    assert(view_seg_seq(out@) =~= gsegs.subrange(0, 0));
                }
                let mut i: usize = 0;
                while i < segs.len()
                    invariant
                        0 <= i <= segs@.len(),
                        view_seg_seq(out@) == gsegs.subrange(0, i as int),
                    decreases segs@.len() - i,
                {
                    proof {
                        assert(decreases_to!(*self, 0int => segs@[i as int], 1int)) by {
                            vstd::std_specs::vec::axiom_vec_index_decreases(*segs, i as int);
                            assert((*self)->Path_0 == *segs);
                            assert(decreases_to!(*self => (*self)->Path_0));
                        }
                    }
                    let seg = &segs[i];
                    let ghost out0 = out@;
                    let arguments = match &seg.arguments {
                        PathArgs::Empty => PathArgs::Empty,
                        PathArgs::Parenthesized => PathArgs::Parenthesized,
                        PathArgs::AngleBracketed(list) => {
                            let ghost glist = view_arg_seq(list@);
                            proof {
                                lemma_view_arg_seq(list@);
                            }
                            let mut args: Vec<GenericArg> = Vec::new();
                            proof {
                                assert(view_arg_seq(args@) =~= glist.subrange(0, 0));
                            }
                            let mut j: usize = 0;
                            while j < list.len()
                                invariant
                                    0 <= j <= list@.len(),
                                    view_arg_seq(args@) == glist.subrange(0, j as int),
                                decreases list@.len() - j,
                            {
                                proof {
                                    assert(decreases_to!(
                                        *self, 0int => list@[j as int], 0int)) by {
                                        vstd::std_specs::vec::axiom_vec_index_decreases(
                                            *list,
                                            j as int,
                                        );
                                        assert(decreases_to!(segs@[i as int] =>
                                            segs@[i as int].arguments));
                                        assert((segs@[i as int].arguments)
                                            ->AngleBracketed_0 == *list);
                                        assert(decreases_to!(segs@[i as int].arguments =>
                                            (segs@[i as int].arguments)->AngleBracketed_0));
                                    }
                                }
                                let ghost args0 = args@;
                                let copied = match &list[j] {
                                    GenericArg::Other => GenericArg::Other,
                                    GenericArg::Ty(t) => {
                                        proof {
                                            assert(decreases_to!(list@[j as int] => *t)) by {
                                                assert((list@[j as int])->Ty_0 == *t);
                                                assert(decreases_to!(list@[j as int] =>
                                                    (list@[j as int])->Ty_0));
                                            }
                                        }
                                        GenericArg::Ty(t.clone_ty())
                                    },
                                };
                                args.push(copied);
                                proof {
                                    assert(view_arg_seq(args@) =~= glist.subrange(
                                        0,
                                        j + 1int,
                                    )) by {
                                        assert(args@.drop_last() =~= args0);
                                        assert(view_arg(args@.last()) == glist[j as int]);
                                        assert(glist.subrange(0, j + 1int).drop_last()
                                            =~= glist.subrange(0, j as int));
                                    }
                                }
                                j = j + 1;
                            }
                            proof {
                                assert(glist.subrange(0, glist.len() as int) =~= glist);
                            }
                            PathArgs::AngleBracketed(args)
                        },
                    };
                    out.push(PathSegment { ident: seg.ident.clone(), arguments });
                    proof {
                        assert(view_seg_seq(out@) =~= gsegs.subrange(0, i + 1int)) by {
                            assert(out@.drop_last() =~= out0);
                            assert(view_seg(out@.last()) == gsegs[i as int]);
                            assert(gsegs.subrange(0, i + 1int).drop_last() =~= gsegs
                                .subrange(0, i as int));
                        }
                    }
                    i = i + 1;
                }
                proof {
                    assert(gsegs.subrange(0, gsegs.len() as int) =~= gsegs);
                }
                RustType::Path(out)
            },
            RustType::Reference { mutable, elem } => {
                proof {
                    assert(decreases_to!(*self => **elem)) by {
                        assert((*self)->Reference_elem == *elem);
                        assert(decreases_to!(*self => (*self)->Reference_elem));
                    }
                }
                RustType::Reference { mutable: *mutable, elem: Box::new(elem.clone_ty()) }
            },
            RustType::Ptr { mutable, elem } => {
                proof {
                    assert(decreases_to!(*self => **elem)) by {
                        assert((*self)->Ptr_elem == *elem);
                        assert(decreases_to!(*self => (*self)->Ptr_elem));
                    }
                }
                RustType::Ptr { mutable: *mutable, elem: Box::new(elem.clone_ty()) }
            },
            RustType::Other(text) => RustType::Other(text.clone()),
        }
    }

    /// A single-segment path type without generic arguments, such as `i32`.
    pub fn ident(name: &str) -> (r: RustType)
        ensures
            r@ == GTy::Path(seq![GSeg { ident: name@, arguments: GArgs::Empty }]),
    {
        let mut segs: Vec<PathSegment> = Vec::new();
        segs.push(PathSegment { ident: name.to_owned(), arguments: PathArgs::Empty });
        proof {
            assert(segs@.drop_last() =~= Seq::<PathSegment>::empty());
            assert(view_seg_seq(Seq::<PathSegment>::empty()) == Seq::<GSeg>::empty());
            assert(segs@.last() == segs@[0]);
            assert(view_seg_seq(segs@) =~= seq![view_seg(segs@[0])]);
        }
        RustType::Path(segs)
    }

    /// A single-segment generic wrapper around one type argument, such as
    /// `UniquePtr<QColor>`.
    pub fn template(name: &str, arg: RustType) -> (r: RustType)
        ensures
            r@ == GTy::Path(
                seq![
                    GSeg {
                        ident: name@,
                        arguments: GArgs::AngleBracketed(seq![GArg::Ty(Box::new(arg@))]),
                    },
                ],
            ),
    {
        let ghost garg = arg@;
        let mut args: Vec<GenericArg> = Vec::new();
        args.push(GenericArg::Ty(arg));
        proof {
            assert(args@.drop_last() =~= Seq::<GenericArg>::empty());
            assert(view_arg_seq(Seq::<GenericArg>::empty()) == Seq::<GArg>::empty());
            assert(args@.last() == args@[0]);
            assert(view_arg_seq(args@) =~= seq![view_arg(args@[0])]);
        }
        let mut segs: Vec<PathSegment> = Vec::new();
        segs.push(
            PathSegment { ident: name.to_owned(), arguments: PathArgs::AngleBracketed(args) },
        );
        proof {
            assert(segs@.drop_last() =~= Seq::<PathSegment>::empty());
            assert(view_seg_seq(Seq::<PathSegment>::empty()) == Seq::<GSeg>::empty());
            assert(segs@.last() == segs@[0]);
            assert(view_seg_seq(segs@) =~= seq![view_seg(segs@[0])]);
        }
        RustType::Path(segs)
    }

    /// A reference to the given type.
    pub fn reference(mutable: bool, elem: RustType) -> (r: RustType)
        ensures
            r@ == (GTy::Reference { mutable, elem: Box::new(elem@) }),
    {
        RustType::Reference { mutable, elem: Box::new(elem) }
    }
}

} // verus!
