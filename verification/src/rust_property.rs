//! The bridge-side fragments of an object's properties: a read accessor, a
//! write accessor, and the property's notify signal. The write accessor's
//! generated body compares the old and the new value first and skips both
//! the mutation and the notify emission when they are equal; that equality
//! short-circuit is required behaviour, relied on to prevent notify storms.

use vstd::prelude::*;
use vstd::string::*;

use crate::naming::{
    CombinedIdent, QObjectName, QPropertyName, spec_getter_cpp, spec_notify_cpp,
    spec_notify_rust, spec_setter_cpp, spec_setter_rust,
};
use crate::parser::{GProperty, GSignal, ParsedQProperty, ParsedSignal};
use crate::rust_signal::{
    RustSignalFragment, generate_rust_signals, signal_fragment_matches,
};
use crate::ty::{GTy, RustType};

verus! {

/// Whether the declared type holds a raw pointer anywhere, in which case
/// the bridge declaration demands an unsafety acknowledgement.
pub open spec fn spec_ty_has_ptr(t: GTy) -> bool
    decreases t, 0int,
{
    match t {
        GTy::Ptr { .. } => true,
        GTy::Reference { mutable, elem } => spec_ty_has_ptr(*elem),
        GTy::Path(segs) => spec_segs_have_ptr(segs, 0),
        GTy::Other(_) => false,
    }
}

/// Whether any segment from `i` on holds a raw pointer in its arguments.
pub open spec fn spec_segs_have_ptr(segs: Seq<crate::ty::GSeg>, i: int) -> bool
    decreases segs, segs.len() - i
        when 0 <= i <= segs.len()
{
    if i == segs.len() {
        false
    } else {
        spec_args_have_ptr(segs[i].arguments) || spec_segs_have_ptr(segs, i + 1)
    }
}

/// Whether a segment's arguments hold a raw pointer.
pub open spec fn spec_args_have_ptr(args: crate::ty::GArgs) -> bool
    decreases args, 0int,
{
    match args {
        crate::ty::GArgs::AngleBracketed(list) => spec_arg_list_has_ptr(list, 0),
        _ => false,
    }
}

/// Whether any argument from `i` on holds a raw pointer.
pub open spec fn spec_arg_list_has_ptr(list: Seq<crate::ty::GArg>, i: int) -> bool
    decreases list, list.len() - i
        when 0 <= i <= list.len()
{
    if i == list.len() {
        false
    } else {
        (match list[i] {
            crate::ty::GArg::Ty(t) => spec_ty_has_ptr(*t),
            crate::ty::GArg::Other => false,
        }) || spec_arg_list_has_ptr(list, i + 1)
    }
}

/// Whether the declared type holds a raw pointer anywhere.
#[verifier::loop_isolation(false)]
pub fn ty_has_ptr(t: &RustType) -> (r: bool)
    ensures
        r == spec_ty_has_ptr(t@),
    decreases *t, 0int,
{
    match t {
        RustType::Ptr { .. } => true,
        RustType::Other(_) => false,
        RustType::Reference { mutable, elem } => {
            proof {
                assert(decreases_to!(*t => **elem)) by {
                    assert((*t)->Reference_elem == *elem);
                    assert(decreases_to!(*t => (*t)->Reference_elem));
                }
            }
            ty_has_ptr(elem)
        },
        RustType::Path(segs) => {
            let ghost gsegs = crate::ty::view_seg_seq(segs@);
            proof {
                crate::ty::lemma_view_seg_seq(segs@);
            }
            let mut i: usize = 0;
            while i < segs.len()
                invariant
                    0 <= i <= segs@.len(),
                    spec_segs_have_ptr(gsegs, 0) == spec_segs_have_ptr(gsegs, i as int),
                decreases segs@.len() - i,
            {
                let seg = &segs[i];
                proof {
                    assert(gsegs[i as int] == crate::ty::view_seg(segs@[i as int]));
                }
                match &seg.arguments {
                    crate::ty::PathArgs::AngleBracketed(list) => {
                        let ghost glist = crate::ty::view_arg_seq(list@);
                        proof {
                            crate::ty::lemma_view_arg_seq(list@);
                            assert(gsegs[i as int].arguments == crate::ty::GArgs::AngleBracketed(
                                glist,
                            ));
                        }
                        let mut j: usize = 0;
                        while j < list.len()
                            invariant
                                0 <= j <= list@.len(),
                                spec_arg_list_has_ptr(glist, 0) == spec_arg_list_has_ptr(
                                    glist,
                                    j as int,
                                ),
                            decreases list@.len() - j,
                        {
                            proof {
                                assert(glist[j as int] == crate::ty::view_arg(
                                    list@[j as int],
                                ));
                            }
                            let hit = match &list[j] {
                                crate::ty::GenericArg::Ty(inner) => {
                                    proof {
                                        assert(decreases_to!(
                                            *t, 0int => *inner, 0int)) by {
                                            vstd::std_specs::vec::axiom_vec_index_decreases(
                                                *segs,
                                                i as int,
                                            );
                                            vstd::std_specs::vec::axiom_vec_index_decreases(
                                                *list,
                                                j as int,
                                            );
                                            assert((*t)->Path_0 == *segs);
                                            assert(decreases_to!(*t => (*t)->Path_0));
                                            assert(decreases_to!(segs@[i as int] =>
                                                segs@[i as int].arguments));
                                            assert((segs@[i as int].arguments)
                                                ->AngleBracketed_0 == *list);
                                            assert(decreases_to!(segs@[i as int].arguments
                                                => (segs@[i as int].arguments)
                                                ->AngleBracketed_0));
                                            assert((list@[j as int])->Ty_0 == *inner);
                                            assert(decreases_to!(list@[j as int] =>
                                                (list@[j as int])->Ty_0));
                                        }
                                    }
                                    ty_has_ptr(inner)
                                },
                                crate::ty::GenericArg::Other => false,
                            };
                            if hit {
                                proof {
                                    assert(spec_arg_list_has_ptr(glist, j as int));
                                    assert(spec_args_have_ptr(gsegs[i as int].arguments));
                                    assert(spec_segs_have_ptr(gsegs, i as int));
                                    assert(spec_ty_has_ptr(t@));
                                }
                                return true;
                            }
                            j = j + 1;
                        }
                        proof {
                            assert(!spec_arg_list_has_ptr(glist, glist.len() as int));
                            assert(!spec_args_have_ptr(gsegs[i as int].arguments));
                            assert(spec_segs_have_ptr(gsegs, i as int)
                                == spec_segs_have_ptr(gsegs, i + 1int));
                        }
                    },
                    _ => {
                        proof {
                            assert(!spec_args_have_ptr(gsegs[i as int].arguments));
                            assert(spec_segs_have_ptr(gsegs, i as int)
                                == spec_segs_have_ptr(gsegs, i + 1int));
                        }
                    },
                }
                i = i + 1;
            }
            proof {
                assert(!spec_segs_have_ptr(gsegs, gsegs.len() as int));
            }
            false
        },
    }
}

/// One statement of the generated write-accessor body.
#[derive(Clone, Copy, PartialEq, Eq, Structural, Debug)]
pub enum SetterStmt {
    /// Return early when the new value equals the current one.
    ReturnIfUnchanged,
    /// Store the new value in the backing field.
    AssignField,
    /// Emit the property's notify signal.
    EmitNotify,
}

/// Whether running the body from statement `i` on stores the new value,
/// given whether the new value equals the current one.
pub open spec fn spec_setter_assigns(body: Seq<SetterStmt>, i: int, equal: bool) -> bool
    decreases body.len() - i
        when 0 <= i <= body.len()
{
    if i == body.len() {
        false
    } else {
        match body[i] {
            SetterStmt::ReturnIfUnchanged => !equal && spec_setter_assigns(body, i + 1, equal),
            SetterStmt::AssignField => true,
            SetterStmt::EmitNotify => spec_setter_assigns(body, i + 1, equal),
        }
    }
}

/// Whether running the body from statement `i` on emits the notify signal,
/// given whether the new value equals the current one.
pub open spec fn spec_setter_emits(body: Seq<SetterStmt>, i: int, equal: bool) -> bool
    decreases body.len() - i
        when 0 <= i <= body.len()
{
    if i == body.len() {
        false
    } else {
        match body[i] {
            SetterStmt::ReturnIfUnchanged => !equal && spec_setter_emits(body, i + 1, equal),
            SetterStmt::AssignField => spec_setter_emits(body, i + 1, equal),
            SetterStmt::EmitNotify => true,
        }
    }
}

/// The generated write-accessor body: the equality guard first, then the
/// mutation, then the notify emission.
pub open spec fn spec_setter_body() -> Seq<SetterStmt> {
    seq![SetterStmt::ReturnIfUnchanged, SetterStmt::AssignField, SetterStmt::EmitNotify]
}

/// Equality short-circuit: in the generated write-accessor body the early
/// return precedes the mutation and the emission, so a call with a value
/// equal to the current one neither stores nor notifies, and a call with a
/// different value does both.
pub proof fn lemma_setter_short_circuit()
    ensures
        !spec_setter_assigns(spec_setter_body(), 0, true),
        !spec_setter_emits(spec_setter_body(), 0, true),
        spec_setter_assigns(spec_setter_body(), 0, false),
        spec_setter_emits(spec_setter_body(), 0, false),
{
    let body = spec_setter_body();
    assert(body[0] == SetterStmt::ReturnIfUnchanged);
    assert(body[1] == SetterStmt::AssignField);
    assert(body[2] == SetterStmt::EmitNotify);
    assert(spec_setter_assigns(body, 0, false) == spec_setter_assigns(body, 1, false));
    assert(spec_setter_emits(body, 0, false) == spec_setter_emits(body, 1, false));
    assert(spec_setter_emits(body, 1, false) == spec_setter_emits(body, 2, false));
}

/// The bridge declaration of a property's read accessor.
#[derive(PartialEq, Eq, Debug)]
pub struct RustPropertyGetterDecl {
    /// The native spelling the declaration binds to.
    pub cxx_name: String,
    /// The bridge-side accessor name.
    pub ident: String,
    /// The object the receiver belongs to.
    pub qobject_ident: String,
}

/// The implementation of a property's read accessor: it returns a reference
/// to the backing field.
#[derive(PartialEq, Eq, Debug)]
pub struct RustPropertyGetterImpl {
    /// The object the accessor is implemented on.
    pub qobject_ident: String,
    /// The property name quoted in the documentation lines.
    pub doc_property_name: String,
    /// The accessor's name.
    pub ident: String,
    /// The backing field the accessor reads.
    pub field: String,
}

/// The bridge declaration of a property's write accessor.
#[derive(PartialEq, Eq, Debug)]
pub struct RustPropertySetterDecl {
    /// The native spelling the declaration binds to.
    pub cxx_name: String,
    /// The bridge-side accessor name.
    pub ident: String,
    /// The object the receiver belongs to.
    pub qobject_ident: String,
    /// Whether the declaration demands an unsafety acknowledgement because
    /// the value type holds a raw pointer.
    pub method_unsafe: bool,
    /// The declared type of the value parameter.
    pub value_ty: RustType,
}

/// The implementation of a property's write accessor.
#[derive(PartialEq, Eq, Debug)]
pub struct RustPropertySetterImpl {
    /// The object the accessor is implemented on.
    pub qobject_ident: String,
    /// The property name quoted in the documentation lines.
    pub doc_property_name: String,
    /// The accessor's name.
    pub ident: String,
    /// The backing field the accessor writes.
    pub field: String,
    /// The bridge-side name of the notify signal the body emits.
    pub notify: String,
    /// The body, in statement order.
    pub body: Vec<SetterStmt>,
}

/// The five bridge-side fragments of one property.
#[derive(PartialEq, Eq, Debug)]
pub struct RustPropertyFragment {
    /// The read accessor's bridge declaration.
    pub getter_decl: RustPropertyGetterDecl,
    /// The read accessor's implementation.
    pub getter_impl: RustPropertyGetterImpl,
    /// The write accessor's bridge declaration.
    pub setter_decl: RustPropertySetterDecl,
    /// The write accessor's implementation.
    pub setter_impl: RustPropertySetterImpl,
    /// The property's notify signal.
    pub notify: RustSignalFragment,
}

/// The notify signal that a property synthesizes.
pub open spec fn spec_notify_signal(p: GProperty, qobject_rust: Seq<char>) -> GSignal {
    GSignal {
        cpp: spec_notify_cpp(p.ident),
        rust: spec_notify_rust(p.ident),
        qobject_ident: qobject_rust,
        mutable: true,
        parameters: Seq::empty(),
        safe: true,
        inherit: false,
        attrs: Seq::empty(),
    }
}

/// Whether the five fragments of one property carry exactly the names and
/// shapes derived from the property and the enclosing object: every
/// spelling comes from the property's one name bundle.
pub open spec fn property_fragment_matches(
    f: RustPropertyFragment,
    p: GProperty,
    qobject_rust: Seq<char>,
) -> bool {
    &&& f.getter_decl.cxx_name@ == spec_getter_cpp(p.ident)
    &&& f.getter_decl.ident@ == p.ident
    &&& f.getter_decl.qobject_ident@ == qobject_rust
    &&& f.getter_impl.qobject_ident@ == qobject_rust
    &&& f.getter_impl.doc_property_name@ == p.ident
    &&& f.getter_impl.ident@ == p.ident
    &&& f.getter_impl.field@ == p.ident
    &&& f.setter_decl.cxx_name@ == spec_setter_cpp(p.ident)
    &&& f.setter_decl.ident@ == spec_setter_rust(p.ident)
    &&& f.setter_decl.qobject_ident@ == qobject_rust
    &&& f.setter_decl.method_unsafe == spec_ty_has_ptr(p.ty)
    &&& f.setter_decl.value_ty@ == p.ty
    &&& f.setter_impl.qobject_ident@ == qobject_rust
    &&& f.setter_impl.doc_property_name@ == p.ident
    &&& f.setter_impl.ident@ == spec_setter_rust(p.ident)
    &&& f.setter_impl.field@ == p.ident
    &&& f.setter_impl.notify@ == spec_notify_rust(p.ident)
    &&& f.setter_impl.body@ == spec_setter_body()
    &&& signal_fragment_matches(f.notify, spec_notify_signal(p, qobject_rust), qobject_rust)
}

/// Generate the bridge-side fragments of every property, in declaration
/// order. Each property's five fragments share one derived name bundle.
#[verifier::loop_isolation(false)]
pub fn generate_rust_properties(
    properties: &Vec<ParsedQProperty>,
    qobject_idents: &QObjectName,
) -> (r: Vec<RustPropertyFragment>)
    ensures
        r@.len() == properties@.len(),
        forall|i: int| 0 <= i < properties@.len() ==> property_fragment_matches(
            #[trigger] r@[i],
            properties@.map_values(|p: ParsedQProperty| p@)[i],
            qobject_idents.cpp_class.rust@,
        ),
{
    let ghost gprops = properties@.map_values(|p: ParsedQProperty| p@);
    let ghost gq = qobject_idents.cpp_class.rust@;
    let mut generated: Vec<RustPropertyFragment> = Vec::new();
    let mut i: usize = 0;
    while i < properties.len()
        invariant
            0 <= i <= properties@.len(),
            generated@.len() == i,
            forall|j: int| 0 <= j < i ==> property_fragment_matches(
                #[trigger] generated@[j],
                gprops[j],
                gq,
            ),
        decreases properties@.len() - i,
    {
        let property = &properties[i];

        // Every fragment of this property derives its spelling from this
        // one name bundle.
        let camel = crate::naming::camel_case(property.ident.as_str());
        let idents = QPropertyName::from_idents(property.ident.as_str(), camel.as_str());

        let getter_decl = RustPropertyGetterDecl {
            cxx_name: idents.getter.cpp.clone(),
            ident: idents.getter.rust.clone(),
            qobject_ident: qobject_idents.cpp_class.rust.clone(),
        };
        let getter_impl = RustPropertyGetterImpl {
            qobject_ident: qobject_idents.cpp_class.rust.clone(),
            doc_property_name: property.ident.clone(),
            ident: idents.getter.rust.clone(),
            field: property.ident.clone(),
        };
        let setter_decl = RustPropertySetterDecl {
            cxx_name: idents.setter.cpp.clone(),
            ident: idents.setter.rust.clone(),
            qobject_ident: qobject_idents.cpp_class.rust.clone(),
            method_unsafe: ty_has_ptr(&property.ty),
            value_ty: property.ty.clone_ty(),
        };
        let mut body: Vec<SetterStmt> = Vec::new();
        body.push(SetterStmt::ReturnIfUnchanged);
        body.push(SetterStmt::AssignField);
        body.push(SetterStmt::EmitNotify);
        proof {
            assert(body@ =~= spec_setter_body());
        }
        let setter_impl = RustPropertySetterImpl {
            qobject_ident: qobject_idents.cpp_class.rust.clone(),
            doc_property_name: property.ident.clone(),
            ident: idents.setter.rust.clone(),
            field: property.ident.clone(),
            notify: idents.notify.rust.clone(),
            body,
        };

        // The synthesized notify signal, generated through the same signal
        // machinery as a declared signal.
        let mut notify_signals: Vec<ParsedSignal> = Vec::new();
        notify_signals.push(
            ParsedSignal {
                ident: CombinedIdent {
                    cpp: idents.notify.cpp.clone(),
                    rust: idents.notify.rust.clone(),
                },
                qobject_ident: qobject_idents.cpp_class.rust.clone(),
                mutable: true,
                parameters: Vec::new(),
                safe: true,
                inherit: false,
                attrs: Vec::new(),
            },
        );
        let mut notify_frags = generate_rust_signals(&notify_signals, qobject_idents);
        proof {
            let gsig = notify_signals@.map_values(|s: ParsedSignal| s@)[0];
            assert(gsig.parameters =~= Seq::<crate::parser::GParam>::empty());
            assert(gsig.attrs =~= Seq::<Seq<char>>::empty());
            assert(gsig =~= spec_notify_signal(gprops[i as int], gq));
        }
        let notify = notify_frags.remove(0);

        generated.push(
            RustPropertyFragment { getter_decl, getter_impl, setter_decl, setter_impl, notify },
        );
        i = i + 1;
    }
    generated
}

} // verus!
