//! The structured intermediate representation of an annotated object's
//! members, as the structuring layer hands it to the fragment generators.

use vstd::prelude::*;

use crate::ty::{GTy, RustType};

verus! {

/// One declared parameter of a signal or an invokable method.
#[derive(PartialEq, Eq, Debug)]
pub struct ParsedFunctionParameter {
    /// The parameter's name.
    pub ident: String,
    /// The parameter's declared type.
    pub ty: RustType,
}

/// Mathematical model of a parameter.
#[verifier::ext_equal]
pub struct GParam {
    pub ident: Seq<char>,
    pub ty: GTy,
}

impl View for ParsedFunctionParameter {
    type V = GParam;

    open spec fn view(&self) -> GParam {
        GParam { ident: self.ident@, ty: self.ty@ }
    }
}

/// One signal of an object.
#[derive(PartialEq, Eq, Debug)]
pub struct ParsedSignal {
    /// The signal's name, in its native and bridge-side spellings.
    pub ident: crate::naming::CombinedIdent,
    /// The object the signal belongs to.
    pub qobject_ident: String,
    /// Whether the implicit receiver is mutable.
    pub mutable: bool,
    /// The declared parameters, in source order.
    pub parameters: Vec<ParsedFunctionParameter>,
    /// Whether the native call needs no unsafety acknowledgement.
    pub safe: bool,
    /// Whether the signal declares an existing native signal instead of
    /// defining a new one.
    pub inherit: bool,
    /// The passthrough attributes on the declaration, re-emitted unchanged.
    pub attrs: Vec<String>,
}

/// Mathematical model of a signal.
#[verifier::ext_equal]
pub struct GSignal {
    pub cpp: Seq<char>,
    pub rust: Seq<char>,
    pub qobject_ident: Seq<char>,
    pub mutable: bool,
    pub parameters: Seq<GParam>,
    pub safe: bool,
    pub inherit: bool,
    pub attrs: Seq<Seq<char>>,
}

impl View for ParsedSignal {
    type V = GSignal;

    open spec fn view(&self) -> GSignal {
        GSignal {
            cpp: self.ident.cpp@,
            rust: self.ident.rust@,
            qobject_ident: self.qobject_ident@,
            mutable: self.mutable,
            parameters: self.parameters@.map_values(|p: ParsedFunctionParameter| p@),
            safe: self.safe,
            inherit: self.inherit,
            attrs: self.attrs@.map_values(|a: String| a@),
        }
    }
}

/// An exact copy of a parameter list, for a fragment that keeps its own.
#[verifier::loop_isolation(false)]
pub fn clone_params(params: &Vec<ParsedFunctionParameter>) -> (r: Vec<ParsedFunctionParameter>)
    ensures
        r@.map_values(|p: ParsedFunctionParameter| p@) == params@.map_values(
            |p: ParsedFunctionParameter| p@,
        ),
{
    let ghost gps = params@.map_values(|p: ParsedFunctionParameter| p@);
    let mut out: Vec<ParsedFunctionParameter> = Vec::new();
    proof {
        assert(out@.map_values(|p: ParsedFunctionParameter| p@) =~= gps.subrange(0, 0));
    }
    let mut i: usize = 0;
    while i < params.len()
        invariant
            0 <= i <= params@.len(),
            out@.map_values(|p: ParsedFunctionParameter| p@) == gps.subrange(0, i as int),
        decreases params@.len() - i,
    {
        let p = &params[i];
        out.push(ParsedFunctionParameter { ident: p.ident.clone(), ty: p.ty.clone_ty() });
        proof {
            assert(out@.map_values(|p: ParsedFunctionParameter| p@) =~= gps.subrange(
                0,
                i + 1int,
            ));
        }
        i = i + 1;
    }
    proof {
        assert(gps.subrange(0, gps.len() as int) =~= gps);
    }
    out
}

/// One property of an object, extracted from the object's field attributes.
#[derive(PartialEq, Eq, Debug)]
pub struct ParsedQProperty {
    /// The property's canonical snake-case name.
    pub ident: String,
    /// The property's declared type.
    pub ty: RustType,
}

/// Mathematical model of a property.
#[verifier::ext_equal]
pub struct GProperty {
    pub ident: Seq<char>,
    pub ty: GTy,
}

impl View for ParsedQProperty {
    type V = GProperty;

    open spec fn view(&self) -> GProperty {
        GProperty { ident: self.ident@, ty: self.ty@ }
    }
}

} // verus!
