//! The textual fragments that the native-side generators produce: either a
//! header-only declaration or a declaration/definition pair.

use vstd::prelude::*;

verus! {

/// One native-side fragment.
#[derive(PartialEq, Eq, Debug)]
pub enum CppFragment {
    /// A fragment with only a header declaration.
    Header(String),
    /// A fragment with a header declaration and an out-of-line definition.
    Pair { header: String, source: String },
}

/// Mathematical model of one native-side fragment.
#[verifier::ext_equal]
pub enum GCppFragment {
    Header(Seq<char>),
    Pair { header: Seq<char>, source: Seq<char> },
}

impl View for CppFragment {
    type V = GCppFragment;

    open spec fn view(&self) -> GCppFragment {
        match self {
            CppFragment::Header(h) => GCppFragment::Header(h@),
            CppFragment::Pair { header, source } => GCppFragment::Pair {
                header: header@,
                source: source@,
            },
        }
    }
}

/// The native-side blocks generated for one object.
#[derive(PartialEq, Eq, Debug)]
pub struct GeneratedCppQObjectBlocks {
    /// The generated member fragments, in declaration order.
    pub methods: Vec<CppFragment>,
}

impl GeneratedCppQObjectBlocks {
    /// No blocks yet.
    pub fn new() -> (r: GeneratedCppQObjectBlocks)
        ensures
            r.methods@.len() == 0,
    {
        GeneratedCppQObjectBlocks { methods: Vec::new() }
    }
}

} // verus!
