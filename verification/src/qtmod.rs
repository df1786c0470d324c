//! Structuring of a bridge module's item list: the extra foreign blocks
//! that carry the runtime's own declarations are recognized, counted and
//! taken out; every other item stays, in order.

use vstd::prelude::*;

verus! {

/// One item of a bridge module, reduced to what structuring reads.
#[derive(PartialEq, Eq, Debug)]
pub enum ModItem {
    /// A foreign block of the runtime's own dialect; its contents produce
    /// no ordinary item.
    ExternQt(String),
    /// Any other item, carried as its source text.
    Other(String),
}

/// Mathematical model of a module item.
#[verifier::ext_equal]
pub enum GModItem {
    ExternQt(Seq<char>),
    Other(Seq<char>),
}

impl View for ModItem {
    type V = GModItem;

    open spec fn view(&self) -> GModItem {
        match self {
            ModItem::ExternQt(s) => GModItem::ExternQt(s@),
            ModItem::Other(s) => GModItem::Other(s@),
        }
    }
}

/// A bridge module after structuring: the ordinary items, and the count of
/// the runtime's own foreign blocks that were taken out.
#[derive(PartialEq, Eq, Debug)]
pub struct CxxQtItemMod {
    /// The module's identifier.
    pub ident: String,
    /// Whether the module is declared with public visibility.
    pub vis_public: bool,
    /// The ordinary items, in source order; `None` for a module without a
    /// body.
    pub content: Option<Vec<String>>,
    /// How many of the runtime's own foreign blocks were taken out.
    pub extra: usize,
}

/// The number of the runtime's own foreign blocks from `i` on.
pub open spec fn spec_count_qt(items: Seq<GModItem>, i: int) -> int
    decreases items.len() - i
        when 0 <= i <= items.len()
{
    if i == items.len() {
        0
    } else if items[i] is ExternQt {
        1 + spec_count_qt(items, i + 1)
    } else {
        spec_count_qt(items, i + 1)
    }
}

/// The ordinary items from `i` on, appended to `acc`, in source order.
pub open spec fn spec_other_items(items: Seq<GModItem>, i: int, acc: Seq<Seq<char>>) -> Seq<
    Seq<char>,
>
    decreases items.len() - i
        when 0 <= i <= items.len()
{
    if i == items.len() {
        acc
    } else {
        match items[i] {
            GModItem::ExternQt(_) => spec_other_items(items, i + 1, acc),
            GModItem::Other(s) => spec_other_items(items, i + 1, acc.push(s)),
        }
    }
}

/// Structure a bridge module: a module without a body keeps none, and in a
/// module with a body each foreign block of the runtime's own dialect is
/// taken out and counted while every other item stays, in order.
#[verifier::loop_isolation(false)]
pub fn parse_mod(ident: String, vis_public: bool, body: Option<Vec<ModItem>>) -> (r: CxxQtItemMod)
    ensures
        r.ident@ == ident@,
        r.vis_public == vis_public,
        match body {
            Option::None => r.content is None && r.extra == 0,
            Option::Some(items) => {
                let gitems = items@.map_values(|it: ModItem| it@);
                &&& r.content is Some
                &&& r.content->0@.map_values(|s: String| s@) == spec_other_items(
                    gitems,
                    0,
                    Seq::empty(),
                )
                &&& r.extra == spec_count_qt(gitems, 0)
            },
        },
{
    match body {
        Option::None => CxxQtItemMod { ident, vis_public, content: Option::None, extra: 0 },
        Option::Some(items) => {
            let ghost gitems = items@.map_values(|it: ModItem| it@);
            let mut kept: Vec<String> = Vec::new();
            let mut extra: usize = 0;
            proof {
                assert(kept@.map_values(|s: String| s@) =~= Seq::<Seq<char>>::empty());
            }
            let mut i: usize = 0;
            while i < items.len()
                invariant
                    0 <= i <= items@.len(),
                    extra <= i,
                    spec_count_qt(gitems, 0) == extra + spec_count_qt(gitems, i as int),
                    spec_other_items(gitems, 0, Seq::empty()) == spec_other_items(
                        gitems,
                        i as int,
                        kept@.map_values(|s: String| s@),
                    ),
                decreases items@.len() - i,
            {
                match &items[i] {
                    ModItem::ExternQt(_) => {
                        extra = extra + 1;
                    },
                    ModItem::Other(s) => {
                        let ghost kept0 = kept@.map_values(|s: String| s@);
                        kept.push(s.clone());
                        proof {
                            assert(kept@.map_values(|s: String| s@) =~= kept0.push(
                                kept@.last()@,
                            ));
                        }
                    },
                }
                i = i + 1;
            }
            CxxQtItemMod { ident, vis_public, content: Option::Some(kept), extra }
        },
    }
}

} // verus!
