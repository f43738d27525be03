use vstd::prelude::*;

verus! {

/// The variant of a type as the Rust grammar writes it.
#[derive(PartialEq, Eq, Structural, Clone, Copy, Debug)]
pub enum TypeKind {
    /// `[T; n]`
    Array,
    /// `fn(A, B) -> C`
    BareFn,
    /// A type in an invisible group, as macros produce.
    Group,
    /// `impl Bound`
    ImplTrait,
    /// `_`
    Infer,
    /// A macro in type position.
    Macro,
    /// `!`
    Never,
    /// `(T)`
    Paren,
    /// A path such as `u16` or `Vec<T>`.
    Path,
    /// `*const T` or `*mut T`
    Ptr,
    /// `&T` or `&mut T`
    Reference,
    /// `[T]`
    Slice,
    /// `dyn Trait`, or a bare trait in old editions.
    TraitObject,
    /// `(A, B)`
    Tuple,
    /// Tokens that were not parsed as a type.
    Verbatim,
}

/// The shape of the target type of a cast: its kind, and the types that it
/// holds directly (element types, generic arguments, parameter types, ...),
/// in the order in which they are written.
pub struct TypeTree {
    pub kind: TypeKind,
    pub children: Vec<TypeTree>,
}

/// Whether a trait object occurs anywhere in the types `s`.
pub open spec fn spec_any_trait_object(s: Seq<TypeTree>) -> bool
    decreases s,
{
    if s.len() == 0 {
        false
    } else {
        let last = s.last();
        proof {
            assert(decreases_to!(s => s[s.len() - 1]));
            assert(decreases_to!(s => s.subrange(0, s.len() - 1)));
        }
        ||| last.kind == TypeKind::TraitObject
        ||| spec_any_trait_object(last.children@)
        ||| spec_any_trait_object(s.drop_last())
    }
}

/// Whether a trait object occurs anywhere in `t`, `t` itself included.
pub open spec fn spec_contains_trait_object(t: TypeTree) -> bool {
    t.kind == TypeKind::TraitObject || spec_any_trait_object(t.children@)
}

/// A trait object occurs among the types `s` exactly when it occurs in one of them.
pub proof fn lemma_any_trait_object_iff_some(s: Seq<TypeTree>)
    ensures
        spec_any_trait_object(s) <==> exists|i: int|
            0 <= i < s.len() && #[trigger] spec_contains_trait_object(s[i]),
    decreases s.len(),
{
    if s.len() > 0 {
        let init = s.drop_last();
        lemma_any_trait_object_iff_some(init);
        if spec_any_trait_object(init) {
            let i = choose|i: int| 0 <= i < init.len() && #[trigger] spec_contains_trait_object(init[i]);
            assert(s[i] == init[i]);
        }
        if spec_contains_trait_object(s.last()) {
            assert(spec_contains_trait_object(s[s.len() - 1]));
        }
        assert forall|i: int| 0 <= i < s.len() && #[trigger] spec_contains_trait_object(s[i])
            implies spec_any_trait_object(s) by {
            if i < s.len() - 1 {
                assert(init[i] == s[i]);
            }
        }
    }
}

/// A type holds a trait object exactly when it is one itself, whatever it
/// holds, or when one of the types that it holds directly holds one.
pub proof fn lemma_contains_trait_object_iff(t: TypeTree)
    ensures
        spec_contains_trait_object(t) <==> (t.kind == TypeKind::TraitObject || exists|i: int|
            0 <= i < t.children.len() && #[trigger] spec_contains_trait_object(t.children@[i])),
        t.kind == TypeKind::TraitObject ==> spec_contains_trait_object(t),
{
    lemma_any_trait_object_iff_some(t.children@);
}

/// A type in which no node is a trait object holds none: a leaf other than a
/// trait object holds none.
pub proof fn lemma_leaf_without_trait_object(t: TypeTree)
    requires
        t.kind != TypeKind::TraitObject,
        t.children.len() == 0,
    ensures
        !spec_contains_trait_object(t),
{
    lemma_contains_trait_object_iff(t);
}

/// Whether a trait object occurs anywhere in `ty`; casts to such types are
/// left unchecked.
pub fn contains_trait_object(ty: &TypeTree) -> (res: bool)
    ensures
        res == spec_contains_trait_object(*ty),
        ty.kind == TypeKind::TraitObject ==> res,
        res == (ty.kind == TypeKind::TraitObject || exists|i: int|
            0 <= i < ty.children.len() && #[trigger] spec_contains_trait_object(ty.children@[i])),
    decreases ty,
{
    if ty.kind == TypeKind::TraitObject {
        return true;
    }
    let mut i: usize = 0;
    while i < ty.children.len()
        invariant
            i <= ty.children.len(),
            !spec_any_trait_object(ty.children@.subrange(0, i as int)),
        decreases ty.children.len() - i,
    {
        let ghost prefix = ty.children@.subrange(0, i as int);
        let ghost next = ty.children@.subrange(0, i + 1);
        assert(next.drop_last() =~= prefix);
        assert(next.last() == ty.children@[i as int]);
        if contains_trait_object(&ty.children[i]) {
            proof {
                lemma_contains_trait_object_iff(*ty);
                assert(spec_contains_trait_object(ty.children@[i as int]));
            }
            return true;
        }
        i = i + 1;
    }
    assert(ty.children@.subrange(0, i as int) =~= ty.children@);
    proof {
        lemma_contains_trait_object_iff(*ty);
    }
    false
}

/// Whether casts are checked at all: in debug builds, and in release builds
/// with the `release` feature.
pub open spec fn spec_checks_active(debug_assertions: bool, release_feature: bool) -> bool {
    debug_assertions || release_feature
}

/// Whether a cast to `target` is checked, given how the crate is built.
pub open spec fn spec_should_check_cast(
    debug_assertions: bool,
    release_feature: bool,
    target: TypeTree,
) -> bool {
    &&& spec_checks_active(debug_assertions, release_feature)
    &&& target.kind != TypeKind::Infer
    &&& !spec_contains_trait_object(target)
}

/// Whether a cast to `target` is rewritten into a checked conversion: casts
/// are checked only where checks are active, and a cast to an inferred type
/// (`as _`) or to a type that holds a trait object is left as it is.
pub fn should_check_cast(debug_assertions: bool, release_feature: bool, target: &TypeTree) -> (res:
    bool)
    ensures
        res == spec_should_check_cast(debug_assertions, release_feature, *target),
        target.kind == TypeKind::Infer ==> !res,
        target.kind == TypeKind::TraitObject ==> !res,
        !debug_assertions && !release_feature ==> !res,
        forall|i: int|
            0 <= i < target.children.len() && #[trigger] spec_contains_trait_object(
                target.children@[i],
            ) ==> !res,
        res == ((debug_assertions || release_feature) && target.kind != TypeKind::Infer
            && target.kind != TypeKind::TraitObject && forall|i: int|
            0 <= i < target.children.len() ==> !#[trigger] spec_contains_trait_object(
                target.children@[i],
            )),
{
    proof {
        lemma_contains_trait_object_iff(*target);
    }
    if !(debug_assertions || release_feature) {
        return false;
    }
    if target.kind == TypeKind::Infer {
        return false;
    }
    !contains_trait_object(target)
}

/// A type that holds, at any depth, a type with a trait object holds a trait
/// object itself: so a cast to `Box<dyn Trait>`, `&dyn Trait`,
/// `Vec<Box<dyn Trait>>` and the like is never checked, in any build.
pub proof fn lemma_trait_object_holder_unchecked(
    holder: TypeTree,
    i: int,
    debug_assertions: bool,
    release_feature: bool,
)
    requires
        0 <= i < holder.children.len(),
        spec_contains_trait_object(holder.children@[i]),
    ensures
        spec_contains_trait_object(holder),
        !spec_should_check_cast(debug_assertions, release_feature, holder),
{
    lemma_any_trait_object_iff_some(holder.children@);
}

/// A cast to `_` is never checked, in any build.
pub proof fn lemma_inferred_target_unchecked(
    debug_assertions: bool,
    release_feature: bool,
    target: TypeTree,
)
    requires
        target.kind == TypeKind::Infer,
    ensures
        !spec_should_check_cast(debug_assertions, release_feature, target),
{
}

/// A cast to a trait object is never checked, whatever the trait object holds.
pub proof fn lemma_trait_object_target_unchecked(
    debug_assertions: bool,
    release_feature: bool,
    target: TypeTree,
)
    requires
        target.kind == TypeKind::TraitObject,
    ensures
        spec_contains_trait_object(target),
        !spec_should_check_cast(debug_assertions, release_feature, target),
{
    lemma_contains_trait_object_iff(target);
}

/// A cast to a plain leaf type (a path without arguments, `!`, ...) is checked
/// exactly where checks are active.
pub proof fn lemma_plain_leaf_checked(debug_assertions: bool, release_feature: bool, target: TypeTree)
    requires
        target.kind != TypeKind::Infer,
        target.kind != TypeKind::TraitObject,
        target.children.len() == 0,
    ensures
        spec_should_check_cast(debug_assertions, release_feature, target) == (debug_assertions
            || release_feature),
{
    lemma_leaf_without_trait_object(target);
}

/// Outside debug builds and without the `release` feature no cast is checked;
/// otherwise every cast to a type other than `_` that holds no trait object is.
pub proof fn lemma_checked_exactly_where_active(
    debug_assertions: bool,
    release_feature: bool,
    target: TypeTree,
)
    ensures
        !debug_assertions && !release_feature ==> !spec_should_check_cast(
            debug_assertions,
            release_feature,
            target,
        ),
        (debug_assertions || release_feature) && target.kind != TypeKind::Infer
            && !spec_contains_trait_object(target) ==> spec_should_check_cast(
            debug_assertions,
            release_feature,
            target,
        ),
{
}

} // verus!
