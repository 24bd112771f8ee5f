//! Enumerations with stable names: the name of each variant is what presets
//! and front-ends store, so it identifies the variant for good.

use vstd::prelude::*;

verus! {

/// An enumeration whose variants have stable, distinct names.
pub trait NamedVariants: Sized + Copy {
    /// The name of a variant.
    spec fn spec_name(self) -> Seq<char>;

    /// All variants, in declaration order.
    spec fn spec_variants() -> Seq<Self>;

    /// No two variants share a name.
    proof fn lemma_names_identify(a: Self, b: Self)
        ensures
            a.spec_name() == b.spec_name() ==> a == b,
    ;

    /// Every variant is listed.
    proof fn lemma_variants_complete(v: Self)
        ensures
            Self::spec_variants().contains(v),
    ;

    fn name(self) -> (r: &'static str)
        ensures
            r@ == self.spec_name(),
    ;

    fn variants() -> (r: Vec<Self>)
        ensures
            r@ == Self::spec_variants(),
    ;
}

/// Whether two strings hold the same characters.
pub fn same_text(a: &str, b: &str) -> (r: bool)
    ensures
        r == (a@ == b@),
{
    let a_bytes = a.as_bytes();
    let b_bytes = b.as_bytes();
    proof {
        vstd::utf8::encode_utf8_decode_utf8(a@);
        vstd::utf8::encode_utf8_decode_utf8(b@);
    }
    if a_bytes.len() != b_bytes.len() {
        return false;
    }
    let mut i: usize = 0;
    while i < a_bytes.len()
        invariant
            i <= a_bytes@.len(),
            a_bytes@.len() == b_bytes@.len(),
            a_bytes@ == vstd::utf8::encode_utf8(a@),
            b_bytes@ == vstd::utf8::encode_utf8(b@),
            vstd::utf8::decode_utf8(vstd::utf8::encode_utf8(a@)) == a@,
            vstd::utf8::decode_utf8(vstd::utf8::encode_utf8(b@)) == b@,
            forall|j: int| 0 <= j < i ==> a_bytes@[j] == b_bytes@[j],
        decreases a_bytes@.len() - i,
    {
        if a_bytes[i] != b_bytes[i] {
            return false;
        }
        i = i + 1;
    }
    assert(a_bytes@ =~= b_bytes@);
    true
}

/// The variant with the given name, if there is one.
pub open spec fn spec_from_name<T: NamedVariants>(name: Seq<char>) -> Option<T> {
    if exists|v: T| #[trigger] v.spec_name() == name {
        Some(choose|v: T| #[trigger] v.spec_name() == name)
    } else {
        None
    }
}

/// A variant is found from a name exactly when the name is its own.
pub proof fn lemma_from_name<T: NamedVariants>(name: Seq<char>, v: T)
    ensures
        spec_from_name::<T>(name) == Some(v) <==> v.spec_name() == name,
        spec_from_name::<T>(v.spec_name()) == Some(v),
{
    if v.spec_name() == name {
        let found = choose|w: T| #[trigger] w.spec_name() == name;
        T::lemma_names_identify(found, v);
    }
    if spec_from_name::<T>(v.spec_name()) is Some {
        let found = choose|w: T| #[trigger] w.spec_name() == v.spec_name();
        T::lemma_names_identify(found, v);
    }
}

/// Exec counterpart of [`spec_from_name`].
pub fn from_name<T: NamedVariants>(name: &str) -> (r: Option<T>)
    ensures
        r == spec_from_name::<T>(name@),
{
    let all = T::variants();
    let mut i: usize = 0;
    while i < all.len()
        invariant
            i <= all@.len(),
            all@ == T::spec_variants(),
            forall|j: int| 0 <= j < i ==> (#[trigger] all@[j]).spec_name() != name@,
        decreases all@.len() - i,
    {
        let candidate = all[i];
        if same_text(candidate.name(), name) {
            proof {
                lemma_from_name::<T>(name@, candidate);
            }
            return Some(candidate);
        }
        i = i + 1;
    }
    proof {
        assert forall|v: T| #[trigger] v.spec_name() != name@ by {
            T::lemma_variants_complete(v);
            let j = choose|j: int| 0 <= j < all@.len() && all@[j] == v;
            assert(all@[j].spec_name() != name@);
        }
    }
    None
}

} // verus!
