//! The aspect ratios that monitors commonly have, and the search that snaps
//! a measured ratio to one of them.

use vstd::prelude::*;

verus! {

/// The common aspect ratios as numerator and denominator, the most common
/// first. The order is the order of preference of the search.
pub open spec fn catalog() -> Seq<(u32, u32)> {
    seq![
        (16u32, 9u32),
        (16u32, 10u32),
        (4u32, 3u32),
        (5u32, 4u32),
        (3u32, 2u32),
        (17u32, 9u32),
        (21u32, 9u32),
        (32u32, 9u32),
        (1u32, 1u32),
        (4u32, 1u32),
    ]
}

/// The common aspect ratios, in their order of preference.
pub fn common_aspect_ratios() -> (r: Vec<(u32, u32)>)
    ensures
        r@ == catalog(),
{
    let r = vec![
        (16u32, 9u32),
        (16u32, 10u32),
        (4u32, 3u32),
        (5u32, 4u32),
        (3u32, 2u32),
        (17u32, 9u32),
        (21u32, 9u32),
        (32u32, 9u32),
        (1u32, 1u32),
        (4u32, 1u32),
    ];
    assert(r@ =~= catalog());
    r
}

/// Whether entry `index` of the catalog is the one that a search with the
/// test `is_close` settles on: the test accepted it and turned down every
/// entry before it. An entry after it plays no part, however close.
pub open spec fn first_accepted<F: Fn(u32, u32) -> bool>(is_close: F, index: int) -> bool {
    &&& 0 <= index < catalog().len()
    &&& call_ensures(is_close, catalog()[index], true)
    &&& forall|j: int| 0 <= j < index ==> call_ensures(is_close, #[trigger] catalog()[j], false)
}

/// Whether the test `is_close` turned down every entry of the catalog.
pub open spec fn none_accepted<F: Fn(u32, u32) -> bool>(is_close: F) -> bool {
    forall|j: int|
        0 <= j < catalog().len() ==> call_ensures(is_close, #[trigger] catalog()[j], false)
}

/// Whether `pair` holds numerator and denominator of the entry that a search
/// with the test `is_close` settles on.
pub open spec fn settles_on<F: Fn(u32, u32) -> bool>(is_close: F, pair: [u32; 2]) -> bool {
    exists|i: int|
        first_accepted(is_close, i) && pair[0] == (#[trigger] catalog()[i]).0 && pair[1]
            == catalog()[i].1
}

/// Finds the common aspect ratio that stands for a measured one.
///
/// `is_close` is asked of the entries in their order, with numerator and
/// denominator, whether the measured ratio is close enough to the entry. The
/// first entry for which it says yes is returned, as `[numerator,
/// denominator]`, and no later entry is asked; `None` means that it
/// said no to all of them.
pub fn find_common_aspect_ratio<F: Fn(u32, u32) -> bool>(is_close: F) -> (r: Option<[u32; 2]>)
    requires
        forall|j: int| 0 <= j < catalog().len() ==> call_requires(is_close, #[trigger] catalog()[j]),
    ensures
        r is Some ==> settles_on(is_close, r.unwrap()),
        r is None ==> none_accepted(is_close),
{
    let ratios = common_aspect_ratios();
    let mut i: usize = 0;
    while i < ratios.len()
        invariant
            i <= ratios.len(),
            ratios@ == catalog(),
            forall|j: int| 0 <= j < catalog().len() ==> call_requires(is_close, #[trigger] catalog()[j]),
            forall|j: int| 0 <= j < i ==> call_ensures(is_close, #[trigger] catalog()[j], false),
        decreases ratios.len() - i,
    {
        let (numerator, denominator) = ratios[i];
        assert(catalog()[i as int] == (numerator, denominator));
        if is_close(numerator, denominator) {
            assert(first_accepted(is_close, i as int));
            return Some([numerator, denominator]);
        }
        i = i + 1;
    }
    None
}

} // verus!
