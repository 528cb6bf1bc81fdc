//! The metadata that a buffer carries along.
use vstd::prelude::*;

verus! {

/// The kind of a metadata record.
#[derive(Clone, Copy, Debug, PartialEq, Eq, Structural)]
pub enum MetaType {
    /// The header, which holds the presentation time.
    Header,
    /// Any other record, by its code.
    Other(u32),
}

/// `i` is the place of the first header among `metas`.
pub open spec fn is_first_header(metas: Seq<MetaType>, i: int) -> bool {
    &&& 0 <= i < metas.len()
    &&& metas[i] == MetaType::Header
    &&& forall|j: int| 0 <= j < i ==> metas[j] != MetaType::Header
}

/// The presentation time of a buffer: that of the first header among its metadata
/// records, or zero where there is none. `pts` reads the presentation time of the record
/// at a given place, and is asked for no record but that one.
pub fn get_timestamp<F: Fn(usize) -> i64>(metas: &[MetaType], pts: F) -> (timestamp: i64)
    requires
        forall|i: usize|
            is_first_header(metas@, i as int) ==> #[trigger] call_requires(pts, (i,)),
    ensures
        forall|i: usize|
            #[trigger] is_first_header(metas@, i as int) ==> call_ensures(pts, (i,), timestamp),
        forall|i: usize|
            i < metas@.len() && #[trigger] metas@[i as int] is Header && (forall|j: int|
                0 <= j < i ==> metas@[j] !is Header) ==> call_ensures(pts, (i,), timestamp),
        !metas@.contains(MetaType::Header) ==> timestamp == 0,
        (forall|j: int| 0 <= j < metas@.len() ==> metas@[j] !is Header) ==> timestamp == 0,
{
    let mut i: usize = 0;
    while i < metas.len()
        invariant
            i <= metas@.len(),
            forall|j: int| 0 <= j < i ==> metas@[j] != MetaType::Header,
            forall|k: usize|
                is_first_header(metas@, k as int) ==> #[trigger] call_requires(pts, (k,)),
        decreases metas@.len() - i,
    {
        if metas[i] == MetaType::Header {
            assert(metas@.contains(MetaType::Header));
            assert(is_first_header(metas@, i as int));
            let timestamp: i64 = pts(i);
            assert forall|k: usize| is_first_header(metas@, k as int) implies k == i by {
                if k < i {
                    assert(metas@[k as int] != MetaType::Header);
                }
                if i < k {
                    assert(metas@[i as int] == MetaType::Header);
                }
            }
            return timestamp;
        }
        i = i + 1;
    }
    0
}

/// The first header is a header with none before it, there is one wherever there is a
/// header at all, and only one.
pub proof fn law_first_header(metas: Seq<MetaType>, i: int, k: int)
    ensures
        is_first_header(metas, i) <==> 0 <= i < metas.len() && metas[i] is Header && !metas.take(
            i,
        ).contains(MetaType::Header),
        metas.contains(MetaType::Header) <==> exists|j: int| is_first_header(metas, j),
        is_first_header(metas, i) && is_first_header(metas, k) ==> i == k,
{
    if 0 <= i < metas.len() {
        assert forall|j: int| 0 <= j < i implies metas.take(i)[j] == metas[j] by {}
        if !metas.take(i).contains(MetaType::Header) {
            assert forall|j: int| 0 <= j < i implies metas[j] != MetaType::Header by {
                assert(metas.take(i)[j] == metas[j]);
            }
        }
    }
    if metas.contains(MetaType::Header) {
        lemma_first_header_exists(metas, metas.index_of(MetaType::Header));
    }
    if is_first_header(metas, i) && is_first_header(metas, k) {
        if i < k {
            assert(metas[i] != MetaType::Header);
        }
        if k < i {
            assert(metas[k] != MetaType::Header);
        }
    }
}

/// A header has a first header at or before it.
proof fn lemma_first_header_exists(metas: Seq<MetaType>, k: int)
    requires
        0 <= k < metas.len(),
        metas[k] == MetaType::Header,
    ensures
        exists|j: int| is_first_header(metas, j),
    decreases k,
{
    if !is_first_header(metas, k) {
        let j = choose|j: int| 0 <= j < k && metas[j] == MetaType::Header;
        lemma_first_header_exists(metas, j);
    }
}

/// Records that follow the first header do not bear on it, and a record of another type
/// before it moves it by one place.
pub proof fn law_first_header_among_others(
    metas: Seq<MetaType>,
    i: int,
    code: u32,
    more: Seq<MetaType>,
)
    requires
        is_first_header(metas, i),
    ensures
        is_first_header(metas + more, i),
        is_first_header(seq![MetaType::Other(code)] + metas, i + 1),
        is_first_header(seq![MetaType::Header] + metas, 0),
{
    let after = seq![MetaType::Other(code)] + metas;
    assert(after[i + 1] == metas[i]);
    assert forall|j: int| 0 <= j < i + 1 implies after[j] != MetaType::Header by {
        if j > 0 {
            assert(after[j] == metas[j - 1]);
        }
    }
}

} // verus!
