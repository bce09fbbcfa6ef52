//! Weighted authority lists and their place on the wire: a compact length,
//! then for each authority its 32-byte identity and its little-endian weight.

use crate::scale::{
    compact_u32, holds_at, lemma_compact_u32_unique, lemma_u64_le_injective, read_compact_u32,
    read_u64, u64_le, write_compact_u32, write_u64,
};
use vstd::prelude::*;

verus! {

/// Height of a block in the chain.
pub type BlockNumber = u32;

/// The public key that identifies one authority. The tracker never looks
/// inside it.
pub type AuthorityId = [u8; 32];

/// The voting weight of one authority.
pub type AuthorityWeight = u64;

/// Authorities in voting order, each with its weight.
pub type AuthorityList = Vec<(AuthorityId, AuthorityWeight)>;

/// The bytes that one weighted authority takes on the wire.
pub const AUTHORITY_WIRE_LEN: usize = 40;

/// The wire form of one weighted authority.
pub open spec fn authority_bytes(authority: (AuthorityId, AuthorityWeight)) -> Seq<u8> {
    authority.0@ + u64_le(authority.1)
}

/// The wire form of the authorities one after another, without a length.
pub open spec fn authority_items_bytes(list: Seq<(AuthorityId, AuthorityWeight)>) -> Seq<u8> {
    Seq::new(40 * list.len(), |i: int| authority_bytes(list[i / 40])[i % 40])
}

/// A list is encodable when its length fits the compact length prefix.
pub open spec fn encodable(list: Seq<(AuthorityId, AuthorityWeight)>) -> bool {
    list.len() <= u32::MAX
}

/// The wire form of an authority list.
pub open spec fn authorities_bytes(list: Seq<(AuthorityId, AuthorityWeight)>) -> Seq<u8> {
    compact_u32(list.len() as u32) + authority_items_bytes(list)
}

/// A pattern made of two parts stands at a position exactly when the first
/// part stands there and the second right behind it.
pub proof fn lemma_holds_at_concat(bytes: Seq<u8>, pos: int, first: Seq<u8>, second: Seq<u8>)
    ensures
        holds_at(bytes, pos, first + second) <==> holds_at(bytes, pos, first) && holds_at(
            bytes,
            pos + first.len(),
            second,
        ),
{
    let whole = first + second;
    if holds_at(bytes, pos, whole) {
        let w = bytes.subrange(pos, pos + whole.len());
        assert forall|i: int| 0 <= i < first.len() implies bytes.subrange(
            pos,
            pos + first.len(),
        )[i] == first[i] by {
            assert(w[i] == whole[i]);
        }
        assert forall|i: int| 0 <= i < second.len() implies bytes.subrange(
            pos + first.len(),
            pos + first.len() + second.len(),
        )[i] == second[i] by {
            assert(w[first.len() + i] == whole[first.len() + i]);
        }
    }
    if holds_at(bytes, pos, first) && holds_at(bytes, pos + first.len(), second) {
        let f = bytes.subrange(pos, pos + first.len());
        let s = bytes.subrange(pos + first.len(), pos + first.len() + second.len());
        assert forall|i: int| 0 <= i < whole.len() implies bytes.subrange(
            pos,
            pos + whole.len(),
        )[i] == whole[i] by {
            if i < first.len() {
                assert(f[i] == first[i]);
            } else {
                assert(s[i - first.len()] == second[i - first.len()]);
            }
        }
    }
}

/// Appending an authority to a list appends its wire form to the items.
pub proof fn lemma_authority_items_push(
    list: Seq<(AuthorityId, AuthorityWeight)>,
    authority: (AuthorityId, AuthorityWeight),
)
    ensures
        authority_items_bytes(list.push(authority)) == authority_items_bytes(list)
            + authority_bytes(authority),
{
    let longer = list.push(authority);
    let left = authority_items_bytes(longer);
    let right = authority_items_bytes(list) + authority_bytes(authority);
    assert(authority_bytes(authority).len() == 40);
    assert forall|i: int| 0 <= i < left.len() implies left[i] == right[i] by {
        if i < 40 * list.len() {
            assert(longer[i / 40] == list[i / 40]);
        } else {
            assert(i / 40 == list.len());
            assert(i % 40 == i - 40 * list.len());
        }
    }
    assert(left =~= right);
}

/// Two lists with the same items on the wire are the same list.
pub proof fn lemma_authority_items_injective(
    a: Seq<(AuthorityId, AuthorityWeight)>,
    b: Seq<(AuthorityId, AuthorityWeight)>,
)
    requires
        authority_items_bytes(a) == authority_items_bytes(b),
    ensures
        a == b,
{
    let wa = authority_items_bytes(a);
    let wb = authority_items_bytes(b);
    assert(wa.len() == 40 * a.len() && wb.len() == 40 * b.len());
    assert forall|i: int| 0 <= i < a.len() implies a[i] == b[i] by {
        let x = a[i];
        let y = b[i];
        assert forall|k: int| 0 <= k < 40 implies authority_bytes(x)[k] == authority_bytes(y)[k] by {
            let j = 40 * i + k;
            assert(j / 40 == i && j % 40 == k);
            assert(wa[j] == authority_bytes(x)[k]);
            assert(wb[j] == authority_bytes(y)[k]);
        }
        assert forall|k: int| 0 <= k < 32 implies x.0[k] == y.0[k] by {
            assert(authority_bytes(x)[k] == x.0@[k]);
            assert(authority_bytes(y)[k] == y.0@[k]);
        }
        assert(x.0 =~= y.0);
        assert forall|k: int| 0 <= k < 8 implies u64_le(x.1)[k] == u64_le(y.1)[k] by {
            assert(authority_bytes(x)[32 + k] == u64_le(x.1)[k]);
            assert(authority_bytes(y)[32 + k] == u64_le(y.1)[k]);
        }
        assert(u64_le(x.1) =~= u64_le(y.1));
        lemma_u64_le_injective(x.1, y.1);
    }
    assert(a =~= b);
}

/// At most one encodable authority list is encoded at a given position.
pub proof fn lemma_authorities_unique(
    bytes: Seq<u8>,
    pos: int,
    a: Seq<(AuthorityId, AuthorityWeight)>,
    b: Seq<(AuthorityId, AuthorityWeight)>,
)
    requires
        encodable(a),
        encodable(b),
        holds_at(bytes, pos, authorities_bytes(a)),
        holds_at(bytes, pos, authorities_bytes(b)),
    ensures
        a == b,
{
    let pa = compact_u32(a.len() as u32);
    let pb = compact_u32(b.len() as u32);
    lemma_holds_at_concat(bytes, pos, pa, authority_items_bytes(a));
    lemma_holds_at_concat(bytes, pos, pb, authority_items_bytes(b));
    lemma_compact_u32_unique(bytes, pos, a.len() as u32, b.len() as u32);
    assert(authority_items_bytes(a) =~= authority_items_bytes(b));
    lemma_authority_items_injective(a, b);
}

/// Whether `list` is encodable.
pub fn is_encodable(list: &AuthorityList) -> (r: bool)
    ensures
        r == encodable(list@),
{
    list.len() <= 0xffff_ffff
}

/// Appends the wire form of `list`.
pub fn write_authorities(list: &AuthorityList, out: &mut Vec<u8>)
    requires
        encodable(list@),
    ensures
        final(out)@ == old(out)@ + authorities_bytes(list@),
{
    let count: usize = list.len();
    write_compact_u32(count as u32, out);
    let ghost head = out@;
    let mut i: usize = 0;
    while i < count
        invariant
            i <= count,
            count == list@.len(),
            out@ == head + authority_items_bytes(list@.take(i as int)),
        decreases count - i,
    {
        let ghost before = out@;
        let id: &AuthorityId = &list[i].0;
        let weight: AuthorityWeight = list[i].1;
        let mut k: usize = 0;
        while k < 32
            invariant
                k <= 32,
                id@.len() == 32,
                out@ == before + id@.take(k as int),
            decreases 32 - k,
        {
            out.push(id[k]);
            k += 1;
            assert(out@ =~= before + id@.take(k as int));
        }
        write_u64(weight, out);
        proof {
            let item = list@[i as int];
            assert(id@.take(32) =~= id@);
            assert(out@ =~= before + authority_bytes(item));
            lemma_authority_items_push(list@.take(i as int), item);
            assert(list@.take(i + 1) =~= list@.take(i as int).push(item));
        }
        i += 1;
    }
    proof {
        assert(list@.take(count as int) =~= list@);
        assert(out@ =~= old(out)@ + authorities_bytes(list@));
    }
}

/// Reads the authority list at `pos` and says where the next item begins.
pub fn read_authorities(input: &[u8], pos: usize) -> (r: Option<(AuthorityList, usize)>)
    ensures
        match r {
            Some((list, next)) => {
                &&& encodable(list@)
                &&& holds_at(input@, pos as int, authorities_bytes(list@))
                &&& next == pos + authorities_bytes(list@).len()
            },
            None => forall|list: Seq<(AuthorityId, AuthorityWeight)>|
                encodable(list) ==> !holds_at(input@, pos as int, #[trigger] authorities_bytes(list)),
        },
{
    proof {
        assert forall|list: Seq<(AuthorityId, AuthorityWeight)>| #[trigger]
            holds_at(input@, pos as int, authorities_bytes(list)) implies holds_at(
            input@,
            pos as int,
            compact_u32(list.len() as u32),
        ) && holds_at(
            input@,
            pos + compact_u32(list.len() as u32).len(),
            authority_items_bytes(list),
        ) by {
            lemma_holds_at_concat(
                input@,
                pos as int,
                compact_u32(list.len() as u32),
                authority_items_bytes(list),
            );
        }
    }
    let (count, start): (u32, usize) = match read_compact_u32(input, pos) {
        Some(found) => found,
        None => {
            return None;
        },
    };
    let available: usize = input.len() - start;
    if count as usize > available / AUTHORITY_WIRE_LEN {
        proof {
            assert forall|list: Seq<(AuthorityId, AuthorityWeight)>|
                encodable(list) implies !holds_at(
                input@,
                pos as int,
                #[trigger] authorities_bytes(list),
            ) by {
                if holds_at(input@, pos as int, authorities_bytes(list)) {
                    lemma_compact_u32_unique(input@, pos as int, list.len() as u32, count);
                }
            }
        }
        return None;
    }
    let mut list: AuthorityList = Vec::new();
    let mut i: usize = 0;
    while i < count as usize
        invariant
            i <= count,
            list@.len() == i,
            start + 40 * count <= input@.len() <= usize::MAX,
            holds_at(input@, start as int, authority_items_bytes(list@)),
        decreases count - i,
    {
        let at: usize = start + AUTHORITY_WIRE_LEN * i;
        let mut id: AuthorityId = [0u8; 32];
        let mut k: usize = 0;
        while k < 32
            invariant
                k <= 32,
                at + 40 <= input@.len() <= usize::MAX,
                forall|j: int| 0 <= j < k ==> id@[j] == input@[at + j],
            decreases 32 - k,
        {
            id[k] = input[at + k];
            k += 1;
        }
        let weight: AuthorityWeight = match read_u64(input, at + 32) {
            Some(weight) => weight,
            None => {
                return None;
            },
        };
        proof {
            let item = (id, weight);
            assert(holds_at(input@, at as int, id@));
            lemma_holds_at_concat(input@, at as int, id@, u64_le(weight));
            lemma_authority_items_push(list@, item);
            lemma_holds_at_concat(
                input@,
                start as int,
                authority_items_bytes(list@),
                authority_bytes(item),
            );
        }
        list.push((id, weight));
        i += 1;
    }
    proof {
        lemma_holds_at_concat(
            input@,
            pos as int,
            compact_u32(count),
            authority_items_bytes(list@),
        );
    }
    Some((list, start + AUTHORITY_WIRE_LEN * count as usize))
}

} // verus!
