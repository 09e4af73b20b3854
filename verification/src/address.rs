//! The order in which accounts are listed: ascending by the bytes of the
//! address's UTF-8 encoding.

use vstd::prelude::*;
use vstd::utf8::encode_utf8;
use vstd::utf8::encode_utf8_decode_utf8;

verus! {

/// How one address stands to another in the listing.
#[derive(Clone, Copy, Debug, PartialEq, Eq, Structural)]
pub enum Placement {
    Before,
    Same,
    After,
}

/// `a` and `b` agree on their first `k` bytes, and there `a` ends while `b`
/// goes on, or `a` holds the smaller byte.
pub open spec fn parts_at(a: Seq<u8>, b: Seq<u8>, k: int) -> bool {
    &&& 0 <= k <= a.len()
    &&& k < b.len()
    &&& forall|j: int| 0 <= j < k ==> a[j] == b[j]
    &&& k < a.len() ==> a[k] < b[k]
}

/// Lexicographic order on byte strings.
pub open spec fn bytes_lt(a: Seq<u8>, b: Seq<u8>) -> bool {
    exists|k: int| parts_at(a, b, k)
}

/// The listing order on addresses.
pub open spec fn addr_lt(a: Seq<char>, b: Seq<char>) -> bool {
    bytes_lt(encode_utf8(a), encode_utf8(b))
}

pub proof fn bytes_lt_irreflexive(a: Seq<u8>)
    ensures
        !bytes_lt(a, a),
{
}

pub proof fn bytes_lt_transitive(a: Seq<u8>, b: Seq<u8>, c: Seq<u8>)
    requires
        bytes_lt(a, b),
        bytes_lt(b, c),
    ensures
        bytes_lt(a, c),
{
    let k1 = choose|k: int| parts_at(a, b, k);
    let k2 = choose|k: int| parts_at(b, c, k);
    let k = if k1 <= k2 { k1 } else { k2 };
    assert(parts_at(a, c, k));
}

pub proof fn bytes_lt_total(a: Seq<u8>, b: Seq<u8>)
    ensures
        a == b || bytes_lt(a, b) || bytes_lt(b, a),
    decreases a.len(),
{
    if a.len() == 0 {
        if b.len() == 0 {
            assert(a =~= b);
        } else {
            assert(parts_at(a, b, 0));
        }
    } else if b.len() == 0 {
        assert(parts_at(b, a, 0));
    } else if a[0] < b[0] {
        assert(parts_at(a, b, 0));
    } else if b[0] < a[0] {
        assert(parts_at(b, a, 0));
    } else {
        let a1 = a.drop_first();
        let b1 = b.drop_first();
        bytes_lt_total(a1, b1);
        if a1 == b1 {
            assert(a =~= seq![a[0]] + a1);
            assert(b =~= seq![b[0]] + b1);
        } else if bytes_lt(a1, b1) {
            let k = choose|k: int| parts_at(a1, b1, k);
            assert forall|j: int| 0 <= j < k + 1 implies a[j] == b[j] by {
                if j > 0 {
                    assert(a1[j - 1] == b1[j - 1]);
                }
            }
            assert(k < a1.len() ==> a1[k] == a[k + 1] && b1[k] == b[k + 1]);
            assert(parts_at(a, b, k + 1));
        } else {
            let k = choose|k: int| parts_at(b1, a1, k);
            assert forall|j: int| 0 <= j < k + 1 implies b[j] == a[j] by {
                if j > 0 {
                    assert(a1[j - 1] == b1[j - 1]);
                }
            }
            assert(k < b1.len() ==> a1[k] == a[k + 1] && b1[k] == b[k + 1]);
            assert(parts_at(b, a, k + 1));
        }
    }
}

/// Two addresses with the same encoding are the same address.
pub proof fn encoding_injective(a: Seq<char>, b: Seq<char>)
    requires
        encode_utf8(a) == encode_utf8(b),
    ensures
        a == b,
{
    encode_utf8_decode_utf8(a);
    encode_utf8_decode_utf8(b);
}

/// The listing order is a strict total order.
pub proof fn addr_lt_irreflexive(a: Seq<char>)
    ensures
        !addr_lt(a, a),
{
    bytes_lt_irreflexive(encode_utf8(a));
}

pub proof fn addr_lt_transitive(a: Seq<char>, b: Seq<char>, c: Seq<char>)
    requires
        addr_lt(a, b),
        addr_lt(b, c),
    ensures
        addr_lt(a, c),
{
    bytes_lt_transitive(encode_utf8(a), encode_utf8(b), encode_utf8(c));
}

pub proof fn addr_lt_asymmetric(a: Seq<char>, b: Seq<char>)
    requires
        addr_lt(a, b),
    ensures
        !addr_lt(b, a),
        a != b,
{
    if addr_lt(b, a) {
        addr_lt_transitive(a, b, a);
    }
    addr_lt_irreflexive(a);
}

pub proof fn addr_lt_total(a: Seq<char>, b: Seq<char>)
    ensures
        a == b || addr_lt(a, b) || addr_lt(b, a),
{
    bytes_lt_total(encode_utf8(a), encode_utf8(b));
    if encode_utf8(a) == encode_utf8(b) {
        encoding_injective(a, b);
    }
}

/// Places `a` relative to `b` in the listing order.
pub fn place(a: &str, b: &str) -> (r: Placement)
    ensures
        r == Placement::Same <==> a@ == b@,
        r == Placement::Before <==> addr_lt(a@, b@),
        r == Placement::After <==> addr_lt(b@, a@),
{
    let x = a.as_bytes();
    let y = b.as_bytes();
    let n: usize = x.len();
    let m: usize = y.len();
    let mut i: usize = 0;
    while i < n && i < m
        invariant
            n == x@.len(),
            m == y@.len(),
            x@ == encode_utf8(a@),
            y@ == encode_utf8(b@),
            i <= n,
            i <= m,
            forall|j: int| 0 <= j < i ==> x@[j] == y@[j],
        decreases n - i,
    {
        if x[i] < y[i] {
            proof {
                assert(parts_at(x@, y@, i as int));
                addr_lt_asymmetric(a@, b@);
            }
            return Placement::Before;
        }
        if y[i] < x[i] {
            proof {
                assert(parts_at(y@, x@, i as int));
                addr_lt_asymmetric(b@, a@);
            }
            return Placement::After;
        }
        i += 1;
    }
    if n < m {
        proof {
            assert(parts_at(x@, y@, i as int));
            addr_lt_asymmetric(a@, b@);
        }
        Placement::Before
    } else if m < n {
        proof {
            assert(parts_at(y@, x@, i as int));
            addr_lt_asymmetric(b@, a@);
        }
        Placement::After
    } else {
        proof {
            assert(x@ =~= y@);
            encoding_injective(a@, b@);
            addr_lt_irreflexive(a@);
        }
        Placement::Same
    }
}

} // verus!
