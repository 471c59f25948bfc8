//! Internet Computer principals, held as plain bytes.
use vstd::prelude::*;

verus! {

/// The most significant bytes a principal can have.
pub const MAX_PRINCIPAL_BYTES: usize = 29;

/// The tag byte of the anonymous principal.
pub const ANONYMOUS_TAG: u8 = 4;

/// An Internet Computer principal: its significant bytes (at most 29) in a
/// zero-padded buffer together with their number, the same fields in the same
/// order as `candid::Principal` keeps them, so that comparing principals
/// compares the length first and then the buffer.
#[derive(Clone, Copy, Debug, Eq)]
pub struct Principal {
    pub len: u8,
    pub bytes: [u8; 29],
}

/// Whether `p` is in the shape that `from_slice` builds: no more than 29
/// significant bytes and zeros after them.
pub open spec fn principal_wf(p: Principal) -> bool {
    &&& p.len <= 29
    &&& forall|i: int| p.len <= i < 29 ==> #[trigger] p.bytes@[i] == 0u8
}

/// The significant bytes of `p`.
pub open spec fn principal_bytes(p: Principal) -> Seq<u8> {
    p.bytes@.take(p.len as int)
}

/// Whether `p` is the anonymous principal, in the shape `from_slice` builds.
pub open spec fn is_anonymous(p: Principal) -> bool {
    principal_wf(p) && principal_bytes(p) == seq![ANONYMOUS_TAG]
}

/// Strict lexicographic order of two byte sequences of the same length.
pub open spec fn bytes_lt(a: Seq<u8>, b: Seq<u8>) -> bool {
    exists|i: int|
        0 <= i < a.len() && i < b.len() && a[i] < b[i] && (forall|j: int|
            0 <= j < i ==> #[trigger] a[j] == #[trigger] b[j])
}

/// The order of principals: by length first, then by the padded buffer.
pub open spec fn principal_lt(a: Principal, b: Principal) -> bool {
    a.len < b.len || (a.len == b.len && bytes_lt(a.bytes@, b.bytes@))
}

/// The text form of the principal whose significant bytes are `bytes`, as
/// `candid::Principal::to_text` writes it.
pub uninterp spec fn principal_text(bytes: Seq<u8>) -> Seq<char>;

/// Calls `candid::Principal::from_slice(bytes).to_text()`: the CRC32 of the
/// bytes and the bytes, base32 encoded in lower case and grouped by dashes.
/// The contract names that text and says nothing more of it.
#[verifier::external_body]
fn candid_principal_text(bytes: &[u8]) -> (text: String)
    requires
        bytes@.len() <= 29,
    ensures
        text@ == principal_text(bytes@),
{
    candid::Principal::from_slice(bytes).to_text()
}

/// `text` with its ASCII capitals made small, as `str::to_ascii_lowercase`
/// does.
pub open spec fn ascii_lowercase(text: Seq<char>) -> Seq<char> {
    text.map_values(|c: char| if 'A' <= c && c <= 'Z' { ((c as u32) + 32) as char } else { c })
}

/// What `candid::Principal::from_text` makes of `text`: the significant
/// bytes of the principal it names, or the text of the error it reports.
pub uninterp spec fn principal_from_text_result(text: Seq<char>) -> Result<Seq<u8>, Seq<char>>;

/// Calls `candid::Principal::from_text(text)`. The source accepts a text
/// only when it is the text form of the principal it decodes to (up to the
/// case of its letters), with at most 29 significant bytes; the contract says
/// so and names the result, the error's text included.
#[verifier::external_body]
fn candid_principal_from_text(text: &str) -> (r: Result<Vec<u8>, String>)
    ensures
        match r {
            Ok(bytes) => principal_from_text_result(text@) == Ok::<Seq<u8>, Seq<char>>(bytes@)
                && bytes@.len() <= 29 && principal_text(bytes@) == ascii_lowercase(text@),
            Err(e) => principal_from_text_result(text@) == Err::<Seq<u8>, Seq<char>>(e@),
        },
{
    match candid::Principal::from_text(text) {
        Ok(p) => Ok(p.as_slice().to_vec()),
        Err(e) => Err(e.to_string()),
    }
}

/// The principal whose text form is `text`, or the parser's complaint.
pub fn principal_from_text(text: &str) -> (r: Result<Principal, String>)
    ensures
        match principal_from_text_result(text@) {
            Ok(bytes) => r matches Ok(p) && principal_wf(p) && principal_bytes(p) == bytes
                && principal_text(bytes) == ascii_lowercase(text@),
            Err(e) => r matches Err(m) && m@ == e,
        },
{
    match candid_principal_from_text(text) {
        Ok(bytes) => Ok(Principal::from_slice(bytes.as_slice())),
        Err(e) => Err(e),
    }
}

impl Principal {
    /// The principal whose significant bytes are `slice`.
    pub fn from_slice(slice: &[u8]) -> (p: Principal)
        requires
            slice@.len() <= 29,
        ensures
            principal_wf(p),
            principal_bytes(p) == slice@,
            p.len == slice@.len(),
    {
        let mut bytes: [u8; 29] = [0u8; 29];
        let n = slice.len();
        let mut i: usize = 0;
        while i < n
            invariant
                n == slice@.len(),
                n <= 29,
                i <= n,
                forall|j: int| 0 <= j < i ==> bytes@[j] == slice@[j],
                forall|j: int| n <= j < 29 ==> bytes@[j] == 0u8,
            decreases n - i,
        {
            bytes[i] = slice[i];
            i = i + 1;
        }
        let p = Principal { len: n as u8, bytes };
        assert(principal_bytes(p) =~= slice@);
        p
    }

    /// The anonymous principal: the single byte 4.
    pub fn anonymous() -> (p: Principal)
        ensures
            principal_wf(p),
            principal_bytes(p) == seq![ANONYMOUS_TAG],
    {
        let mut bytes: [u8; 29] = [0u8; 29];
        bytes[0] = ANONYMOUS_TAG;
        let p = Principal { len: 1, bytes };
        assert(principal_bytes(p) =~= seq![ANONYMOUS_TAG]);
        p
    }

    /// Whether this is the anonymous principal.
    pub fn is_anonymous(&self) -> (r: bool)
        ensures
            r == is_anonymous(*self),
    {
        let anonymous = Principal::anonymous();
        let r = self.same_as(&anonymous);
        proof {
            if is_anonymous(*self) {
                let a = principal_bytes(*self);
                let b = principal_bytes(anonymous);
                assert(a.len() == 1 && b.len() == 1);
                assert(self.len == 1 && anonymous.len == 1);
                assert(a[0] == self.bytes@[0] && b[0] == anonymous.bytes@[0]);
                assert(a[0] == ANONYMOUS_TAG && b[0] == ANONYMOUS_TAG);
                assert forall|k: int| 0 <= k < 29 implies self.bytes@[k] == anonymous.bytes@[k] by {
                    if k > 0 {
                        assert(self.bytes@[k] == 0u8);
                        assert(anonymous.bytes@[k] == 0u8);
                    }
                }
                assert(self.bytes@ =~= anonymous.bytes@);
                vstd::array::axiom_array_ext_equal(self.bytes, anonymous.bytes);
            }
        }
        r
    }

    /// The significant bytes.
    pub fn as_slice(&self) -> (v: Vec<u8>)
        requires
            self.len <= 29,
        ensures
            v@ == principal_bytes(*self),
    {
        let mut v: Vec<u8> = Vec::new();
        let n = self.len as usize;
        let mut i: usize = 0;
        while i < n
            invariant
                n == self.len,
                n <= 29,
                i <= n,
                v@ == self.bytes@.take(i as int),
            decreases n - i,
        {
            v.push(self.bytes[i]);
            i = i + 1;
            assert(v@ =~= self.bytes@.take(i as int));
        }
        v
    }

    /// The text form, as `candid::Principal::to_text` writes it.
    pub fn to_text(&self) -> (text: String)
        requires
            self.len <= 29,
        ensures
            text@ == principal_text(principal_bytes(*self)),
    {
        let bytes = self.as_slice();
        candid_principal_text(bytes.as_slice())
    }

    /// Whether the two principals are the same.
    pub fn same_as(&self, other: &Principal) -> (r: bool)
        ensures
            r == (*self == *other),
    {
        if self.len != other.len {
            return false;
        }
        let mut i: usize = 0;
        while i < 29
            invariant
                i <= 29,
                forall|j: int| 0 <= j < i ==> self.bytes@[j] == other.bytes@[j],
            decreases 29 - i,
        {
            if self.bytes[i] != other.bytes[i] {
                return false;
            }
            i = i + 1;
        }
        assert(self.bytes@ =~= other.bytes@);
        proof {
            vstd::array::axiom_array_ext_equal(self.bytes, other.bytes);
        }
        true
    }

    /// Whether `self` comes strictly before `other` in the principal order.
    pub fn less_than(&self, other: &Principal) -> (r: bool)
        ensures
            r == principal_lt(*self, *other),
    {
        if self.len != other.len {
            return self.len < other.len;
        }
        let mut i: usize = 0;
        while i < 29
            invariant
                i <= 29,
                self.len == other.len,
                forall|j: int| 0 <= j < i ==> self.bytes@[j] == other.bytes@[j],
            decreases 29 - i,
        {
            if self.bytes[i] != other.bytes[i] {
                return self.bytes[i] < other.bytes[i];
            }
            i = i + 1;
        }
        false
    }
}

/// No principal comes before itself.
pub proof fn lemma_principal_lt_irreflexive(a: Principal)
    ensures
        !principal_lt(a, a),
{
}

/// The order of principals is transitive.
pub proof fn lemma_principal_lt_transitive(a: Principal, b: Principal, c: Principal)
    requires
        principal_lt(a, b),
        principal_lt(b, c),
    ensures
        principal_lt(a, c),
{
    if a.len == b.len && b.len == c.len {
        let i = choose|i: int| 0 <= i < a.bytes@.len() && i < b.bytes@.len() && a.bytes@[i] < b.bytes@[i]
            && (forall|j: int| 0 <= j < i ==> #[trigger] a.bytes@[j] == #[trigger] b.bytes@[j]);
        let k = choose|k: int| 0 <= k < b.bytes@.len() && k < c.bytes@.len() && b.bytes@[k] < c.bytes@[k]
            && (forall|j: int| 0 <= j < k ==> #[trigger] b.bytes@[j] == #[trigger] c.bytes@[j]);
        let m = if i < k { i } else { k };
        assert forall|j: int| 0 <= j < m implies #[trigger] a.bytes@[j] == #[trigger] c.bytes@[j] by {
            assert(a.bytes@[j] == b.bytes@[j]);
            assert(b.bytes@[j] == c.bytes@[j]);
        }
        if i < k {
            assert(b.bytes@[i] == c.bytes@[i]);
        } else if k < i {
            assert(a.bytes@[k] == b.bytes@[k]);
        }
        assert(a.bytes@[m] < c.bytes@[m]);
    }
}

/// Of two different principals, one comes before the other.
pub proof fn lemma_principal_lt_total(a: Principal, b: Principal)
    requires
        a != b,
    ensures
        principal_lt(a, b) || principal_lt(b, a),
{
    if a.len == b.len {
        if a.bytes@ =~= b.bytes@ {
            vstd::array::axiom_array_ext_equal(a.bytes, b.bytes);
        }
        lemma_first_difference(a.bytes@, b.bytes@, 29);
    }
}

/// Two byte sequences of length 29 that differ somewhere among their first
/// `k` bytes differ first at some position.
proof fn lemma_first_difference(x: Seq<u8>, y: Seq<u8>, k: int)
    requires
        x.len() == 29,
        y.len() == 29,
        0 <= k <= 29,
        k == 29 ==> x != y,
    ensures
        (exists|i: int| 0 <= i < k && #[trigger] x[i] != y[i]) ==> (bytes_lt(x, y) || bytes_lt(y, x)),
        k == 29 ==> (bytes_lt(x, y) || bytes_lt(y, x)),
    decreases k,
{
    if k == 29 {
        if forall|i: int| 0 <= i < 29 ==> #[trigger] x[i] == y[i] {
            assert(x =~= y);
        }
    }
    if k > 0 {
        lemma_first_difference(x, y, k - 1);
        if exists|i: int| 0 <= i < k && #[trigger] x[i] != y[i] {
            if !(exists|i: int| 0 <= i < k - 1 && #[trigger] x[i] != y[i]) {
                let i = k - 1;
                assert(x[i] != y[i]);
                assert forall|j: int| 0 <= j < i implies #[trigger] x[j] == #[trigger] y[j] by {
                    if x[j] != y[j] {
                        assert(0 <= j < k - 1 && x[j] != y[j]);
                    }
                }
                if x[i] < y[i] {
                    assert(bytes_lt(x, y));
                } else {
                    assert forall|j: int| 0 <= j < i implies #[trigger] y[j] == #[trigger] x[j] by {
                        assert(x[j] == y[j]);
                    }
                    assert(bytes_lt(y, x));
                }
            }
        }
    }
}

impl PartialEq for Principal {
    fn eq(&self, other: &Self) -> (r: bool) {
        self.same_as(other)
    }
}

impl vstd::std_specs::cmp::PartialEqSpecImpl for Principal {
    open spec fn obeys_eq_spec() -> bool {
        true
    }

    open spec fn eq_spec(&self, other: &Self) -> bool {
        *self == *other
    }
}

} // verus!
