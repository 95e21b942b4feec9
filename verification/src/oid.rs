//! Object ids: SHA-1 (20-byte) or SHA-256 (32-byte) digests.

use vstd::prelude::*;
use crate::text::{all_hex, hex_decode, hex_lower, hex_digit, hex_value, concat3};
use crate::error::{BindingError, ErrorClass, error_of};

verus! {

/// Whether `n` is the digest length of a supported hash algorithm.
pub open spec fn valid_oid_len(n: nat) -> bool {
    n == 20 || n == 32
}

/// An object id, held as its raw digest bytes (20 for SHA-1, 32 for SHA-256).
#[derive(Debug)]
pub struct ObjectId {
    bytes: Vec<u8>,
}

impl View for ObjectId {
    type V = Seq<u8>;

    closed spec fn view(&self) -> Seq<u8> {
        self.bytes@
    }
}

/// Parses a hex object id with grit-lib's `ObjectId::from_hex` and returns its
/// raw digest bytes.
///
/// Claims what grit-lib's source shows: the text must be 40 or 64 characters,
/// all hex digits of either case, and it decodes two digits per byte.
#[verifier::external_body]
fn grit_oid_from_hex(s: &str) -> (res: Option<Vec<u8>>)
    ensures
        res is Some <==> ((s@.len() == 40 || s@.len() == 64) && all_hex(s@)),
        res matches Some(b) ==> b@ == hex_decode(s@) && valid_oid_len(b@.len()),
{
    grit_lib::objects::ObjectId::from_hex(s).ok().map(|o| o.as_bytes().to_vec())
}

/// Renders a digest as lowercase hex with grit-lib's `ObjectId::to_hex`.
///
/// Claims what grit-lib's source shows: two lowercase hex digits per byte.
#[verifier::external_body]
fn grit_oid_to_hex(bytes: &[u8]) -> (res: String)
    requires
        valid_oid_len(bytes@.len()),
    ensures
        res@ == hex_lower(bytes@),
{
    match grit_lib::objects::ObjectId::from_bytes(bytes) {
        Ok(o) => o.to_hex(),
        Err(_) => String::new(),
    }
}

proof fn lemma_hex_decode_len(s: Seq<char>)
    ensures
        s.len() % 2 == 0 ==> hex_decode(s).len() == s.len() / 2,
    decreases s.len(),
{
    if s.len() >= 2 {
        lemma_hex_decode_len(s.subrange(2, s.len() as int));
    }
}

proof fn lemma_hex_lower_len(b: Seq<u8>)
    ensures
        hex_lower(b).len() == 2 * b.len(),
    decreases b.len(),
{
    if b.len() > 0 {
        lemma_hex_lower_len(b.drop_first());
    }
}

/// Rich comparison operators; only equality and inequality are defined on ids.
#[derive(Clone, Copy, Debug, PartialEq, Eq, Structural)]
pub enum CompareOp {
    Lt,
    Le,
    Eq,
    Ne,
    Gt,
    Ge,
}

/// The text of the error raised for an unparsable hex id.
pub open spec fn invalid_oid_message(s: Seq<char>) -> Seq<char> {
    "invalid object id '"@ + s + "'"@
}

impl ObjectId {
    #[verifier::type_invariant]
    spec fn wf(self) -> bool {
        valid_oid_len(self.bytes@.len())
    }

    /// Parses a 40- (SHA-1) or 64-character (SHA-256) hex id, either case.
    pub fn from_hex(hex: &str) -> (res: Result<ObjectId, BindingError>)
        ensures
            res is Ok <==> ((hex@.len() == 40 || hex@.len() == 64) && all_hex(hex@)),
            res matches Ok(o) ==> o@ == hex_decode(hex@),
            res matches Err(e) ==> e.class == ErrorClass::InvalidObjectError && e.message@
                == invalid_oid_message(hex@),
    {
        match grit_oid_from_hex(hex) {
            Some(bytes) => Ok(ObjectId { bytes }),
            None => {
                let msg = concat3("invalid object id '", hex, "'");
                proof {
                    reveal_strlit("invalid object id '");
                    reveal_strlit("'");
                }
                Err(error_of(ErrorClass::InvalidObjectError, msg))
            },
        }
    }

    /// Builds an id from raw digest bytes; `None` unless there are 20 or 32.
    pub fn from_raw(bytes: &[u8]) -> (res: Option<ObjectId>)
        ensures
            res is Some <==> valid_oid_len(bytes@.len()),
            res matches Some(o) ==> o@ == bytes@,
    {
        if bytes.len() == 20 || bytes.len() == 32 {
            Some(ObjectId { bytes: vstd::slice::slice_to_vec(bytes) })
        } else {
            None
        }
    }

    /// Builds an id from owned raw digest bytes; `None` unless there are 20 or 32.
    pub fn from_vec(bytes: Vec<u8>) -> (res: Option<ObjectId>)
        ensures
            res is Some <==> valid_oid_len(bytes@.len()),
            res matches Some(o) ==> o@ == bytes@,
    {
        if bytes.len() == 20 || bytes.len() == 32 {
            Some(ObjectId { bytes })
        } else {
            None
        }
    }

    /// The digest length is always that of a supported algorithm.
    pub fn len(&self) -> (n: usize)
        ensures
            n == self@.len(),
            valid_oid_len(n as nat),
    {
        proof {
            use_type_invariant(self);
        }
        self.bytes.len()
    }

    /// The lowercase hex digest (40 chars for SHA-1, 64 for SHA-256).
    pub fn hex(&self) -> (res: String)
        ensures
            res@ == hex_lower(self@),
            res@.len() == 2 * self@.len(),
    {
        proof {
            use_type_invariant(self);
            lemma_hex_lower_len(self@);
        }
        grit_oid_to_hex(self.bytes.as_slice())
    }

    /// The raw digest bytes.
    pub fn raw(&self) -> (res: Vec<u8>)
        ensures
            res@ == self@,
    {
        self.bytes.clone()
    }

    /// The hash algorithm name, inferred from the digest length.
    pub fn hash_algorithm(&self) -> (res: &'static str)
        ensures
            self@.len() == 20 ==> res@ == "sha1"@,
            self@.len() != 20 ==> res@ == "sha256"@,
    {
        if self.bytes.len() == 20 {
            "sha1"
        } else {
            "sha256"
        }
    }

    /// Whether two ids are the same digest.
    pub fn same(&self, other: &ObjectId) -> (res: bool)
        ensures
            res == (self@ == other@),
    {
        if self.bytes.len() != other.bytes.len() {
            return false;
        }
        let mut i: usize = 0;
        while i < self.bytes.len()
            invariant
                self.bytes@.len() == other.bytes@.len(),
                0 <= i <= self.bytes@.len(),
                forall|j: int| 0 <= j < i ==> self.bytes@[j] == other.bytes@[j],
            decreases self.bytes@.len() - i,
        {
            if self.bytes[i] != other.bytes[i] {
                return false;
            }
            i = i + 1;
        }
        assert(self.bytes@ =~= other.bytes@);
        true
    }

    /// Python rich comparison: `==` and `!=` compare digests; any ordering
    /// comparison is false.
    pub fn rich_compare(&self, other: &ObjectId, op: CompareOp) -> (res: bool)
        ensures
            op == CompareOp::Eq ==> res == (self@ == other@),
            op == CompareOp::Ne ==> res == (self@ != other@),
            op != CompareOp::Eq && op != CompareOp::Ne ==> !res,
    {
        match op {
            CompareOp::Eq => self.same(other),
            CompareOp::Ne => !self.same(other),
            _ => false,
        }
    }

    /// Whether every byte of the digest is zero (the "null" id).
    pub fn is_zero(&self) -> (res: bool)
        ensures
            res == (forall|i: int| 0 <= i < self@.len() ==> self@[i] == 0),
    {
        let mut i: usize = 0;
        while i < self.bytes.len()
            invariant
                0 <= i <= self.bytes@.len(),
                forall|j: int| 0 <= j < i ==> self.bytes@[j] == 0,
            decreases self.bytes@.len() - i,
        {
            if self.bytes[i] != 0 {
                assert(self@[i as int] != 0);
                return false;
            }
            i = i + 1;
        }
        true
    }

    /// The all-zero id of the same width (SHA-1 or SHA-256) as this one.
    pub fn zero_like(&self) -> (res: ObjectId)
        ensures
            res@.len() == self@.len(),
            forall|i: int| 0 <= i < res@.len() ==> res@[i] == 0,
    {
        proof {
            use_type_invariant(self);
        }
        let n = self.bytes.len();
        let mut z: Vec<u8> = Vec::new();
        while z.len() < n
            invariant
                z@.len() <= n,
                forall|i: int| 0 <= i < z@.len() ==> z@[i] == 0,
            decreases n - z@.len(),
        {
            z.push(0u8);
        }
        ObjectId { bytes: z }
    }

    /// `ObjectId('<hex>')`.
    pub fn repr(&self) -> (res: String)
        ensures
            res@ == "ObjectId('"@ + hex_lower(self@) + "')"@,
    {
        let h = self.hex();
        concat3("ObjectId('", h.as_str(), "')")
    }

    /// A copy of this id.
    pub fn copy(&self) -> (res: ObjectId)
        ensures
            res@ == self@,
    {
        proof {
            use_type_invariant(self);
        }
        ObjectId { bytes: self.bytes.clone() }
    }
}

/// Law: rendering an id as hex and parsing the text back gives the same id.
pub proof fn law_hex_roundtrip(b: Seq<u8>)
    requires
        valid_oid_len(b.len()),
    ensures
        all_hex(hex_lower(b)),
        hex_lower(b).len() == 40 || hex_lower(b).len() == 64,
        hex_decode(hex_lower(b)) == b,
    decreases b.len(),
{
    lemma_hex_lower_len(b);
    lemma_hex_roundtrip_any(b);
}

proof fn lemma_hex_roundtrip_any(b: Seq<u8>)
    ensures
        all_hex(hex_lower(b)),
        hex_decode(hex_lower(b)) == b,
    decreases b.len(),
{
    if b.len() > 0 {
        let rest = b.drop_first();
        lemma_hex_roundtrip_any(rest);
        let h = hex_lower(b);
        let hi = (b[0] / 16) as int;
        let lo = (b[0] % 16) as int;
        assert(h == seq![hex_digit(hi), hex_digit(lo)] + hex_lower(rest));
        assert(hex_value(hex_digit(hi)) == Some(hi));
        assert(hex_value(hex_digit(lo)) == Some(lo));
        assert(h.subrange(2, h.len() as int) =~= hex_lower(rest));
        assert(hex_decode(h) =~= b);
        assert forall|i: int| 0 <= i < h.len() implies #[trigger] hex_value(h[i]) is Some by {
            if i >= 2 {
                assert(h[i] == hex_lower(rest)[i - 2]);
            }
        }
    } else {
        assert(hex_lower(b) =~= Seq::<char>::empty());
        assert(hex_decode(Seq::<char>::empty()) =~= b);
    }
}

/// Whether `c` is a lowercase hex digit (`0`-`9`, `a`-`f`).
pub open spec fn is_lower_hex_digit(c: char) -> bool {
    ('0' <= c <= '9') || ('a' <= c <= 'f')
}

/// Law: parsing a lowercase hex id and rendering it again gives the same text,
/// and the id has half as many bytes as the text has digits (20 or 32).
pub proof fn law_hex_text_roundtrip(h: Seq<char>)
    requires
        h.len() == 40 || h.len() == 64,
        forall|i: int| 0 <= i < h.len() ==> is_lower_hex_digit(#[trigger] h[i]),
    ensures
        all_hex(h),
        hex_lower(hex_decode(h)) == h,
        hex_decode(h).len() == h.len() / 2,
        valid_oid_len(hex_decode(h).len()),
{
    lemma_hex_text_roundtrip_any(h);
    lemma_hex_decode_len(h);
    assert forall|i: int| 0 <= i < h.len() implies #[trigger] hex_value(h[i]) is Some by {
        assert(is_lower_hex_digit(h[i]));
    }
}

proof fn lemma_hex_text_roundtrip_any(h: Seq<char>)
    requires
        h.len() % 2 == 0,
        forall|i: int| 0 <= i < h.len() ==> is_lower_hex_digit(#[trigger] h[i]),
    ensures
        hex_lower(hex_decode(h)) == h,
    decreases h.len(),
{
    if h.len() == 0 {
        assert(hex_decode(h) =~= Seq::<u8>::empty());
        assert(hex_lower(Seq::<u8>::empty()) =~= h);
    } else {
        let rest = h.subrange(2, h.len() as int);
        assert forall|i: int| 0 <= i < rest.len() implies is_lower_hex_digit(#[trigger] rest[i]) by {
            assert(rest[i] == h[i + 2]);
            assert(is_lower_hex_digit(h[i + 2]));
        }
        lemma_hex_text_roundtrip_any(rest);
        assert(is_lower_hex_digit(h[0]));
        assert(is_lower_hex_digit(h[1]));
        let hi = hex_value(h[0]).unwrap();
        let lo = hex_value(h[1]).unwrap();
        assert(0 <= hi < 16 && 0 <= lo < 16);
        let v: u8 = (hi * 16 + lo) as u8;
        assert(v == hi * 16 + lo);
        assert(v / 16 == hi && v % 16 == lo) by (nonlinear_arith)
            requires
                v == hi * 16 + lo,
                0 <= hi < 16,
                0 <= lo < 16,
        ;
        assert(hex_digit(hi) == h[0]);
        assert(hex_digit(lo) == h[1]);
        let d = hex_decode(h);
        assert(d =~= seq![v] + hex_decode(rest));
        assert(d.drop_first() =~= hex_decode(rest));
        assert(hex_lower(d) =~= seq![h[0], h[1]] + rest);
        assert(h =~= seq![h[0], h[1]] + rest);
    }
}

} // verus!
