//! Commitment codec: fixed-width digests over structured facts.
//!
//! A commitment binds an ordered list of 32-bit fields, a 32-byte salt and an
//! optional binding identity by hashing their concatenated big-endian byte
//! encoding with Keccak-256. Identical inputs always give identical digests,
//! and digest comparison is exact byte equality.

use vstd::prelude::*;

verus! {

/// A fixed-width 32-byte value: commitment digests and salts.
#[derive(Clone, Copy, Debug, PartialEq, Eq)]
pub struct Bytes32 {
    pub bytes: [u8; 32],
}

impl View for Bytes32 {
    type V = Seq<u8>;

    open spec fn view(&self) -> Seq<u8> {
        self.bytes@
    }
}

impl Bytes32 {
    /// Exact byte equality of two 32-byte values; no fuzzy matching.
    pub fn equals(&self, other: &Bytes32) -> (r: bool)
        ensures
            r == (self@ == other@),
    {
        let mut i: usize = 0;
        while i < 32
            invariant
                i <= 32,
                forall|j: int| 0 <= j < i ==> self@[j] == other@[j],
            decreases 32 - i,
        {
            if self.bytes[i] != other.bytes[i] {
                return false;
            }
            i += 1;
        }
        proof {
            assert(self@ =~= other@);
        }
        true
    }
}

/// A participant or role identity, as a plain numeric id.
#[derive(Clone, Copy, Debug, PartialEq, Eq, Structural)]
pub struct AccountId {
    pub id: u64,
}

/// The Keccak-256 digest of a byte string, as the hash primitive computes it.
pub uninterp spec fn keccak_of(data: Seq<u8>) -> Seq<u8>;

/// The host environment handle is opaque to this library; it is only passed
/// through to the hash primitive.
#[verifier::external_type_specification]
#[verifier::external_body]
pub struct ExEnv(soroban_sdk::Env);

/// Relies on soroban_sdk's `Crypto::keccak256`: the Keccak-256 digest of the
/// input bytes, 32 bytes wide, a function of the input bytes alone.
#[verifier::external_body]
pub(crate) fn keccak256(env: &soroban_sdk::Env, data: &Vec<u8>) -> (r: Bytes32)
    ensures
        r@ == keccak_of(data@),
        r@.len() == 32,
{
    let b = soroban_sdk::Bytes::from_slice(env, data.as_slice());
    Bytes32 { bytes: env.crypto().keccak256(&b).to_array() }
}

/// Big-endian 4-byte encoding of a 32-bit field.
pub open spec fn be32_of(x: u32) -> Seq<u8> {
    seq![
        ((x >> 24) & 0xff) as u8,
        ((x >> 16) & 0xff) as u8,
        ((x >> 8) & 0xff) as u8,
        (x & 0xff) as u8,
    ]
}

/// Big-endian 8-byte encoding of a 64-bit value.
pub open spec fn be64_of(x: u64) -> Seq<u8> {
    seq![
        ((x >> 56) & 0xff) as u8,
        ((x >> 48) & 0xff) as u8,
        ((x >> 40) & 0xff) as u8,
        ((x >> 32) & 0xff) as u8,
        ((x >> 24) & 0xff) as u8,
        ((x >> 16) & 0xff) as u8,
        ((x >> 8) & 0xff) as u8,
        (x & 0xff) as u8,
    ]
}

/// The canonical byte encoding of an identity used as a commitment binder.
pub open spec fn account_bytes(a: AccountId) -> Seq<u8> {
    be64_of(a.id)
}

fn push_be32(out: &mut Vec<u8>, x: u32)
    ensures
        final(out)@ == old(out)@ + be32_of(x),
{
    proof {
        assert(((x >> 24) & 0xff) < 256 && ((x >> 16) & 0xff) < 256 && ((x >> 8) & 0xff) < 256
            && (x & 0xff) < 256) by (bit_vector);
    }
    out.push(((x >> 24) & 0xff) as u8);
    out.push(((x >> 16) & 0xff) as u8);
    out.push(((x >> 8) & 0xff) as u8);
    out.push((x & 0xff) as u8);
    proof {
        assert(out@ =~= old(out)@ + be32_of(x));
    }
}

fn push_be64(out: &mut Vec<u8>, x: u64)
    ensures
        final(out)@ == old(out)@ + be64_of(x),
{
    proof {
        assert(((x >> 56) & 0xff) < 256 && ((x >> 48) & 0xff) < 256 && ((x >> 40) & 0xff) < 256
            && ((x >> 32) & 0xff) < 256 && ((x >> 24) & 0xff) < 256 && ((x >> 16) & 0xff) < 256
            && ((x >> 8) & 0xff) < 256 && (x & 0xff) < 256) by (bit_vector);
    }
    out.push(((x >> 56) & 0xff) as u8);
    out.push(((x >> 48) & 0xff) as u8);
    out.push(((x >> 40) & 0xff) as u8);
    out.push(((x >> 32) & 0xff) as u8);
    out.push(((x >> 24) & 0xff) as u8);
    out.push(((x >> 16) & 0xff) as u8);
    out.push(((x >> 8) & 0xff) as u8);
    out.push((x & 0xff) as u8);
    proof {
        assert(out@ =~= old(out)@ + be64_of(x));
    }
}

/// The concatenated big-endian encodings of a list of fields.
pub open spec fn fields_bytes(fields: Seq<u32>) -> Seq<u8>
    decreases fields.len(),
{
    if fields.len() == 0 {
        Seq::empty()
    } else {
        be32_of(fields[0]) + fields_bytes(fields.skip(1))
    }
}

proof fn lemma_fields_bytes_snoc(fields: Seq<u32>, x: u32)
    ensures
        fields_bytes(fields.push(x)) == fields_bytes(fields) + be32_of(x),
    decreases fields.len(),
{
    let ext = fields.push(x);
    assert(ext[0] == if fields.len() == 0 { x } else { fields[0] });
    if fields.len() == 0 {
        assert(ext.skip(1) =~= Seq::<u32>::empty());
        assert(fields_bytes(ext) == be32_of(x) + fields_bytes(Seq::<u32>::empty()));
        assert(fields_bytes(ext) =~= fields_bytes(fields) + be32_of(x));
    } else {
        assert(ext.skip(1) =~= fields.skip(1).push(x));
        lemma_fields_bytes_snoc(fields.skip(1), x);
        assert(fields_bytes(ext) == be32_of(fields[0]) + (fields_bytes(fields.skip(1)) + be32_of(
            x,
        )));
        assert(fields_bytes(ext) =~= fields_bytes(fields) + be32_of(x));
    }
}

/// The byte string a commitment hashes: each field big-endian, then the salt,
/// then the binder's canonical encoding if one is bound in.
pub open spec fn commit_bytes(fields: Seq<u32>, salt: Seq<u8>, binder: Option<AccountId>) -> Seq<
    u8,
> {
    fields_bytes(fields) + salt + match binder {
        Some(a) => account_bytes(a),
        None => Seq::empty(),
    }
}

/// The commitment digest of (fields, salt, binder).
pub open spec fn commit_of(fields: Seq<u32>, salt: Seq<u8>, binder: Option<AccountId>) -> Seq<u8> {
    keccak_of(commit_bytes(fields, salt, binder))
}

/// Compute the commitment digest of an ordered list of fields, a salt and an
/// optional binding identity.
pub fn commit(env: &soroban_sdk::Env, fields: &Vec<u32>, salt: &Bytes32, binder: Option<
    AccountId,
>) -> (r: Bytes32)
    ensures
        r@ == commit_of(fields@, salt@, binder),
{
    let mut data: Vec<u8> = Vec::new();
    let mut i: usize = 0;
    while i < fields.len()
        invariant
            i <= fields.len(),
            data@ == fields_bytes(fields@.take(i as int)),
        decreases fields.len() - i,
    {
        proof {
            lemma_fields_bytes_snoc(fields@.take(i as int), fields@[i as int]);
            assert(fields@.take(i as int).push(fields@[i as int]) =~= fields@.take(i + 1));
        }
        push_be32(&mut data, fields[i]);
        i += 1;
    }
    proof {
        assert(fields@.take(fields@.len() as int) =~= fields@);
    }
    let mut j: usize = 0;
    while j < 32
        invariant
            j <= 32,
            data@ == fields_bytes(fields@) + salt@.take(j as int),
        decreases 32 - j,
    {
        data.push(salt.bytes[j]);
        proof {
            assert(salt@.take(j as int).push(salt@[j as int]) =~= salt@.take(j + 1));
            assert(data@ =~= fields_bytes(fields@) + salt@.take(j + 1));
        }
        j += 1;
    }
    proof {
        assert(salt@.take(32int) =~= salt@);
    }
    match binder {
        Some(a) => {
            push_be64(&mut data, a.id);
            proof {
                assert(data@ =~= commit_bytes(fields@, salt@, binder));
            }
        },
        None => {
            proof {
                assert(data@ =~= commit_bytes(fields@, salt@, binder));
            }
        },
    }
    keccak256(env, &data)
}

proof fn lemma_fields_bytes_len(fields: Seq<u32>)
    ensures
        fields_bytes(fields).len() == 4 * fields.len(),
    decreases fields.len(),
{
    if fields.len() > 0 {
        lemma_fields_bytes_len(fields.skip(1));
    }
}

proof fn lemma_concat_split(a: Seq<u8>, b: Seq<u8>, c: Seq<u8>, d: Seq<u8>)
    requires
        a + b == c + d,
        a.len() == c.len(),
    ensures
        a == c,
        b == d,
{
    assert forall|i: int| 0 <= i < a.len() implies a[i] == c[i] by {
        assert((a + b)[i] == a[i]);
        assert((c + d)[i] == c[i]);
    }
    assert(a =~= c);
    assert((a + b).len() == a.len() + b.len());
    assert((c + d).len() == c.len() + d.len());
    assert(b.len() == d.len());
    assert forall|i: int| 0 <= i < b.len() implies b[i] == d[i] by {
        assert((a + b)[a.len() + i] == b[i]);
        assert((c + d)[c.len() + i] == d[i]);
    }
    assert(b =~= d);
}

proof fn lemma_be32_injective(x: u32, y: u32)
    requires
        be32_of(x) == be32_of(y),
    ensures
        x == y,
{
    assert(be32_of(x)[0] == be32_of(y)[0]);
    assert(be32_of(x)[1] == be32_of(y)[1]);
    assert(be32_of(x)[2] == be32_of(y)[2]);
    assert(be32_of(x)[3] == be32_of(y)[3]);
    assert(x == y) by (bit_vector)
        requires
            ((x >> 24) & 0xff) as u8 == ((y >> 24) & 0xff) as u8,
            ((x >> 16) & 0xff) as u8 == ((y >> 16) & 0xff) as u8,
            ((x >> 8) & 0xff) as u8 == ((y >> 8) & 0xff) as u8,
            (x & 0xff) as u8 == (y & 0xff) as u8,
    ;
}

proof fn lemma_be64_injective(x: u64, y: u64)
    requires
        be64_of(x) == be64_of(y),
    ensures
        x == y,
{
    assert(be64_of(x)[0] == be64_of(y)[0]);
    assert(be64_of(x)[1] == be64_of(y)[1]);
    assert(be64_of(x)[2] == be64_of(y)[2]);
    assert(be64_of(x)[3] == be64_of(y)[3]);
    assert(be64_of(x)[4] == be64_of(y)[4]);
    assert(be64_of(x)[5] == be64_of(y)[5]);
    assert(be64_of(x)[6] == be64_of(y)[6]);
    assert(be64_of(x)[7] == be64_of(y)[7]);
    assert(x == y) by (bit_vector)
        requires
            ((x >> 56) & 0xff) as u8 == ((y >> 56) & 0xff) as u8,
            ((x >> 48) & 0xff) as u8 == ((y >> 48) & 0xff) as u8,
            ((x >> 40) & 0xff) as u8 == ((y >> 40) & 0xff) as u8,
            ((x >> 32) & 0xff) as u8 == ((y >> 32) & 0xff) as u8,
            ((x >> 24) & 0xff) as u8 == ((y >> 24) & 0xff) as u8,
            ((x >> 16) & 0xff) as u8 == ((y >> 16) & 0xff) as u8,
            ((x >> 8) & 0xff) as u8 == ((y >> 8) & 0xff) as u8,
            (x & 0xff) as u8 == (y & 0xff) as u8,
    ;
}

proof fn lemma_fields_bytes_injective(f1: Seq<u32>, f2: Seq<u32>)
    requires
        f1.len() == f2.len(),
        fields_bytes(f1) == fields_bytes(f2),
    ensures
        f1 == f2,
    decreases f1.len(),
{
    if f1.len() == 0 {
        assert(f1 =~= f2);
    } else {
        lemma_fields_bytes_len(f1.skip(1));
        lemma_fields_bytes_len(f2.skip(1));
        lemma_concat_split(
            be32_of(f1[0]),
            fields_bytes(f1.skip(1)),
            be32_of(f2[0]),
            fields_bytes(f2.skip(1)),
        );
        lemma_be32_injective(f1[0], f2[0]);
        lemma_fields_bytes_injective(f1.skip(1), f2.skip(1));
        assert forall|i: int| 0 <= i < f1.len() implies f1[i] == f2[i] by {
            if i > 0 {
                assert(f1.skip(1)[i - 1] == f1[i]);
                assert(f2.skip(1)[i - 1] == f2[i]);
            }
        }
        assert(f1 =~= f2);
    }
}

/// The byte encoding a commitment hashes is injective over inputs of equal
/// arity: equal encodings can only come from equal fields, salt and binder.
pub proof fn lemma_commit_bytes_injective(
    f1: Seq<u32>,
    s1: Seq<u8>,
    b1: Option<AccountId>,
    f2: Seq<u32>,
    s2: Seq<u8>,
    b2: Option<AccountId>,
)
    requires
        f1.len() == f2.len(),
        s1.len() == 32,
        s2.len() == 32,
        commit_bytes(f1, s1, b1) == commit_bytes(f2, s2, b2),
    ensures
        f1 == f2,
        s1 == s2,
        b1 == b2,
{
    lemma_fields_bytes_len(f1);
    lemma_fields_bytes_len(f2);
    let t1 = match b1 {
        Some(a) => account_bytes(a),
        None => Seq::<u8>::empty(),
    };
    let t2 = match b2 {
        Some(a) => account_bytes(a),
        None => Seq::<u8>::empty(),
    };
    assert(commit_bytes(f1, s1, b1) == (fields_bytes(f1) + s1) + t1);
    assert(commit_bytes(f2, s2, b2) == (fields_bytes(f2) + s2) + t2);
    assert(t1.len() == t2.len());
    lemma_concat_split(fields_bytes(f1) + s1, t1, fields_bytes(f2) + s2, t2);
    lemma_concat_split(fields_bytes(f1), s1, fields_bytes(f2), s2);
    lemma_fields_bytes_injective(f1, f2);
    match (b1, b2) {
        (Some(a1), Some(a2)) => {
            lemma_be64_injective(a1.id, a2.id);
        },
        (Some(_), None) => {
            assert(false);
        },
        (None, Some(_)) => {
            assert(false);
        },
        (None, None) => {},
    }
}

/// Any change to the fields, the salt or the binder changes the byte string
/// the hash is applied to: a digest collision between distinct inputs of
/// equal arity would be a collision of the hash primitive itself.
pub proof fn lemma_distinct_inputs_distinct_preimages(
    f1: Seq<u32>,
    s1: Seq<u8>,
    b1: Option<AccountId>,
    f2: Seq<u32>,
    s2: Seq<u8>,
    b2: Option<AccountId>,
)
    requires
        f1.len() == f2.len(),
        s1.len() == 32,
        s2.len() == 32,
        !(f1 == f2 && s1 == s2 && b1 == b2),
    ensures
        commit_bytes(f1, s1, b1) != commit_bytes(f2, s2, b2),
{
    if commit_bytes(f1, s1, b1) == commit_bytes(f2, s2, b2) {
        lemma_commit_bytes_injective(f1, s1, b1, f2, s2, b2);
    }
}

/// Commitments are deterministic: identical fields, salt and binder always
/// yield the identical digest.
pub proof fn lemma_commit_deterministic(
    f1: Seq<u32>,
    s1: Seq<u8>,
    b1: Option<AccountId>,
    f2: Seq<u32>,
    s2: Seq<u8>,
    b2: Option<AccountId>,
)
    requires
        f1 == f2,
        s1 == s2,
        b1 == b2,
    ensures
        commit_of(f1, s1, b1) == commit_of(f2, s2, b2),
{
}

} // verus!
