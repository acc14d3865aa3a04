use vstd::prelude::*;

verus! {

/// A claim's identity: the raw bytes of the claimed content, bounded in length
/// by the registry's configured maximum.
pub struct Fingerprint {
    bytes: Vec<u8>,
}

impl View for Fingerprint {
    type V = Seq<u8>;

    closed spec fn view(&self) -> Seq<u8> {
        self.bytes@
    }
}

/// Copies a byte vector, one byte at a time.
pub fn copy_bytes(b: &Vec<u8>) -> (r: Vec<u8>)
    ensures
        r@ == b@,
{
    let mut r: Vec<u8> = Vec::new();
    let mut i: usize = 0;
    while i < b.len()
        invariant
            i <= b@.len(),
            r@ == b@.subrange(0, i as int),
        decreases b@.len() - i,
    {
        r.push(b[i]);
        i = i + 1;
        assert(r@ =~= b@.subrange(0, i as int));
    }
    assert(r@ =~= b@);
    r
}

/// Compares two byte sequences for exact equality.
pub fn bytes_equal(a: &Vec<u8>, b: &Vec<u8>) -> (r: bool)
    ensures
        r == (a@ == b@),
{
    if a.len() != b.len() {
        return false;
    }
    let mut i: usize = 0;
    while i < a.len()
        invariant
            a@.len() == b@.len(),
            i <= a@.len(),
            forall|j: int| 0 <= j < i ==> a@[j] == b@[j],
        decreases a@.len() - i,
    {
        if a[i] != b[i] {
            return false;
        }
        i = i + 1;
    }
    assert(a@ =~= b@);
    true
}

impl Fingerprint {
    /// Validating constructor: accepts `bytes` when it holds at most
    /// `max_len` bytes and hands it back unchanged otherwise.
    pub fn try_new(bytes: Vec<u8>, max_len: u32) -> (r: Result<Fingerprint, Vec<u8>>)
        ensures
            r is Ok <==> bytes@.len() <= max_len,
            r matches Ok(f) ==> f@ == bytes@,
            r matches Err(b) ==> b == bytes,
    {
        if bytes.len() <= max_len as usize {
            Ok(Fingerprint { bytes })
        } else {
            Err(bytes)
        }
    }

    /// The fingerprint's bytes.
    pub fn as_bytes(&self) -> (r: &Vec<u8>)
        ensures
            r@ == self@,
    {
        &self.bytes
    }

    /// Number of bytes in the fingerprint.
    pub fn len(&self) -> (r: usize)
        ensures
            r == self@.len(),
    {
        self.bytes.len()
    }

    /// Exact byte equality of two fingerprints.
    pub fn same_as(&self, other: &Fingerprint) -> (r: bool)
        ensures
            r == (self@ == other@),
    {
        bytes_equal(&self.bytes, &other.bytes)
    }
}

} // verus!
