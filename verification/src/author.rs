use vstd::prelude::*;

verus! {

/// Length in bytes of an Aura authority's sr25519 public key.
pub const AUTHORITY_ID_LEN: usize = 32;

/// Length in bytes of an EVM address.
pub const H160_LEN: usize = 20;

/// Index of the first key byte that goes into the derived address.
pub const ADDRESS_START: usize = 4;

/// Index one past the last key byte that goes into the derived address.
pub const ADDRESS_END: usize = 24;

/// An Aura authority identifier: the raw bytes of an sr25519 public key.
pub struct AuthorityId {
    pub bytes: [u8; 32],
}

impl View for AuthorityId {
    type V = Seq<u8>;

    open spec fn view(&self) -> Seq<u8> {
        self.bytes@
    }
}

/// A 20-byte EVM address.
pub struct H160 {
    pub bytes: [u8; 20],
}

impl View for H160 {
    type V = Seq<u8>;

    open spec fn view(&self) -> Seq<u8> {
        self.bytes@
    }
}

/// The address derived from a raw authority key: its bytes `4 .. 24`.
pub open spec fn truncated_address(raw_key: Seq<u8>) -> Seq<u8> {
    raw_key.subrange(ADDRESS_START as int, ADDRESS_END as int)
}

impl AuthorityId {
    /// The key's bytes, in order, as a vector.
    pub fn to_raw_vec(&self) -> (r: Vec<u8>)
        ensures
            r@ == self@,
            r@ == self.bytes@,
            r@.len() == 32,
            forall|j: int| 0 <= j < 32 ==> r@[j] == self.bytes[j],
    {
        let mut out: Vec<u8> = Vec::new();
        let mut i: usize = 0;
        while i < AUTHORITY_ID_LEN
            invariant
                i <= AUTHORITY_ID_LEN,
                self.bytes@.len() == AUTHORITY_ID_LEN,
                out@ == self.bytes@.subrange(0, i as int),
            decreases AUTHORITY_ID_LEN - i,
        {
            out.push(self.bytes[i]);
            i = i + 1;
        }
        assert(out@ =~= self.bytes@);
        out
    }
}

impl H160 {
    /// The address made of exactly the 20 bytes of `src`.
    pub fn from_slice(src: &[u8]) -> (r: H160)
        requires
            src@.len() == H160_LEN,
        ensures
            r@ == src@,
            r.bytes@ == src@,
            forall|j: int| 0 <= j < 20 ==> r.bytes[j] == src@[j],
    {
        let mut bytes: [u8; 20] = [0u8; 20];
        let mut i: usize = 0;
        while i < H160_LEN
            invariant
                i <= H160_LEN,
                src@.len() == H160_LEN,
                bytes@.len() == H160_LEN,
                forall|k: int| 0 <= k < i ==> bytes@[k] == src@[k],
            decreases H160_LEN - i,
        {
            bytes[i] = src[i];
            i = i + 1;
        }
        assert(bytes@ =~= src@);
        let r: H160 = H160 { bytes };
        assert(r.bytes@ =~= src@);
        r
    }
}

/// The bytes `ADDRESS_START .. ADDRESS_END` of `raw`.
fn address_window(raw: &Vec<u8>) -> (r: Vec<u8>)
    requires
        raw@.len() >= ADDRESS_END,
    ensures
        r@ == truncated_address(raw@),
        r@ == raw@.subrange(4, 24),
        r@.len() == 20,
        forall|j: int| 0 <= j < 20 ==> r@[j] == raw@[4 + j],
{
    let mut out: Vec<u8> = Vec::new();
    let mut i: usize = ADDRESS_START;
    while i < ADDRESS_END
        invariant
            ADDRESS_START <= i <= ADDRESS_END,
            raw@.len() >= ADDRESS_END,
            out@ == raw@.subrange(ADDRESS_START as int, i as int),
        decreases ADDRESS_END - i,
    {
        out.push(raw[i]);
        i = i + 1;
    }
    assert(out@ =~= raw@.subrange(4, 24));
    out
}

/// An address is its 20 bytes, and a key is its 32 bytes: the views add nothing.
pub proof fn lemma_views_are_bytes(address: H160, key: AuthorityId)
    ensures
        address@ == address.bytes@,
        address@.len() == 20,
        key@ == key.bytes@,
        key@.len() == 32,
{
}

/// The address derived from a 32-byte key is exactly its window: 20 bytes, the `j`-th
/// being key byte `4 + j`.
pub proof fn lemma_truncated_address_is_window(key: Seq<u8>)
    requires
        key.len() == 32,
    ensures
        truncated_address(key).len() == 20,
        forall|j: int| 0 <= j < 20 ==> truncated_address(key)[j] == key[4 + j],
        truncated_address(key) == key.subrange(4, 24),
{
}

/// Every derived address has 20 bytes, and two raw keys give the same address exactly
/// when they agree on bytes `4 .. 24`: the other bytes of a key play no part.
pub proof fn lemma_address_determined_by_window(a: Seq<u8>, b: Seq<u8>)
    requires
        a.len() == AUTHORITY_ID_LEN,
        b.len() == AUTHORITY_ID_LEN,
    ensures
        truncated_address(a).len() == H160_LEN,
        truncated_address(a) == truncated_address(b) <==> (forall|k: int|
            ADDRESS_START <= k < ADDRESS_END ==> a[k] == b[k]),
{
    if truncated_address(a) == truncated_address(b) {
        assert forall|k: int| ADDRESS_START <= k < ADDRESS_END implies a[k] == b[k] by {
            assert(truncated_address(a)[k - ADDRESS_START] == truncated_address(b)[k
                - ADDRESS_START]);
        }
    }
    if forall|k: int| ADDRESS_START <= k < ADDRESS_END ==> a[k] == b[k] {
        assert(truncated_address(a) =~= truncated_address(b));
    }
}

/// Finds the EVM address of a block's author from the Aura authority index.
pub struct FindAuthorTruncated;

impl FindAuthorTruncated {
    /// Given the index of the block author among the Aura authorities (as found in the
    /// block's pre-runtime digests) and the current authority set, returns the author's
    /// EVM address: bytes `4 .. 24` of the author's raw public key. No author index, no
    /// address.
    pub fn find_author(author_index: Option<u32>, authorities: &Vec<AuthorityId>) -> (r: Option<
        H160,
    >)
        requires
            author_index matches Some(i) ==> i < authorities@.len(),
        ensures
            author_index is None ==> r is None,
            author_index matches Some(i) ==> (r matches Some(address) && address@
                == truncated_address(authorities@[i as int]@)),
            author_index matches Some(i) ==> (r matches Some(address) && address.bytes@
                == authorities@[i as int].bytes@.subrange(4, 24)),
            author_index matches Some(i) ==> (r matches Some(address) && forall|j: int|
                0 <= j < 20 ==> address.bytes[j] == authorities@[i as int].bytes[4 + j]),
    {
        match author_index {
            Some(index) => {
                let authority: &AuthorityId = &authorities[index as usize];
                let raw: Vec<u8> = authority.to_raw_vec();
                let window: Vec<u8> = address_window(&raw);
                Some(H160::from_slice(window.as_slice()))
            },
            None => None,
        }
    }
}

} // verus!
