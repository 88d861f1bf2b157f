use vstd::prelude::*;

verus! {

// ---------------------------------------------------------------------------
// Data model
// ---------------------------------------------------------------------------
/// The stable fingerprint identifying this installation to the remote
/// service: generated once from random material, then loaded unchanged.
pub struct DeviceIdentity {
    pub android_id: Vec<u8>,
    pub imei: Vec<u8>,
    pub seed: Vec<u8>,
}

/// Mathematical model of a device identity.
pub struct IdentityModel {
    pub android_id: Seq<u8>,
    pub imei: Seq<u8>,
    pub seed: Seq<u8>,
}

impl View for DeviceIdentity {
    type V = IdentityModel;

    open spec fn view(&self) -> IdentityModel {
        IdentityModel {
            android_id: self.android_id@,
            imei: self.imei@,
            seed: self.seed@,
        }
    }
}

impl IdentityModel {
    /// Every field must fit a four-byte length prefix.
    pub open spec fn wf(&self) -> bool {
        &&& self.android_id.len() <= 0xffff_ffff
        &&& self.imei.len() <= 0xffff_ffff
        &&& self.seed.len() <= 0xffff_ffff
    }
}

impl DeviceIdentity {
    pub open spec fn wf(&self) -> bool {
        self@.wf()
    }

    /// Builds a fresh identity from caller-supplied random material, or
    /// nothing if a field is too long to serialize.
    pub fn from_random_material(android_id: Vec<u8>, imei: Vec<u8>, seed: Vec<u8>) -> (r: Option<
        DeviceIdentity,
    >)
        ensures
            match r {
                Some(d) => d.wf() && d@ == (IdentityModel {
                    android_id: android_id@,
                    imei: imei@,
                    seed: seed@,
                }),
                None => android_id@.len() > 0xffff_ffff || imei@.len() > 0xffff_ffff
                    || seed@.len() > 0xffff_ffff,
            },
    {
        if android_id.len() <= 0xffff_ffff && imei.len() <= 0xffff_ffff && seed.len()
            <= 0xffff_ffff {
            Some(DeviceIdentity { android_id, imei, seed })
        } else {
            None
        }
    }
}

/// The opaque credential of a previously authenticated session. Written only
/// after a fully completed login; read once at startup.
pub struct SessionToken {
    pub uin: u64,
    pub credential: Vec<u8>,
}

/// Mathematical model of a session token.
pub struct TokenModel {
    pub uin: u64,
    pub credential: Seq<u8>,
}

impl View for SessionToken {
    type V = TokenModel;

    open spec fn view(&self) -> TokenModel {
        TokenModel { uin: self.uin, credential: self.credential@ }
    }
}

impl TokenModel {
    pub open spec fn wf(&self) -> bool {
        self.credential.len() <= 0xffff_ffff
    }
}

impl SessionToken {
    pub open spec fn wf(&self) -> bool {
        self@.wf()
    }
}

// ---------------------------------------------------------------------------
// Wire format: little-endian length prefixes, then the raw field bytes.
// ---------------------------------------------------------------------------
/// The four bytes of `n`, least significant first.
pub open spec fn le32(n: u32) -> Seq<u8> {
    seq![
        (n & 0xff) as u8,
        ((n >> 8) & 0xff) as u8,
        ((n >> 16) & 0xff) as u8,
        ((n >> 24) & 0xff) as u8,
    ]
}

/// The value of four little-endian bytes.
pub open spec fn le32_val(b: Seq<u8>) -> u32
    recommends
        b.len() == 4,
{
    (b[0] as u32) | ((b[1] as u32) << 8) | ((b[2] as u32) << 16) | ((b[3] as u32) << 24)
}

/// The eight bytes of `n`, least significant first.
pub open spec fn le64(n: u64) -> Seq<u8> {
    seq![
        (n & 0xff) as u8,
        ((n >> 8) & 0xff) as u8,
        ((n >> 16) & 0xff) as u8,
        ((n >> 24) & 0xff) as u8,
        ((n >> 32) & 0xff) as u8,
        ((n >> 40) & 0xff) as u8,
        ((n >> 48) & 0xff) as u8,
        ((n >> 56) & 0xff) as u8,
    ]
}

/// The value of eight little-endian bytes.
pub open spec fn le64_val(b: Seq<u8>) -> u64
    recommends
        b.len() == 8,
{
    (b[0] as u64) | ((b[1] as u64) << 8) | ((b[2] as u64) << 16) | ((b[3] as u64) << 24) | ((
    b[4] as u64) << 32) | ((b[5] as u64) << 40) | ((b[6] as u64) << 48) | ((b[7] as u64) << 56)
}

pub proof fn lemma_le32_round_trip(n: u32)
    ensures
        le32(n).len() == 4,
        le32_val(le32(n)) == n,
{
    let b0 = (n & 0xff) as u8;
    let b1 = ((n >> 8) & 0xff) as u8;
    let b2 = ((n >> 16) & 0xff) as u8;
    let b3 = ((n >> 24) & 0xff) as u8;
    assert((b0 as u32) | ((b1 as u32) << 8) | ((b2 as u32) << 16) | ((b3 as u32) << 24) == n)
        by (bit_vector)
        requires
            b0 == (n & 0xff) as u8,
            b1 == ((n >> 8) & 0xff) as u8,
            b2 == ((n >> 16) & 0xff) as u8,
            b3 == ((n >> 24) & 0xff) as u8,
    ;
}

pub proof fn lemma_le64_round_trip(n: u64)
    ensures
        le64(n).len() == 8,
        le64_val(le64(n)) == n,
{
    let b0 = (n & 0xff) as u8;
    let b1 = ((n >> 8) & 0xff) as u8;
    let b2 = ((n >> 16) & 0xff) as u8;
    let b3 = ((n >> 24) & 0xff) as u8;
    let b4 = ((n >> 32) & 0xff) as u8;
    let b5 = ((n >> 40) & 0xff) as u8;
    let b6 = ((n >> 48) & 0xff) as u8;
    let b7 = ((n >> 56) & 0xff) as u8;
    assert((b0 as u64) | ((b1 as u64) << 8) | ((b2 as u64) << 16) | ((b3 as u64) << 24) | ((
    b4 as u64) << 32) | ((b5 as u64) << 40) | ((b6 as u64) << 48) | ((b7 as u64) << 56) == n)
        by (bit_vector)
        requires
            b0 == (n & 0xff) as u8,
            b1 == ((n >> 8) & 0xff) as u8,
            b2 == ((n >> 16) & 0xff) as u8,
            b3 == ((n >> 24) & 0xff) as u8,
            b4 == ((n >> 32) & 0xff) as u8,
            b5 == ((n >> 40) & 0xff) as u8,
            b6 == ((n >> 48) & 0xff) as u8,
            b7 == ((n >> 56) & 0xff) as u8,
    ;
}

/// One field on the wire: its length, then its bytes.
pub open spec fn enc_field(f: Seq<u8>) -> Seq<u8> {
    le32(f.len() as u32) + f
}

/// Splits one field off the front of `b`: the field and the remaining bytes,
/// or nothing if `b` is too short for its own length prefix.
pub open spec fn dec_field(b: Seq<u8>) -> Option<(Seq<u8>, Seq<u8>)> {
    if b.len() < 4 {
        None
    } else {
        let n = le32_val(b.subrange(0, 4)) as int;
        if b.len() < 4 + n {
            None
        } else {
            Some((b.subrange(4, 4 + n), b.subrange(4 + n, b.len() as int)))
        }
    }
}

/// The serialized form of a device identity.
pub open spec fn identity_bytes(v: IdentityModel) -> Seq<u8> {
    enc_field(v.android_id) + enc_field(v.imei) + enc_field(v.seed)
}

/// The identity a byte string deserializes to, or nothing if malformed.
/// Trailing bytes are malformed: a stored identity is exactly one record.
pub open spec fn identity_of_bytes(b: Seq<u8>) -> Option<IdentityModel> {
    match dec_field(b) {
        Option::None => Option::None,
        Option::Some((android_id, r1)) => match dec_field(r1) {
            Option::None => Option::None,
            Option::Some((imei, r2)) => match dec_field(r2) {
                Option::None => Option::None,
                Option::Some((seed, r3)) => if r3.len() == 0 {
                    Option::Some(IdentityModel { android_id, imei, seed })
                } else {
                    Option::None
                },
            },
        },
    }
}

/// The serialized form of a session token.
pub open spec fn token_bytes(v: TokenModel) -> Seq<u8> {
    le64(v.uin) + enc_field(v.credential)
}

/// The token a byte string deserializes to, or nothing if malformed.
pub open spec fn token_of_bytes(b: Seq<u8>) -> Option<TokenModel> {
    if b.len() < 8 {
        Option::None
    } else {
        let uin = le64_val(b.subrange(0, 8));
        match dec_field(b.subrange(8, b.len() as int)) {
            Option::None => Option::None,
            Option::Some((credential, rest)) => if rest.len() == 0 {
                Option::Some(TokenModel { uin, credential })
            } else {
                Option::None
            },
        }
    }
}

// ---------------------------------------------------------------------------
// Round trip: whatever is serialized deserializes to the same value.
// ---------------------------------------------------------------------------
proof fn lemma_dec_field_of_enc(f: Seq<u8>, rest: Seq<u8>)
    requires
        f.len() <= 0xffff_ffff,
    ensures
        dec_field(enc_field(f) + rest) == Some((f, rest)),
{
    lemma_le32_round_trip(f.len() as u32);
    let b = enc_field(f) + rest;
    assert(b.len() == 4 + f.len() + rest.len());
    assert(b.subrange(0, 4) =~= le32(f.len() as u32));
    assert(le32_val(b.subrange(0, 4)) == f.len());
    assert(b.subrange(4, 4 + f.len() as int) =~= f);
    assert(b.subrange(4 + f.len() as int, b.len() as int) =~= rest);
}

/// A device identity, serialized and then reloaded, is identical field for
/// field.
pub proof fn lemma_identity_round_trip(v: IdentityModel)
    requires
        v.wf(),
    ensures
        identity_of_bytes(identity_bytes(v)) == Some(v),
{
    let tail2 = enc_field(v.seed);
    let tail1 = enc_field(v.imei) + tail2;
    assert(identity_bytes(v) =~= enc_field(v.android_id) + tail1);
    lemma_dec_field_of_enc(v.android_id, tail1);
    lemma_dec_field_of_enc(v.imei, tail2);
    assert(tail2 =~= enc_field(v.seed) + Seq::<u8>::empty());
    lemma_dec_field_of_enc(v.seed, Seq::<u8>::empty());
}

/// A session token, serialized and then reloaded, is identical field for
/// field.
pub proof fn lemma_token_round_trip(v: TokenModel)
    requires
        v.wf(),
    ensures
        token_of_bytes(token_bytes(v)) == Some(v),
{
    lemma_le64_round_trip(v.uin);
    let b = token_bytes(v);
    assert(b.len() == 8 + enc_field(v.credential).len());
    assert(b.subrange(0, 8) =~= le64(v.uin));
    assert(b.subrange(8, b.len() as int) =~= enc_field(v.credential) + Seq::<u8>::empty());
    lemma_dec_field_of_enc(v.credential, Seq::<u8>::empty());
}

// ---------------------------------------------------------------------------
// Executable serialization
// ---------------------------------------------------------------------------
fn push_bytes(out: &mut Vec<u8>, data: &Vec<u8>)
    ensures
        final (out)@ == old(out)@ + data@,
{
    let n = data.len();
    let mut j: usize = 0;
    while j < n
        invariant
            n == data.len(),
            j <= n,
            out@ == old(out)@ + data@.subrange(0, j as int),
        decreases n - j,
    {
        out.push(data[j]);
        proof {
            assert(old(out)@ + data@.subrange(0, j as int) + seq![data@[j as int]] =~= old(out)@
                + data@.subrange(0, j + 1 as int));
        }
        j = j + 1;
    }
    proof {
        assert(data@.subrange(0, n as int) =~= data@);
    }
}

fn push_le32(out: &mut Vec<u8>, n: u32)
    ensures
        final (out)@ == old(out)@ + le32(n),
{
    out.push((n & 0xff) as u8);
    out.push(((n >> 8) & 0xff) as u8);
    out.push(((n >> 16) & 0xff) as u8);
    out.push(((n >> 24) & 0xff) as u8);
    proof {
        assert(out@ =~= old(out)@ + le32(n));
    }
}

fn push_le64(out: &mut Vec<u8>, n: u64)
    ensures
        final (out)@ == old(out)@ + le64(n),
{
    out.push((n & 0xff) as u8);
    out.push(((n >> 8) & 0xff) as u8);
    out.push(((n >> 16) & 0xff) as u8);
    out.push(((n >> 24) & 0xff) as u8);
    out.push(((n >> 32) & 0xff) as u8);
    out.push(((n >> 40) & 0xff) as u8);
    out.push(((n >> 48) & 0xff) as u8);
    out.push(((n >> 56) & 0xff) as u8);
    proof {
        assert(out@ =~= old(out)@ + le64(n));
    }
}

fn push_field(out: &mut Vec<u8>, data: &Vec<u8>)
    requires
        data@.len() <= 0xffff_ffff,
    ensures
        final (out)@ == old(out)@ + enc_field(data@),
{
    push_le32(out, data.len() as u32);
    push_bytes(out, data);
    proof {
        assert(out@ =~= old(out)@ + enc_field(data@));
    }
}

/// Serializes a device identity for the identity file.
pub fn encode_identity(d: &DeviceIdentity) -> (r: Vec<u8>)
    requires
        d.wf(),
    ensures
        r@ == identity_bytes(d@),
{
    let mut out: Vec<u8> = Vec::new();
    push_field(&mut out, &d.android_id);
    push_field(&mut out, &d.imei);
    push_field(&mut out, &d.seed);
    proof {
        assert(out@ =~= identity_bytes(d@));
    }
    out
}

/// Serializes a session token for the token file.
pub fn encode_token(t: &SessionToken) -> (r: Vec<u8>)
    requires
        t.wf(),
    ensures
        r@ == token_bytes(t@),
{
    let mut out: Vec<u8> = Vec::new();
    push_le64(&mut out, t.uin);
    push_field(&mut out, &t.credential);
    proof {
        assert(out@ =~= token_bytes(t@));
    }
    out
}

// ---------------------------------------------------------------------------
// Executable deserialization
// ---------------------------------------------------------------------------
fn read_le32(b: &Vec<u8>, pos: usize) -> (n: u32)
    requires
        pos + 4 <= b@.len(),
    ensures
        n == le32_val(b@.subrange(pos as int, pos + 4 as int)),
{
    let blen = b.len();
    let n = (b[pos] as u32) | ((b[pos + 1] as u32) << 8) | ((b[pos + 2] as u32) << 16) | ((b[pos
        + 3] as u32) << 24);
    proof {
        let s = b@.subrange(pos as int, pos + 4 as int);
        assert(s[0] == b@[pos as int]);
        assert(s[1] == b@[pos + 1]);
        assert(s[2] == b@[pos + 2]);
        assert(s[3] == b@[pos + 3]);
    }
    n
}

fn read_le64(b: &Vec<u8>, pos: usize) -> (n: u64)
    requires
        pos + 8 <= b@.len(),
    ensures
        n == le64_val(b@.subrange(pos as int, pos + 8 as int)),
{
    let blen = b.len();
    let n = (b[pos] as u64) | ((b[pos + 1] as u64) << 8) | ((b[pos + 2] as u64) << 16) | ((b[pos
        + 3] as u64) << 24) | ((b[pos + 4] as u64) << 32) | ((b[pos + 5] as u64) << 40) | ((b[pos
        + 6] as u64) << 48) | ((b[pos + 7] as u64) << 56);
    proof {
        let s = b@.subrange(pos as int, pos + 8 as int);
        assert(s[0] == b@[pos as int]);
        assert(s[1] == b@[pos + 1]);
        assert(s[2] == b@[pos + 2]);
        assert(s[3] == b@[pos + 3]);
        assert(s[4] == b@[pos + 4]);
        assert(s[5] == b@[pos + 5]);
        assert(s[6] == b@[pos + 6]);
        assert(s[7] == b@[pos + 7]);
    }
    n
}

/// Reads one length-prefixed field starting at `pos`; on success returns the
/// field and the position just past it.
fn read_field(b: &Vec<u8>, pos: usize) -> (r: Option<(Vec<u8>, usize)>)
    requires
        pos <= b@.len(),
    ensures
        match r {
            Some(p) => {
                &&& pos + 4 <= p.1 <= b@.len()
                &&& dec_field(b@.subrange(pos as int, b@.len() as int)) == Some(
                    (p.0@, b@.subrange(p.1 as int, b@.len() as int)),
                )
            },
            None => dec_field(b@.subrange(pos as int, b@.len() as int)) is None,
        },
{
    let ghost tail = b@.subrange(pos as int, b@.len() as int);
    let avail = b.len() - pos;
    if avail < 4 {
        return None;
    }
    let n32 = read_le32(b, pos);
    proof {
        assert(tail.subrange(0, 4) =~= b@.subrange(pos as int, pos + 4 as int));
    }
    let n = n32 as usize;
    if n > avail - 4 {
        return None;
    }
    let limit = pos + 4 + n;
    let mut f: Vec<u8> = Vec::new();
    let mut j: usize = pos + 4;
    while j < limit
        invariant
            pos + 4 <= j <= limit,
            limit <= b@.len(),
            f@ == b@.subrange(pos + 4 as int, j as int),
        decreases limit - j,
    {
        f.push(b[j]);
        proof {
            assert(b@.subrange(pos + 4 as int, j as int) + seq![b@[j as int]] =~= b@.subrange(
                pos + 4 as int,
                j + 1 as int,
            ));
        }
        j = j + 1;
    }
    proof {
        assert(tail.subrange(4, 4 + n as int) =~= b@.subrange(pos + 4 as int, limit as int));
        assert(tail.subrange(4 + n as int, tail.len() as int) =~= b@.subrange(
            limit as int,
            b@.len() as int,
        ));
    }
    Some((f, limit))
}

/// Deserializes a device identity from the identity file's bytes; nothing if
/// the bytes are malformed (a fatal condition for the caller).
#[verifier::rlimit(50)]
pub fn decode_identity(b: &Vec<u8>) -> (r: Option<DeviceIdentity>)
    ensures
        match r {
            Some(d) => d.wf() && identity_of_bytes(b@) == Some(d@),
            None => identity_of_bytes(b@) is None,
        },
{
    proof {
        assert(b@.subrange(0, b@.len() as int) =~= b@);
    }
    let r1 = read_field(b, 0);
    match r1 {
        None => None,
        Some((android_id, p1)) => {
            let r2 = read_field(b, p1);
            match r2 {
                None => None,
                Some((imei, p2)) => {
                    let r3 = read_field(b, p2);
                    match r3 {
                        None => None,
                        Some((seed, p3)) => {
                            if p3 == b.len() {
                                proof {
                                    assert(b@.subrange(p3 as int, b@.len() as int).len() == 0);
                                }
                                Some(DeviceIdentity { android_id, imei, seed })
                            } else {
                                None
                            }
                        },
                    }
                },
            }
        },
    }
}

/// Deserializes a session token from the token file's bytes; nothing if the
/// bytes are malformed (a fatal condition for the caller).
pub fn decode_token(b: &Vec<u8>) -> (r: Option<SessionToken>)
    ensures
        match r {
            Some(t) => t.wf() && token_of_bytes(b@) == Some(t@),
            None => token_of_bytes(b@) is None,
        },
{
    if b.len() < 8 {
        return None;
    }
    let uin = read_le64(b, 0);
    proof {
        assert(b@.subrange(0, 8) =~= b@.subrange(0 as int, 0 + 8 as int));
    }
    let r1 = read_field(b, 8);
    match r1 {
        None => {
            proof {
                assert(b@.subrange(8, b@.len() as int) =~= b@.subrange(8 as int, b@.len() as int));
            }
            None
        },
        Some((credential, p1)) => {
            if p1 == b.len() {
                proof {
                    assert(b@.subrange(p1 as int, b@.len() as int).len() == 0);
                }
                Some(SessionToken { uin, credential })
            } else {
                None
            }
        },
    }
}

// ---------------------------------------------------------------------------
// Store rules
// ---------------------------------------------------------------------------
/// A persisted file whose content cannot be understood. Fatal: the process
/// must not continue with a fingerprint or credential it cannot trust.
#[derive(Clone, Copy, Debug, PartialEq, Eq, Structural)]
pub enum StoreError {
    CorruptIdentity,
    CorruptToken,
}

/// The identity store's rule. `existing` is the identity file's content, or
/// nothing if the file is absent. An existing identity is parsed and returned
/// unchanged; a malformed one is fatal; an absent one is replaced by `fresh`,
/// whose serialized bytes are returned so the caller persists them.
pub fn load_or_create_identity(existing: Option<&Vec<u8>>, fresh: DeviceIdentity) -> (r: Result<
    (DeviceIdentity, Option<Vec<u8>>),
    StoreError,
>)
    requires
        fresh.wf(),
    ensures
        match existing {
            Some(b) => match identity_of_bytes(b@) {
                Some(v) => {
                    &&& r is Ok
                    &&& r->Ok_0.0@ == v
                    &&& r->Ok_0.0.wf()
                    &&& r->Ok_0.1 is None
                },
                None => r == Err::<(DeviceIdentity, Option<Vec<u8>>), StoreError>(
                    StoreError::CorruptIdentity,
                ),
            },
            None => {
                &&& r is Ok
                &&& r->Ok_0.0 == fresh
                &&& r->Ok_0.1 matches Some(bytes) && bytes@ == identity_bytes(fresh@)
            },
        },
{
    match existing {
        Some(b) => match decode_identity(b) {
            Some(d) => Ok((d, None)),
            None => Err(StoreError::CorruptIdentity),
        },
        None => {
            let bytes = encode_identity(&fresh);
            Ok((fresh, Some(bytes)))
        },
    }
}

/// The token store's rule. An absent file is the normal first-run condition
/// and yields no token; a malformed file is fatal; otherwise the stored token
/// is returned.
pub fn load_token(existing: Option<&Vec<u8>>) -> (r: Result<Option<SessionToken>, StoreError>)
    ensures
        match existing {
            None => r == Ok::<Option<SessionToken>, StoreError>(None),
            Some(b) => match token_of_bytes(b@) {
                Some(v) => r matches Ok(Some(t)) && t@ == v && t.wf(),
                None => r == Err::<Option<SessionToken>, StoreError>(StoreError::CorruptToken),
            },
        },
{
    match existing {
        None => Ok(None),
        Some(b) => match decode_token(b) {
            Some(t) => Ok(Some(t)),
            None => Err(StoreError::CorruptToken),
        },
    }
}

} // verus!
