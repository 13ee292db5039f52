//! Bundles: a manifest blob together, optionally, with the resource
//! blobs it describes, each filed under the location that names it, and
//! a stable byte encoding of the whole for standalone distribution.

use vstd::prelude::*;
use crate::codec::{clone_bytes, enc_bytes, enc_u64, push_bytes, push_u64};

verus! {

/// An opaque byte blob: a serialized manifest or resource.
#[derive(Debug, PartialEq, Eq)]
pub struct Blob(pub Vec<u8>);

impl View for Blob {
    type V = Seq<u8>;

    open spec fn view(&self) -> Seq<u8> {
        self.0@
    }
}

impl Clone for Blob {
    fn clone(&self) -> (r: Self)
        ensures
            r@ == self@,
    {
        Blob(clone_bytes(&self.0))
    }
}

/// The value of a location.
pub enum LocationModel {
    Bundled(Seq<u8>),
    Path(Seq<u8>),
    Url(Seq<u8>),
}

/// Where a resource lives: bundled under a relative path, at a local
/// path, or behind a URL. The name is carried as raw path or URL bytes.
#[derive(Debug, PartialEq, Eq)]
pub enum Location {
    /// Expected to be bundled, under the given relative path.
    Bundled(Vec<u8>),
    /// At a local filesystem path.
    Path(Vec<u8>),
    /// Behind a URL.
    Url(Vec<u8>),
}

impl View for Location {
    type V = LocationModel;

    open spec fn view(&self) -> LocationModel {
        match *self {
            Location::Bundled(ref p) => LocationModel::Bundled(p@),
            Location::Path(ref p) => LocationModel::Path(p@),
            Location::Url(ref u) => LocationModel::Url(u@),
        }
    }
}

impl Clone for Location {
    fn clone(&self) -> (r: Self)
        ensures
            r@ == self@,
    {
        match *self {
            Location::Bundled(ref p) => Location::Bundled(clone_bytes(p)),
            Location::Path(ref p) => Location::Path(clone_bytes(p)),
            Location::Url(ref u) => Location::Url(clone_bytes(u)),
        }
    }
}

/// Whether two locations name the same place.
pub fn loc_eq(a: &Location, b: &Location) -> (r: bool)
    ensures
        r == (a@ == b@),
{
    match (a, b) {
        (Location::Bundled(ref p), Location::Bundled(ref q)) => crate::codec::bytes_eq(p, q),
        (Location::Path(ref p), Location::Path(ref q)) => crate::codec::bytes_eq(p, q),
        (Location::Url(ref p), Location::Url(ref q)) => crate::codec::bytes_eq(p, q),
        _ => false,
    }
}

/// The value of a bundle.
pub struct BundleModel {
    pub manifest: Seq<u8>,
    pub resources: Seq<(LocationModel, Seq<u8>)>,
}

/// No two resources are filed under the same location.
pub open spec fn distinct_locations(rs: Seq<(LocationModel, Seq<u8>)>) -> bool {
    forall|i: int, j: int| 0 <= i < j < rs.len() ==> (#[trigger] rs[i]).0 != (#[trigger] rs[j]).0
}

/// The blob filed under a location: the first entry that matches.
pub open spec fn lookup_resource(
    rs: Seq<(LocationModel, Seq<u8>)>,
    l: LocationModel,
) -> Option<Seq<u8>>
    decreases rs.len(),
{
    if rs.len() == 0 {
        None
    } else if rs[0].0 == l {
        Some(rs[0].1)
    } else {
        lookup_resource(rs.drop_first(), l)
    }
}

/// A bundle attempted over two resources with one name.
#[derive(Debug, Clone, Copy, PartialEq, Eq, Structural)]
pub struct DuplicateLocationError;

// ---------------------------------------------------------------------
// Reading the encoding back.
// ---------------------------------------------------------------------

/// The integer value of the eight little-endian bytes at `pos`.
pub open spec fn le_u64_at(s: Seq<u8>, pos: int) -> int {
    s[pos] as int + 256 * (s[pos + 1] as int) + 65536 * (s[pos + 2] as int) + 16777216 * (s[pos
        + 3] as int) + 4294967296 * (s[pos + 4] as int) + 1099511627776 * (s[pos + 5] as int)
        + 281474976710656 * (s[pos + 6] as int) + 72057594037927936 * (s[pos + 7] as int)
}

/// Reads a 64-bit little-endian integer: its value and the position
/// after it, if eight bytes are there.
pub open spec fn rd_u64(s: Seq<u8>, pos: int) -> Option<(u64, int)> {
    if 0 <= pos && pos + 8 <= s.len() {
        Some((le_u64_at(s, pos) as u64, pos + 8))
    } else {
        None
    }
}

/// Reads a length-prefixed byte string: the bytes and the position
/// after them, if the prefix and that many bytes are there.
pub open spec fn rd_bytes(s: Seq<u8>, pos: int) -> Option<(Seq<u8>, int)> {
    match rd_u64(s, pos) {
        None => None,
        Some((n, p)) => if p + n <= s.len() {
            Some((s.subrange(p, p + n), p + n))
        } else {
            None
        },
    }
}

/// Reads one filed resource: its location tag and two byte strings.
pub open spec fn rd_resource(s: Seq<u8>, pos: int) -> Option<((LocationModel, Seq<u8>), int)> {
    if !(0 <= pos < s.len()) {
        None
    } else {
        let tag = s[pos];
        if tag != 1 && tag != 2 && tag != 3 {
            None
        } else {
            match rd_bytes(s, pos + 1) {
                None => None,
                Some((name, p2)) => match rd_bytes(s, p2) {
                    None => None,
                    Some((blob, p3)) => {
                        let loc = if tag == 1 {
                            LocationModel::Bundled(name)
                        } else if tag == 2 {
                            LocationModel::Path(name)
                        } else {
                            LocationModel::Url(name)
                        };
                        Some(((loc, blob), p3))
                    },
                },
            }
        }
    }
}

/// Reads `count` filed resources in order.
pub open spec fn rd_resources(s: Seq<u8>, pos: int, count: u64) -> Option<
    (Seq<(LocationModel, Seq<u8>)>, int),
>
    decreases count,
{
    if count == 0 {
        Some((Seq::<(LocationModel, Seq<u8>)>::empty(), pos))
    } else {
        match rd_resource(s, pos) {
            None => None,
            Some((entry, p2)) => match rd_resources(s, p2, (count - 1) as u64) {
                None => None,
                Some((rest, p3)) => Some((seq![entry] + rest, p3)),
            },
        }
    }
}

/// What a byte string decodes to: the bundle whose encoding it is, or
/// nothing if it is no bundle's encoding.
pub open spec fn decode_bundle(s: Seq<u8>) -> Option<BundleModel> {
    match rd_bytes(s, 0) {
        None => None,
        Some((manifest, p1)) => match rd_u64(s, p1) {
            None => None,
            Some((count, p2)) => match rd_resources(s, p2, count) {
                None => None,
                Some((resources, p3)) => if p3 == s.len() {
                    Some(BundleModel { manifest, resources })
                } else {
                    None
                },
            },
        },
    }
}

/// The bytes are no bundle's encoding.
#[derive(Debug, Clone, Copy, PartialEq, Eq, Structural)]
pub struct BundleDecodeError;

/// Reads a 64-bit little-endian integer from a byte vector.
fn read_u64(bytes: &Vec<u8>, pos: usize) -> (r: Option<(u64, usize)>)
    ensures
        match r {
            Some((v, p)) => rd_u64(bytes@, pos as int) == Some((v, p as int)),
            None => rd_u64(bytes@, pos as int) is None,
        },
{
    if pos > bytes.len() || bytes.len() - pos < 8 {
        return None;
    }
    let v: u64 = bytes[pos] as u64 + 256 * (bytes[pos + 1] as u64) + 65536 * (bytes[pos
        + 2] as u64) + 16777216 * (bytes[pos + 3] as u64) + 4294967296 * (bytes[pos + 4] as u64)
        + 1099511627776 * (bytes[pos + 5] as u64) + 281474976710656 * (bytes[pos + 6] as u64)
        + 72057594037927936 * (bytes[pos + 7] as u64);
    Some((v, pos + 8))
}

/// Reads a length-prefixed byte string from a byte vector.
fn read_bytes(bytes: &Vec<u8>, pos: usize) -> (r: Option<(Vec<u8>, usize)>)
    ensures
        match r {
            Some((v, p)) => rd_bytes(bytes@, pos as int) == Some((v@, p as int)),
            None => rd_bytes(bytes@, pos as int) is None,
        },
{
    match read_u64(bytes, pos) {
        None => None,
        Some((n, p)) => {
            if n > (bytes.len() - p) as u64 {
                return None;
            }
            let n_usize = n as usize;
            let len = bytes.len();
            let mut out: Vec<u8> = Vec::new();
            let mut i: usize = 0;
            while i < n_usize
                invariant
                    i <= n_usize,
                    p + n_usize <= len,
                    len == bytes@.len(),
                    out@ == bytes@.subrange(p as int, p as int + i as int),
                decreases n_usize - i,
            {
                out.push(bytes[p + i]);
                assert(out@ =~= bytes@.subrange(p as int, p as int + i as int + 1));
                i = i + 1;
            }
            Some((out, p + n_usize))
        },
    }
}

/// Reads one filed resource from a byte vector.
fn read_resource(bytes: &Vec<u8>, pos: usize) -> (r: Option<((Location, Blob), usize)>)
    ensures
        match r {
            Some((entry, p)) => rd_resource(bytes@, pos as int) == Some(
                ((entry.0@, entry.1@), p as int),
            ),
            None => rd_resource(bytes@, pos as int) is None,
        },
{
    if pos >= bytes.len() {
        return None;
    }
    let tag = bytes[pos];
    if tag != 1 && tag != 2 && tag != 3 {
        return None;
    }
    let (name, p2) = match read_bytes(bytes, pos + 1) {
        Some(x) => x,
        None => {
            return None;
        },
    };
    let (blob, p3) = match read_bytes(bytes, p2) {
        Some(x) => x,
        None => {
            return None;
        },
    };
    let loc = if tag == 1 {
        Location::Bundled(name)
    } else if tag == 2 {
        Location::Path(name)
    } else {
        Location::Url(name)
    };
    Some(((loc, Blob(blob)), p3))
}

// ---------------------------------------------------------------------
// Decoding reads back exactly what encoding wrote.
// ---------------------------------------------------------------------

/// The payload bytes of a location, whichever kind it is.
pub open spec fn loc_payload(l: LocationModel) -> Seq<u8> {
    match l {
        LocationModel::Bundled(p) => p,
        LocationModel::Path(p) => p,
        LocationModel::Url(u) => u,
    }
}

/// Every length the encoding writes fits its 64-bit prefix.
pub open spec fn bounded_bundle(b: BundleModel) -> bool {
    &&& b.manifest.len() <= u64::MAX
    &&& b.resources.len() <= u64::MAX
    &&& forall|i: int| 0 <= i < b.resources.len() ==> {
        &&& loc_payload((#[trigger] b.resources[i]).0).len() <= u64::MAX
        &&& b.resources[i].1.len() <= u64::MAX
    }
}

/// A 64-bit integer is the sum of its little-endian base-256 digits.
proof fn lemma_u64_digits(n: u64)
    ensures
        n % 256 + 256 * ((n / 256) % 256) + 65536 * ((n / 65536) % 256) + 16777216 * ((n
            / 16777216) % 256) + 4294967296 * ((n / 4294967296) % 256) + 1099511627776 * ((n
            / 1099511627776) % 256) + 281474976710656 * ((n / 281474976710656) % 256)
            + 72057594037927936 * (n / 72057594037927936) == n,
        n / 72057594037927936 < 256,
{
    assert(n % 256 + 256 * ((n / 256) % 256) + 65536 * ((n / 65536) % 256) + 16777216 * ((n
        / 16777216) % 256) + 4294967296 * ((n / 4294967296) % 256) + 1099511627776 * ((n
        / 1099511627776) % 256) + 281474976710656 * ((n / 281474976710656) % 256)
        + 72057594037927936 * (n / 72057594037927936) == n) by (bit_vector);
    assert(n / 72057594037927936 < 256) by (bit_vector);
}

/// Reading eight bytes written as a 64-bit integer gives it back.
proof fn lemma_rd_u64_at(s: Seq<u8>, pos: int, n: u64)
    requires
        0 <= pos,
        pos + 8 <= s.len(),
        s.subrange(pos, pos + 8) == enc_u64(n),
    ensures
        rd_u64(s, pos) == Some((n, pos + 8)),
{
    let w = s.subrange(pos, pos + 8);
    assert forall|k: int| 0 <= k < 8 implies s[pos + k] == w[k] by {}
    lemma_u64_digits(n);
    assert(le_u64_at(s, pos) == n);
}

/// Reading a length-prefixed byte string written whole gives it back.
proof fn lemma_rd_bytes_at(s: Seq<u8>, pos: int, payload: Seq<u8>)
    requires
        payload.len() <= u64::MAX,
        0 <= pos,
        pos + 8 + payload.len() <= s.len(),
        s.subrange(pos, pos + 8 + payload.len()) == enc_bytes(payload),
    ensures
        rd_bytes(s, pos) == Some((payload, pos + 8 + payload.len())),
{
    let n = payload.len() as u64;
    let big = s.subrange(pos, pos + 8 + payload.len());
    assert forall|k: int| 0 <= k < 8 + payload.len() implies s[pos + k] == enc_bytes(
        payload,
    )[k] by {
        assert(big[k] == s[pos + k]);
    }
    assert(s.subrange(pos, pos + 8) =~= enc_u64(n)) by {
        assert forall|k: int| 0 <= k < 8 implies s.subrange(pos, pos + 8)[k] == enc_u64(n)[k] by {
            assert(s[pos + k] == enc_bytes(payload)[k]);
            assert(enc_bytes(payload)[k] == enc_u64(n)[k]);
        }
    }
    lemma_rd_u64_at(s, pos, n);
    assert(s.subrange(pos + 8, pos + 8 + payload.len()) =~= payload) by {
        assert forall|k: int| 0 <= k < payload.len() implies s.subrange(
            pos + 8,
            pos + 8 + payload.len(),
        )[k] == payload[k] by {
            assert(s[pos + 8 + k] == enc_bytes(payload)[8 + k]);
            assert(enc_bytes(payload)[8 + k] == payload[k]);
        }
    }
}

/// Reading one filed resource written whole gives it back.
#[verifier::rlimit(50)]
proof fn lemma_rd_resource_at(s: Seq<u8>, pos: int, entry: (LocationModel, Seq<u8>))
    requires
        loc_payload(entry.0).len() <= u64::MAX,
        entry.1.len() <= u64::MAX,
        0 <= pos,
        pos + enc_resource(entry).len() <= s.len(),
        s.subrange(pos, pos + enc_resource(entry).len()) == enc_resource(entry),
    ensures
        rd_resource(s, pos) == Some((entry, pos + enc_resource(entry).len())),
{
    let name = loc_payload(entry.0);
    let blob = entry.1;
    let e = enc_resource(entry);
    assert(e =~= seq![e[0]] + enc_bytes(name) + enc_bytes(blob));
    let big = s.subrange(pos, pos + e.len());
    assert forall|k: int| 0 <= k < e.len() implies s[pos + k] == e[k] by {
        assert(big[k] == s[pos + k]);
    }
    assert(s[pos] == e[0]);
    let p1 = pos + 1;
    assert(s.subrange(p1, p1 + 8 + name.len()) =~= enc_bytes(name)) by {
        assert forall|k: int| 0 <= k < 8 + name.len() implies s.subrange(
            p1,
            p1 + 8 + name.len(),
        )[k] == enc_bytes(name)[k] by {
            assert(s[p1 + k] == e[1 + k]);
            assert(e[1 + k] == enc_bytes(name)[k]);
        }
    }
    lemma_rd_bytes_at(s, p1, name);
    let p2 = p1 + 8 + name.len();
    assert(s.subrange(p2, p2 + 8 + blob.len()) =~= enc_bytes(blob)) by {
        assert forall|k: int| 0 <= k < 8 + blob.len() implies s.subrange(
            p2,
            p2 + 8 + blob.len(),
        )[k] == enc_bytes(blob)[k] by {
            assert(s[p2 + k] == e[1 + 8 + name.len() + k]);
            assert(e[1 + 8 + name.len() + k] == enc_bytes(blob)[k]);
        }
    }
    lemma_rd_bytes_at(s, p2, blob);
}

/// A resource list encodes as its first entry followed by the rest.
proof fn lemma_enc_resources_head(rs: Seq<(LocationModel, Seq<u8>)>)
    requires
        rs.len() > 0,
    ensures
        enc_resources(rs) == enc_resource(rs.first()) + enc_resources(rs.drop_first()),
    decreases rs.len(),
{
    if rs.len() == 1 {
        assert(rs.drop_last() =~= Seq::<(LocationModel, Seq<u8>)>::empty());
        assert(rs.drop_first() =~= Seq::<(LocationModel, Seq<u8>)>::empty());
        assert(rs.last() == rs.first());
        assert(enc_resources(rs) =~= enc_resource(rs.first()) + enc_resources(rs.drop_first()));
    } else {
        let head = rs.drop_last();
        lemma_enc_resources_head(head);
        assert(head.first() == rs.first());
        assert(head.drop_first() =~= rs.drop_first().drop_last());
        assert(rs.drop_first().last() == rs.last());
        assert(enc_resources(rs) == enc_resources(head) + enc_resource(rs.last()));
        assert(enc_resources(rs.drop_first()) == enc_resources(rs.drop_first().drop_last())
            + enc_resource(rs.drop_first().last()));
        assert(enc_resources(rs) =~= enc_resource(rs.first()) + enc_resources(rs.drop_first()));
    }
}

/// Reading a resource list written whole gives it back, entry by entry.
#[verifier::rlimit(50)]
proof fn lemma_rd_resources_at(s: Seq<u8>, pos: int, rs: Seq<(LocationModel, Seq<u8>)>)
    requires
        rs.len() <= u64::MAX,
        forall|i: int| 0 <= i < rs.len() ==> {
            &&& loc_payload((#[trigger] rs[i]).0).len() <= u64::MAX
            &&& rs[i].1.len() <= u64::MAX
        },
        0 <= pos,
        pos + enc_resources(rs).len() <= s.len(),
        s.subrange(pos, pos + enc_resources(rs).len()) == enc_resources(rs),
    ensures
        rd_resources(s, pos, rs.len() as u64) == Some((rs, pos + enc_resources(rs).len())),
    decreases rs.len(),
{
    if rs.len() == 0 {
        assert(rs =~= Seq::<(LocationModel, Seq<u8>)>::empty());
    } else {
        lemma_enc_resources_head(rs);
        let first = rs.first();
        let rest = rs.drop_first();
        let e0 = enc_resource(first);
        let all = enc_resources(rs);
        assert(rs[0] == first);
        let big = s.subrange(pos, pos + all.len());
        assert forall|k: int| 0 <= k < all.len() implies s[pos + k] == all[k] by {
            assert(big[k] == s[pos + k]);
        }
        assert(s.subrange(pos, pos + e0.len()) =~= e0) by {
            assert forall|k: int| 0 <= k < e0.len() implies s.subrange(pos, pos + e0.len())[k]
                == e0[k] by {
                assert(s[pos + k] == all[k]);
                assert(all[k] == e0[k]);
            }
        }
        lemma_rd_resource_at(s, pos, first);
        let p2 = pos + e0.len();
        assert(s.subrange(p2, p2 + enc_resources(rest).len()) =~= enc_resources(rest)) by {
            assert forall|k: int| 0 <= k < enc_resources(rest).len() implies s.subrange(
                p2,
                p2 + enc_resources(rest).len(),
            )[k] == enc_resources(rest)[k] by {
                assert(s[p2 + k] == all[e0.len() + k]);
                assert(all[e0.len() + k] == enc_resources(rest)[k]);
            }
        }
        assert forall|i: int| 0 <= i < rest.len() implies {
            &&& loc_payload((#[trigger] rest[i]).0).len() <= u64::MAX
            &&& rest[i].1.len() <= u64::MAX
        } by {
            assert(rest[i] == rs[i + 1]);
        }
        lemma_rd_resources_at(s, p2, rest);
        assert((rs.len() as u64 - 1) as u64 == rest.len() as u64);
        assert(seq![first] + rest =~= rs);
    }
}

/// Round trip: decoding what `encode` wrote gives back exactly the
/// bundle that was encoded, for every bundle whose lengths fit the
/// 64-bit prefixes the encoding writes.
#[verifier::rlimit(50)]
pub proof fn lemma_bundle_round_trip(b: BundleModel)
    requires
        bounded_bundle(b),
    ensures
        decode_bundle(enc_bundle(b)) == Some(b),
{
    let s = enc_bundle(b);
    let m = b.manifest;
    let rs = b.resources;
    let p1 = 8 + m.len() as int;
    assert(s.subrange(0, p1) =~= enc_bytes(m));
    lemma_rd_bytes_at(s, 0, m);
    let count = rs.len() as u64;
    assert(s.subrange(p1, p1 + 8) =~= enc_u64(count));
    lemma_rd_u64_at(s, p1, count);
    let p2 = p1 + 8;
    assert(s.subrange(p2, p2 + enc_resources(rs).len()) =~= enc_resources(rs));
    lemma_rd_resources_at(s, p2, rs);
    assert(p2 + enc_resources(rs).len() == s.len());
}

/// A manifest bundled together, optionally, with the resources it
/// describes: meant to be encoded for standalone distribution. The
/// manifest may describe locations of resources not included here.
#[derive(Debug, PartialEq, Eq)]
pub struct Bundle {
    manifest: Blob,
    resources: Vec<(Location, Blob)>,
}

/// The values of a resource list.
pub open spec fn resources_models(rs: Seq<(Location, Blob)>) -> Seq<(LocationModel, Seq<u8>)> {
    rs.map_values(|p: (Location, Blob)| (p.0@, p.1@))
}

impl View for Bundle {
    type V = BundleModel;

    closed spec fn view(&self) -> BundleModel {
        BundleModel { manifest: self.manifest@, resources: resources_models(self.resources@) }
    }
}

/// The encoding of one filed resource: a location tag, the
/// length-prefixed location bytes, then the length-prefixed blob.
pub open spec fn enc_resource(entry: (LocationModel, Seq<u8>)) -> Seq<u8> {
    match entry.0 {
        LocationModel::Bundled(p) => seq![1u8] + enc_bytes(p) + enc_bytes(entry.1),
        LocationModel::Path(p) => seq![2u8] + enc_bytes(p) + enc_bytes(entry.1),
        LocationModel::Url(u) => seq![3u8] + enc_bytes(u) + enc_bytes(entry.1),
    }
}

/// The encoding of a resource list, entry by entry, in order.
pub open spec fn enc_resources(rs: Seq<(LocationModel, Seq<u8>)>) -> Seq<u8>
    decreases rs.len(),
{
    if rs.len() == 0 {
        Seq::<u8>::empty()
    } else {
        enc_resources(rs.drop_last()) + enc_resource(rs.last())
    }
}

/// The encoding of a whole bundle: the length-prefixed manifest, the
/// resource count, then each resource in order.
pub open spec fn enc_bundle(b: BundleModel) -> Seq<u8> {
    enc_bytes(b.manifest) + enc_u64(b.resources.len() as u64) + enc_resources(b.resources)
}

impl Bundle {
    /// No two of this bundle's resources are filed under one location.
    pub open spec fn wf(&self) -> bool {
        distinct_locations(self@.resources)
    }

    /// Files `resources` under their locations, behind `manifest`.
    /// Fails if two resources are filed under the same location, and
    /// then keeps nothing.
    pub fn new(manifest: Blob, resources: Vec<(Location, Blob)>) -> (r: Result<
        Bundle,
        DuplicateLocationError,
    >)
        ensures
            match r {
                Ok(b) => {
                    &&& b@.manifest == manifest@
                    &&& b@.resources == resources_models(resources@)
                    &&& b.wf()
                },
                Err(_) => !distinct_locations(resources_models(resources@)),
            },
    {
        let ghost models = resources_models(resources@);
        let mut i: usize = 0;
        while i < resources.len()
            invariant
                i <= resources@.len(),
                models == resources_models(resources@),
                models.len() == resources@.len(),
                forall|a: int| 0 <= a < models.len() ==> #[trigger] models[a] == (
                    resources@[a].0@,
                    resources@[a].1@,
                ),
                forall|a: int, b: int|
                    0 <= a < i && a < b < models.len() ==> (#[trigger] models[a]).0 != (
                    #[trigger] models[b]).0,
            decreases resources@.len() - i,
        {
            let mut j: usize = i + 1;
            while j < resources.len()
                invariant
                    i < j <= resources@.len(),
                    models == resources_models(resources@),
                    models.len() == resources@.len(),
                    forall|a: int| 0 <= a < models.len() ==> #[trigger] models[a] == (
                        resources@[a].0@,
                        resources@[a].1@,
                    ),
                    forall|b: int| i < b < j ==> models[i as int].0 != (#[trigger] models[b]).0,
                decreases resources@.len() - j,
            {
                if loc_eq(&resources[i].0, &resources[j].0) {
                    assert(models[i as int].0 == models[j as int].0);
                    return Err(DuplicateLocationError);
                }
                j = j + 1;
            }
            i = i + 1;
        }
        Ok(Bundle { manifest, resources })
    }

    /// The resource filed under `location`, if the bundle holds one.
    pub fn resource(&self, location: &Location) -> (r: Option<&Blob>)
        ensures
            match r {
                Some(b) => lookup_resource(self@.resources, location@) == Some(b@),
                None => lookup_resource(self@.resources, location@) is None,
            },
    {
        let mut i: usize = 0;
        proof {
            assert(self@.resources.skip(0) =~= self@.resources);
        }
        while i < self.resources.len()
            invariant
                i <= self@.resources.len(),
                self@.resources.len() == self.resources@.len(),
                forall|a: int| 0 <= a < self@.resources.len() ==> #[trigger] self@.resources[a]
                    == (self.resources@[a].0@, self.resources@[a].1@),
                lookup_resource(self@.resources, location@) == lookup_resource(
                    self@.resources.skip(i as int),
                    location@,
                ),
            decreases self@.resources.len() - i,
        {
            proof {
                assert(self@.resources.skip(i as int)[0] == self@.resources[i as int]);
            }
            if loc_eq(&self.resources[i].0, location) {
                return Some(&self.resources[i].1);
            }
            proof {
                assert(self@.resources.skip(i as int).drop_first() =~= self@.resources.skip(
                    i as int + 1,
                ));
            }
            i = i + 1;
        }
        proof {
            assert(self@.resources.skip(i as int) =~= Seq::<(LocationModel, Seq<u8>)>::empty());
        }
        None
    }

    /// The manifest blob.
    pub fn manifest(&self) -> (r: &Blob)
        ensures
            r@ == self@.manifest,
    {
        &self.manifest
    }

    /// Decodes bytes produced by `encode`. Succeeds exactly on the
    /// byte strings that the decoding relation accepts, and then
    /// returns exactly the bundle they spell.
    pub fn decode(bytes: &Vec<u8>) -> (r: Result<Bundle, BundleDecodeError>)
        ensures
            match r {
                Ok(b) => decode_bundle(bytes@) == Some(b@),
                Err(_) => decode_bundle(bytes@) is None,
            },
    {
        let (manifest, p1) = match read_bytes(bytes, 0) {
            Some(x) => x,
            None => {
                return Err(BundleDecodeError);
            },
        };
        let (count, p2) = match read_u64(bytes, p1) {
            Some(x) => x,
            None => {
                return Err(BundleDecodeError);
            },
        };
        let mut resources: Vec<(Location, Blob)> = Vec::new();
        let mut pos = p2;
        let mut i: u64 = 0;
        proof {
            assert(resources_models(resources@) =~= Seq::<(LocationModel, Seq<u8>)>::empty());
        }
        while i < count
            invariant
                i <= count,
                rd_bytes(bytes@, 0) == Some((manifest@, p1 as int)),
                rd_u64(bytes@, p1 as int) == Some((count, p2 as int)),
                rd_resources(bytes@, p2 as int, count) == (match rd_resources(
                    bytes@,
                    pos as int,
                    (count - i) as u64,
                ) {
                    Some((rest, end)) => Some((resources_models(resources@) + rest, end)),
                    None => None::<(Seq<(LocationModel, Seq<u8>)>, int)>,
                }),
            decreases count - i,
        {
            let (entry, p) = match read_resource(bytes, pos) {
                Some(x) => x,
                None => {
                    proof {
                        assert(rd_resources(bytes@, pos as int, (count - i) as u64) is None);
                    }
                    return Err(BundleDecodeError);
                },
            };
            let ghost pre_models = resources_models(resources@);
            resources.push(entry);
            proof {
                assert(resources_models(resources@) =~= pre_models.push((entry.0@, entry.1@)));
                assert forall|rest: Seq<(LocationModel, Seq<u8>)>| true implies pre_models + (
                seq![(entry.0@, entry.1@)] + rest) =~= resources_models(resources@) + rest by {}
            }
            pos = p;
            i = i + 1;
        }
        if pos != bytes.len() {
            return Err(BundleDecodeError);
        }
        proof {
            assert(resources_models(resources@) + Seq::<(LocationModel, Seq<u8>)>::empty()
                =~= resources_models(resources@));
        }
        Ok(Bundle { manifest: Blob(manifest), resources })
    }

    /// An opaque, stable encoding of the bundle into a byte array: the
    /// same bundle value always encodes to the same bytes.
    pub fn encode(&self) -> (r: Vec<u8>)
        ensures
            r@ == enc_bundle(self@),
    {
        let mut buf: Vec<u8> = Vec::new();
        push_bytes(&mut buf, &self.manifest.0);
        push_u64(&mut buf, self.resources.len() as u64);
        let ghost head = buf@;
        let mut i: usize = 0;
        while i < self.resources.len()
            invariant
                i <= self@.resources.len(),
                self@.resources.len() == self.resources@.len(),
                forall|a: int| 0 <= a < self@.resources.len() ==> #[trigger] self@.resources[a]
                    == (self.resources@[a].0@, self.resources@[a].1@),
                buf@ == head + enc_resources(self@.resources.take(i as int)),
            decreases self@.resources.len() - i,
        {
            let entry = &self.resources[i];
            match entry.0 {
                Location::Bundled(ref p) => {
                    buf.push(1u8);
                    push_bytes(&mut buf, p);
                }
                Location::Path(ref p) => {
                    buf.push(2u8);
                    push_bytes(&mut buf, p);
                }
                Location::Url(ref u) => {
                    buf.push(3u8);
                    push_bytes(&mut buf, u);
                }
            }
            push_bytes(&mut buf, &entry.1.0);
            proof {
                let taken = self@.resources.take(i as int + 1);
                assert(taken.drop_last() =~= self@.resources.take(i as int));
                assert(taken.last() == self@.resources[i as int]);
                assert(buf@ =~= head + enc_resources(taken));
            }
            i = i + 1;
        }
        proof {
            assert(self@.resources.take(self@.resources.len() as int) =~= self@.resources);
        }
        buf
    }
}

} // verus!
