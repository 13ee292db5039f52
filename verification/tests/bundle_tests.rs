//! Bundles at runtime: filing resources under locations, lookup, the
//! stable encoding, and the duplicate-location rejection.

use chain_integrity::bundle::{Blob, Bundle, DuplicateLocationError, Location};

#[test]
fn bundle_test() {
    // A manifest (version "1", named "name") listing two bundled things.
    let manifest = Blob(b"manifest_version=\"1\";name=name".to_vec());
    let location1 = Location::Bundled(b"./1.thing".to_vec());
    let location2 = Location::Bundled(b"./2.thing".to_vec());
    let thing1 = Blob(vec![1]);
    let thing2 = Blob(vec![2]);
    let bundle = Bundle::new(
        manifest,
        vec![(location1.clone(), thing1), (location2.clone(), thing2)],
    )
    .unwrap();
    assert_eq!(bundle.resource(&location1), Some(&Blob(vec![1])));
    assert_eq!(bundle.resource(&location2), Some(&Blob(vec![2])));
}

#[test]
fn missing_resource_is_none() {
    let bundle = Bundle::new(
        Blob(b"m".to_vec()),
        vec![(Location::Path(b"/a".to_vec()), Blob(vec![1]))],
    )
    .unwrap();
    assert_eq!(bundle.resource(&Location::Path(b"/b".to_vec())), None);
    // The same bytes under another location kind are another location.
    assert_eq!(bundle.resource(&Location::Bundled(b"/a".to_vec())), None);
    assert_eq!(bundle.resource(&Location::Url(b"/a".to_vec())), None);
}

#[test]
fn duplicate_locations_are_rejected() {
    let err = Bundle::new(
        Blob(b"m".to_vec()),
        vec![
            (Location::Url(b"https://x".to_vec()), Blob(vec![1])),
            (Location::Url(b"https://x".to_vec()), Blob(vec![2])),
        ],
    )
    .unwrap_err();
    assert_eq!(err, DuplicateLocationError);
}

#[test]
fn encoding_is_stable() {
    let make = || {
        Bundle::new(
            Blob(b"manifest".to_vec()),
            vec![
                (Location::Bundled(b"./1.thing".to_vec()), Blob(vec![1, 2, 3])),
                (Location::Url(b"https://example".to_vec()), Blob(vec![])),
            ],
        )
        .unwrap()
    };
    // The same bundle value always encodes to the same bytes.
    assert_eq!(make().encode(), make().encode());
    // The encoding frames the manifest first.
    let encoded = make().encode();
    assert_eq!(&encoded[0..8], &8u64.to_le_bytes());
    assert_eq!(&encoded[8..16], b"manifest");
    // A different bundle encodes to different bytes.
    let other = Bundle::new(Blob(b"manifest!".to_vec()), vec![]).unwrap();
    assert_ne!(encoded, other.encode());
}

#[test]
fn encode_decode_round_trip() {
    let bundle = Bundle::new(
        Blob(b"round trip manifest".to_vec()),
        vec![
            (Location::Bundled(b"./1.thing".to_vec()), Blob(vec![1, 2, 3])),
            (Location::Path(b"/etc/thing".to_vec()), Blob(vec![])),
            (Location::Url(b"https://example/thing".to_vec()), Blob(vec![255])),
        ],
    )
    .unwrap();
    let decoded = Bundle::decode(&bundle.encode()).unwrap();
    assert_eq!(decoded, bundle);
}

#[test]
fn decode_rejects_mangled_bytes() {
    let bundle = Bundle::new(Blob(b"m".to_vec()), vec![]).unwrap();
    let mut encoded = bundle.encode();
    assert!(Bundle::decode(&encoded).is_ok());
    // Trailing garbage is rejected.
    encoded.push(0);
    assert!(Bundle::decode(&encoded).is_err());
    // A truncated prefix is rejected.
    assert!(Bundle::decode(&b"1234567".to_vec()).is_err());
    // A lying length prefix is rejected.
    let mut lying = 100u64.to_le_bytes().to_vec();
    lying.extend_from_slice(b"short");
    assert!(Bundle::decode(&lying).is_err());
}

#[test]
fn empty_bundle_encodes_counts() {
    let bundle = Bundle::new(Blob(vec![]), vec![]).unwrap();
    let encoded = bundle.encode();
    // Length-prefixed empty manifest, then a zero resource count.
    assert_eq!(encoded, vec![0u8; 16]);
    assert_eq!(bundle.manifest(), &Blob(vec![]));
}
