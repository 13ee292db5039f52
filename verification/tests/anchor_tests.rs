//! The anchor entry definition at runtime.

use chain_integrity::anchor::{Anchor, CrdtType, RequiredValidations, REQUIRED_VALIDATIONS};
use chain_integrity::entry::EntryVisibility;

#[test]
fn anchor_entry_def() {
    let def = Anchor::entry_def();
    assert_eq!(def.id.0, "holochain_anchors::anchor");
    assert_eq!(def.crdt_type, CrdtType);
    assert_eq!(def.required_validations, RequiredValidations(13));
    assert_eq!(def.required_validations.0, REQUIRED_VALIDATIONS);
    assert_eq!(def.visibility, EntryVisibility::Public);
}

#[test]
fn default_anchor_is_empty() {
    let anchor = Anchor::default();
    assert_eq!(anchor.0, "");
    let named = Anchor(String::from("threads"));
    assert_eq!(named.clone(), named);
}
