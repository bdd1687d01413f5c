use wrds::decoder::oda_identifier::{OdaApplication, OdaError, OdaIdentifier};
use wrds::types::{GroupType, GroupVariant};

#[test]
fn only_rt_plus_is_a_known_application() {
    assert_eq!(OdaApplication::try_from(0x4BD7), Ok(OdaApplication::RtPlus));
    assert_eq!(OdaApplication::try_from(0x4BD8), Err(OdaError::UnknownAid(0x4BD8)));
    assert_eq!(OdaApplication::try_from(0), Err(OdaError::UnknownAid(0)));
    assert_eq!(OdaApplication::try_from(0xFFFF), Err(OdaError::UnknownAid(0xFFFF)));
}

#[test]
fn new_registry_is_empty() {
    let oda = OdaIdentifier::new();
    for gt in 0..16 {
        assert!(!oda.is_registered(GroupType(gt), GroupVariant::A));
        assert_eq!(oda.get_app(GroupType(gt), GroupVariant::B), None);
    }
}

#[test]
fn registered_slot_is_found_by_type_and_variant() {
    let mut oda = OdaIdentifier::new();
    assert_eq!(oda.add_new_app(GroupType(11), GroupVariant::A, OdaApplication::RtPlus), Ok(()));
    assert!(oda.is_registered(GroupType(11), GroupVariant::A));
    assert_eq!(oda.get_app(GroupType(11), GroupVariant::A), Some(OdaApplication::RtPlus));
    assert!(!oda.is_registered(GroupType(11), GroupVariant::B));
    assert_eq!(oda.get_app(GroupType(11), GroupVariant::B), None);
    assert!(!oda.is_registered(GroupType(12), GroupVariant::A));
}

#[test]
fn fifth_slot_is_rejected() {
    let mut oda = OdaIdentifier::new();
    let slots = [
        (GroupType(5), GroupVariant::A),
        (GroupType(5), GroupVariant::B),
        (GroupType(6), GroupVariant::A),
        (GroupType(13), GroupVariant::B),
    ];
    for (gt, gv) in slots {
        assert_eq!(oda.add_new_app(gt, gv, OdaApplication::RtPlus), Ok(()));
    }
    assert_eq!(
        oda.add_new_app(GroupType(7), GroupVariant::A, OdaApplication::RtPlus),
        Err(OdaError::MaxAppsExceeded)
    );
    assert!(!oda.is_registered(GroupType(7), GroupVariant::A));
    for (gt, gv) in slots {
        assert!(oda.is_registered(gt, gv));
        // A slot that is bound is taken again, also by a full registry.
        assert_eq!(oda.add_new_app(gt, gv, OdaApplication::RtPlus), Ok(()));
    }
    assert_eq!(
        oda.add_new_app(GroupType(6), GroupVariant::B, OdaApplication::RtPlus),
        Err(OdaError::MaxAppsExceeded)
    );
}
