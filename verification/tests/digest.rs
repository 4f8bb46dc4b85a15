use fudge_core::digest::{Error, FudgeAuraDigest, FudgeBabeDigest};
use fudge_core::inherent::timestamp::{CurrTimeProvider, Instances};

#[test]
fn aura_slot_is_timestamp_over_duration() {
    let mut instances = Instances::new();
    let id = CurrTimeProvider::create_instance(&mut instances, 6_000, Some(12_500)).unwrap();
    let clock = CurrTimeProvider::get_instance(&instances, id).unwrap();
    let mut data = sp_inherents::InherentData::new();
    clock.provide_inherent_data(&mut instances, &mut data).unwrap();
    let aura: FudgeAuraDigest<()> = FudgeAuraDigest::new(6_000);
    assert_eq!(aura.slot(&data).unwrap(), 2);
}

#[test]
fn aura_needs_a_timestamp() {
    let aura: FudgeAuraDigest<()> = FudgeAuraDigest::new(6_000);
    let data = sp_inherents::InherentData::new();
    assert!(matches!(aura.slot(&data), Err(Error::TimestampInherentDataNotFound)));
    let mut bad = sp_inherents::InherentData::new();
    bad.put_data(*b"timstap0", &5u8).unwrap();
    assert!(matches!(aura.slot(&bad), Err(Error::TimestampInherentDataRetrieval(_))));
}

#[test]
fn babe_slot_is_read_from_the_inherent_data() {
    let babe: FudgeBabeDigest<()> = FudgeBabeDigest::new();
    let mut data = sp_inherents::InherentData::new();
    assert!(matches!(babe.slot(&data), Err(Error::BabeInherentDataNotFound)));
    data.put_data(*b"babeslot", &42u64).unwrap();
    assert_eq!(babe.slot(&data).unwrap(), 42);
    let mut bad = sp_inherents::InherentData::new();
    bad.put_data(*b"babeslot", &1u16).unwrap();
    assert!(matches!(babe.slot(&bad), Err(Error::BabeInherentDataRetrieval(_))));
}
