use thanatonaut::state::activity_director::ActivityDirector;

#[test]
fn test_destination_manifest_retrieval() {
    let destinations = ActivityDirector::get_available_destinations();
    assert!(destinations.len() >= 8);

    let titan = ActivityDirector::lookup_destination(373711905).unwrap();
    assert!(titan.name.contains("Titan"));

    let leviathan = ActivityDirector::lookup_destination(2693136600).unwrap();
    assert!(leviathan.name.contains("Leviathan"));

    let mars = ActivityDirector::lookup_destination(2877881079).unwrap();
    assert!(mars.name.contains("Mars"));
}

#[test]
fn lookup_by_activity_hash_and_miss() {
    let farm = ActivityDirector::lookup_destination(2171538393).unwrap();
    assert_eq!(farm.destination_hash, 2171538392);
    assert_eq!(farm.recommended_light, 750);
    assert!(ActivityDirector::lookup_destination(1).is_none());
}
