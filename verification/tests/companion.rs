use fudge_core::builder::companion::{next_action, RunControl};
use fudge_core::builder::companion::{check_attribute, CompanionDef, FieldsKind};
use fudge_core::builder::companion::{
    evolve_plan, parse_field, parse_struct, route, setup_plan, AttrDef, Chain, DefinitionError, FieldDef,
    FieldType, Step, Target,
};

fn attr(segments: &[&str], id: Option<&str>) -> AttrDef {
    AttrDef { segments: segments.iter().map(|s| s.to_string()).collect(), para_id: id.map(|s| s.to_string()) }
}

fn field(name: &str, attrs: Vec<AttrDef>) -> FieldDef {
    FieldDef { name: Some(name.to_string()), attrs }
}

#[test]
fn requests_go_to_the_right_builder() {
    let ids = vec![2002, 2000];
    assert_eq!(route(Chain::Relay, &ids), Some(Target::Relay));
    assert_eq!(route(Chain::Para(2000), &ids), Some(Target::Para(1)));
    assert_eq!(route(Chain::Para(2002), &ids), Some(Target::Para(0)));
    assert_eq!(route(Chain::Para(7), &ids), None);
}

#[test]
fn evolving_two_parachains() {
    assert_eq!(
        evolve_plan(2),
        vec![
            Step::RelayBuild,
            Step::RelayImport,
            Step::ParaBuild(0),
            Step::ParaImport(0),
            Step::ParaBuild(1),
            Step::ParaImport(1),
            Step::RelayBuild,
            Step::RelayImport,
            Step::Onboard(0),
            Step::Onboard(1),
        ]
    );
    assert_eq!(evolve_plan(0), vec![Step::RelayBuild, Step::RelayImport, Step::RelayBuild, Step::RelayImport]);
}

#[test]
fn setting_up_onboards_every_parachain() {
    assert_eq!(setup_plan(3), vec![Step::Onboard(0), Step::Onboard(1), Step::Onboard(2)]);
}

#[test]
fn fields_are_classified() {
    match parse_field(field("centrifuge", vec![attr(&["doc"], None), attr(&["fudge", "parachain"], Some("2000"))])) {
        Ok(FieldType::Parachain(name, id)) => {
            assert_eq!(name, "centrifuge");
            assert_eq!(id, "2000");
        },
        other => panic!("unexpected {:?}", other),
    }
    match parse_field(field("polkadot", vec![attr(&["fudge", "relaychain"], None)])) {
        Ok(FieldType::Relaychain(name)) => assert_eq!(name, "polkadot"),
        other => panic!("unexpected {:?}", other),
    }
    match parse_field(field("x", vec![attr(&["doc"], None)])) {
        Ok(FieldType::Other(f)) => assert_eq!(f.name, Some("x".to_string())),
        other => panic!("unexpected {:?}", other),
    }
}

#[test]
fn misplaced_fields_are_reported() {
    assert!(matches!(
        parse_field(field("a", vec![attr(&["fudge"], None)])),
        Err(DefinitionError::ExpectedPathSegments)
    ));
    assert!(matches!(
        parse_field(field("a", vec![attr(&["fudge", "collator"], None)])),
        Err(DefinitionError::UnsupportedAttribute)
    ));
    assert!(matches!(
        parse_field(field("a", vec![attr(&["fudge", "parachain"], None)])),
        Err(DefinitionError::InvalidParaId)
    ));
    assert!(matches!(
        parse_field(FieldDef { name: None, attrs: vec![attr(&["fudge", "relaychain"], None)] }),
        Err(DefinitionError::RelaychainIdentNotFound)
    ));
    assert!(matches!(
        parse_field(FieldDef { name: None, attrs: vec![attr(&["fudge", "parachain"], Some("1"))] }),
        Err(DefinitionError::ParachainIdentNotFound)
    ));
}

#[test]
fn a_companion_has_exactly_one_relay_chain() {
    let def = parse_struct(vec![
        field("centrifuge", vec![attr(&["fudge", "parachain"], Some("2002"))]),
        field("other", vec![]),
        field("sibling", vec![attr(&["fudge", "parachain"], Some("2000"))]),
        field("polkadot", vec![attr(&["fudge", "relaychain"], None)]),
    ])
    .unwrap();
    assert_eq!(def.relaychain, "polkadot");
    assert_eq!(
        def.parachains,
        vec![("centrifuge".to_string(), "2002".to_string()), ("sibling".to_string(), "2000".to_string())]
    );
    assert_eq!(def.others.len(), 1);

    assert!(matches!(
        parse_struct(vec![field("centrifuge", vec![attr(&["fudge", "parachain"], Some("2002"))])]),
        Err(DefinitionError::RelaychainNotFound)
    ));
    assert!(matches!(
        parse_struct(vec![
            field("a", vec![attr(&["fudge", "relaychain"], None)]),
            field("b", vec![attr(&["fudge", "relaychain"], None)]),
        ]),
        Err(DefinitionError::OnlyOneRelaychain)
    ));
}

#[test]
fn companion_definitions_need_named_fields_and_no_arguments() {
    assert_eq!(check_attribute(true), Ok(()));
    assert_eq!(check_attribute(false), Err(DefinitionError::UnexpectedArguments));
    assert!(matches!(CompanionDef::parse(FieldsKind::Unit, vec![]), Err(DefinitionError::UnitStruct)));
    assert!(matches!(CompanionDef::parse(FieldsKind::Unnamed, vec![]), Err(DefinitionError::UnnamedFields)));
    let def = CompanionDef::parse(
        FieldsKind::Named,
        vec![
            field("relay", vec![attr(&["fudge", "relaychain"], None)]),
            field("para", vec![attr(&["fudge", "parachain"], Some("2000"))]),
        ],
    )
    .unwrap();
    assert_eq!(def.relaychain, "relay");
    assert_eq!(def.parachains, vec![("para".to_string(), "2000".to_string())]);
    assert!(def.others.is_empty());
    assert!(matches!(CompanionDef::parse(FieldsKind::Named, vec![]), Err(DefinitionError::RelaychainNotFound)));
}

#[test]
fn running_stops_at_the_first_failure() {
    let plan = evolve_plan(1);
    assert_eq!(next_action(&plan, 0, false), RunControl::Perform(Step::RelayBuild));
    assert_eq!(next_action(&plan, 2, false), RunControl::Perform(Step::ParaBuild(0)));
    assert_eq!(next_action(&plan, 3, true), RunControl::Stopped);
    assert_eq!(next_action(&plan, plan.len(), false), RunControl::Finished);
}
