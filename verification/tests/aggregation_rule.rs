use metering::aggregation_rule::AggregationRule;
use metering::decimal::Dec;

#[test]
fn sum_rule_lists_all_sources() {
    let rule = AggregationRule::Sum {
        source_malo_ids: vec!["MALO_A".to_owned(), "MALO_B".to_owned()],
    };
    let sources = rule.source_malo_ids();
    assert_eq!(sources, vec!["MALO_A", "MALO_B"]);
    assert_eq!(rule.rule_type(), "Sum");
}

#[test]
fn residual_rule_includes_total_and_subtracts() {
    let rule = AggregationRule::Residual {
        total_malo_id: "TOTAL".to_owned(),
        subtract_malo_ids: vec!["PV".to_owned()],
    };
    let sources = rule.source_malo_ids();
    assert!(sources.contains(&"TOTAL"));
    assert!(sources.contains(&"PV"));
    assert_eq!(rule.rule_type(), "Residual");
}

#[test]
fn ggv_constant_lists_plant_and_tenant() {
    let rule = AggregationRule::GgvConstantAllocation {
        plant_melo_id: "MELO_PLANT".to_owned(),
        tenant_melo_id: "MELO_T1".to_owned(),
        fraction: Dec::new(10, 2),
    };
    let sources = rule.source_malo_ids();
    assert_eq!(sources.len(), 2);
    assert!(sources.contains(&"MELO_PLANT"));
    assert!(sources.contains(&"MELO_T1"));
    assert_eq!(rule.rule_type(), "GgvConstantAllocation");
}

#[test]
fn ggv_proportional_lists_plant_and_all_tenants() {
    let rule = AggregationRule::GgvProportionalAllocation {
        plant_melo_id: "MELO_PLANT".to_owned(),
        tenant_melo_id: "MELO_T1".to_owned(),
        all_tenant_melo_ids: vec!["MELO_T1".to_owned(), "MELO_T2".to_owned()],
    };
    let sources = rule.source_malo_ids();
    // plant + t1 + t2
    assert_eq!(sources.len(), 3);
    assert!(sources.contains(&"MELO_PLANT"));
    assert_eq!(rule.rule_type(), "GgvProportionalAllocation");
}

#[test]
fn the_residual_lists_the_total_first_and_pv_names_grid_then_generation() {
    let rule = AggregationRule::Residual {
        total_malo_id: "TOTAL".to_owned(),
        subtract_malo_ids: vec!["PV1".to_owned(), "PV2".to_owned()],
    };
    assert_eq!(rule.source_malo_ids(), vec!["TOTAL", "PV1", "PV2"]);
    let pv = AggregationRule::PvSelfConsumption {
        grid_malo_id: "GRID".to_owned(),
        generation_malo_id: "GEN".to_owned(),
    };
    assert_eq!(pv.source_malo_ids(), vec!["GRID", "GEN"]);
    assert_eq!(pv.rule_type(), "PvSelfConsumption");
}
