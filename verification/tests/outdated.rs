use lux_lib::outdated::{
    line_of, outdated_groups, outdated_rocks, sorted_updates, InstalledRock, Outdated,
    ReportError, RockGroup, RockUpdate,
};

fn rock(name: &str, version: &str, latest: Option<&str>) -> InstalledRock {
    InstalledRock {
        name: name.to_string(),
        version: version.to_string(),
        latest: latest.map(|version| version.to_string()),
    }
}

fn update(name: &str, version: &str, latest: &str) -> RockUpdate {
    RockUpdate { name: name.to_string(), version: version.to_string(), latest: latest.to_string() }
}

fn installed() -> Vec<InstalledRock> {
    vec![
        rock("say", "1.3-1", Some("1.4.1-3")),
        rock("busted", "2.0.0-1", Some("2.2.0-1")),
        rock("lua-cjson", "2.1.0-1", None),
        rock("busted", "2.1.1-1", Some("2.2.0-1")),
        rock("argparse", "0.6.0-1", Some("0.7.1-1")),
    ]
}

#[test]
fn only_rocks_with_an_update_are_outdated() {
    assert_eq!(
        outdated_rocks(&installed()),
        vec![
            update("say", "1.3-1", "1.4.1-3"),
            update("busted", "2.0.0-1", "2.2.0-1"),
            update("busted", "2.1.1-1", "2.2.0-1"),
            update("argparse", "0.6.0-1", "0.7.1-1"),
        ]
    );
    assert!(outdated_rocks(&vec![rock("a", "1", None)]).is_empty());
}

#[test]
fn updates_are_sorted_by_name_and_keep_their_order_within_a_name() {
    assert_eq!(
        sorted_updates(&installed()),
        vec![
            update("argparse", "0.6.0-1", "0.7.1-1"),
            update("busted", "2.0.0-1", "2.2.0-1"),
            update("busted", "2.1.1-1", "2.2.0-1"),
            update("say", "1.3-1", "1.4.1-3"),
        ]
    );
}

#[test]
fn updates_are_grouped_by_package() {
    let mut groups = outdated_groups(&installed());
    groups.sort_by(|a, b| a.name.cmp(&b.name));
    assert_eq!(
        groups,
        vec![
            RockGroup {
                name: "argparse".to_string(),
                updates: vec![update("argparse", "0.6.0-1", "0.7.1-1")]
            },
            RockGroup {
                name: "busted".to_string(),
                updates: vec![
                    update("busted", "2.0.0-1", "2.2.0-1"),
                    update("busted", "2.1.1-1", "2.2.0-1"),
                ]
            },
            RockGroup {
                name: "say".to_string(),
                updates: vec![update("say", "1.3-1", "1.4.1-3")]
            },
        ]
    );
    assert!(outdated_groups(&Vec::new()).is_empty());
}

#[test]
fn a_line_shows_both_versions() {
    assert_eq!(line_of(&update("busted", "2.0.0-1", "2.2.0-1")), "2.0.0-1 => 2.2.0-1");
}

#[test]
fn the_tree_shows_each_package_with_its_updates() {
    let groups = vec![
        RockGroup {
            name: "busted".to_string(),
            updates: vec![
                update("busted", "2.0.0-1", "2.2.0-1"),
                update("busted", "2.1.1-1", "2.2.0-1"),
            ],
        },
        RockGroup { name: "say".to_string(), updates: vec![update("say", "1.3-1", "1.4.1-3")] },
    ];
    let texts = Outdated { porcelain: false }.report(&groups).unwrap();
    assert_eq!(
        texts,
        vec![
            "busted\n\u{251c}\u{2500}\u{2500} 2.0.0-1 => 2.2.0-1\n\u{2514}\u{2500}\u{2500} 2.1.1-1 => 2.2.0-1\n"
                .to_string(),
            "say\n\u{2514}\u{2500}\u{2500} 1.3-1 => 1.4.1-3\n".to_string(),
        ]
    );
    assert_eq!(Outdated { porcelain: false }.report(&Vec::new()), Ok(Vec::new()));
}

#[test]
fn a_group_without_updates_is_a_bare_root() {
    let groups = vec![RockGroup { name: "lonely".to_string(), updates: Vec::new() }];
    assert_eq!(
        Outdated { porcelain: false }.report(&groups),
        Ok(vec!["lonely\n".to_string()])
    );
}

#[test]
fn porcelain_is_one_json_object() {
    let groups = outdated_groups(&installed());
    let texts = Outdated { porcelain: true }.report(&groups).unwrap();
    assert_eq!(texts.len(), 1);
    let value: serde_json::Value = serde_json::from_str(&texts[0]).unwrap();
    let object = value.as_object().unwrap();
    assert_eq!(object.len(), 3);
    assert_eq!(object["say"]["1.3-1"], "1.4.1-3");
    assert_eq!(object["busted"]["2.0.0-1"], "2.2.0-1");
    assert_eq!(object["busted"]["2.1.1-1"], "2.2.0-1");
    assert_eq!(object["argparse"].as_object().unwrap().len(), 1);

    let nothing = Outdated { porcelain: true }.report(&Vec::new()).unwrap();
    assert_eq!(nothing, vec!["{}".to_string()]);
}

#[test]
fn the_json_text_is_the_whole_porcelain_report() {
    assert_eq!(
        Outdated::porcelain_texts(Ok("{\"a\":{}}".to_string())),
        Ok(vec!["{\"a\":{}}".to_string()])
    );
    assert_eq!(
        Outdated::porcelain_texts(Err("key must be a string".to_string())),
        Err(ReportError::Json { message: "key must be a string".to_string() })
    );
}
