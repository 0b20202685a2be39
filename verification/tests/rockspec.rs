use lux_lib::command::CommandBuildSpec;
use lux_lib::lua_rockspec::LuaRockspec;
use lux_lib::error::RockspecError;
use lux_lib::partial::PartialLuaRockspec;
use lux_lib::rockspec::{
    read_build, read_dependencies, read_dependency, read_deploy, read_description,
    read_externals, read_platform, read_platforms, read_source, read_test, BuildSpec, DeploySpec,
    ExternalDependencyDecl, ExternalDependencySpec, LuaDependencySpec, PlatformPredicate,
    PlatformSupport, RockDescription, RockSource, TestSpec,
};
use lux_lib::value::{LuaField, LuaTable, LuaValue};

fn text(value: &str) -> LuaValue {
    LuaValue::Text(value.to_string())
}

fn list(items: Vec<LuaValue>) -> LuaValue {
    LuaValue::Table(LuaTable { items, fields: Vec::new() })
}

fn record(fields: Vec<(&str, LuaValue)>) -> LuaTable {
    LuaTable {
        items: Vec::new(),
        fields: fields
            .into_iter()
            .map(|(name, value)| LuaField { name: name.to_string(), value })
            .collect(),
    }
}

fn dependency(name: &str, constraint: &str) -> LuaDependencySpec {
    LuaDependencySpec { name: name.to_string(), constraint: constraint.to_string() }
}

fn empty_partial() -> PartialLuaRockspec {
    PartialLuaRockspec {
        rockspec_format: None,
        package: None,
        build: None,
        deploy: None,
        description: None,
        supported_platforms: None,
        dependencies: None,
        build_dependencies: None,
        external_dependencies: None,
        test_dependencies: None,
        test: None,
    }
}

#[test]
fn a_document_with_only_a_package_name_is_valid() {
    let rockspec = LuaRockspec::new("package = \"my-package\"").unwrap();
    let expected = LuaRockspec { package: "my-package".to_string(), ..LuaRockspec::default() };
    assert_eq!(rockspec, expected);
}

#[test]
fn an_empty_document_declares_the_defaults() {
    let rockspec = LuaRockspec::new("").unwrap();
    assert_eq!(rockspec, LuaRockspec::default());
    assert_eq!(rockspec.rockspec_format, None);
    assert_eq!(rockspec.package, "");
    assert_eq!(rockspec.version, "");
    assert_eq!(rockspec.source, RockSource { url: None });
    assert_eq!(rockspec.build, BuildSpec::Builtin);
    assert_eq!(rockspec.deploy, DeploySpec { wrap_bin_scripts: true });
    assert_eq!(rockspec.description.summary, None);
    assert!(rockspec.description.labels.is_empty());
    assert!(rockspec.supported_platforms.platforms.is_empty());
    assert!(rockspec.dependencies.is_empty());
    assert!(rockspec.build_dependencies.is_empty());
    assert!(rockspec.external_dependencies.is_empty());
    assert!(rockspec.test_dependencies.is_empty());
    assert_eq!(rockspec.test, TestSpec { kind: None, script: None, flags: Vec::new() });
}

#[test]
fn a_base_document_may_declare_version_and_source() {
    let rockspec = LuaRockspec::new(
        r#"
            package = "foo"
            version = "1.0.0-1"
            source = { url = "https://example.com/foo.tar.gz" }
            dependencies = { "lua >= 5.1", "bar" }
            build = { type = "command", build_command = "make", install_command = "make install" }
            deploy = { wrap_bin_scripts = false }
        "#,
    )
    .unwrap();
    assert_eq!(rockspec.package, "foo");
    assert_eq!(rockspec.version, "1.0.0-1");
    assert_eq!(rockspec.source.url, Some("https://example.com/foo.tar.gz".to_string()));
    assert_eq!(rockspec.dependencies, vec![dependency("lua", ">= 5.1"), dependency("bar", "")]);
    assert_eq!(
        rockspec.build,
        BuildSpec::Command(CommandBuildSpec {
            build_command: Some("make".to_string()),
            install_command: Some("make install".to_string()),
        })
    );
    assert_eq!(rockspec.deploy, DeploySpec { wrap_bin_scripts: false });
}

#[test]
fn a_script_that_fails_is_a_script_error() {
    match LuaRockspec::new("package = ") {
        Err(RockspecError::Script { message }) => assert!(!message.is_empty()),
        other => panic!("unexpected result: {:?}", other),
    }
    match PartialLuaRockspec::new("error('no')") {
        Err(RockspecError::Script { message }) => assert!(message.contains("no")),
        other => panic!("unexpected result: {:?}", other),
    }
}

#[test]
fn a_field_of_the_wrong_shape_is_named() {
    assert_eq!(
        PartialLuaRockspec::new("dependencies = { \"foo\", 5 }"),
        Err(RockspecError::FieldType { field: "dependencies".to_string() })
    );
    assert_eq!(
        PartialLuaRockspec::new("package = {}"),
        Err(RockspecError::FieldType { field: "package".to_string() })
    );
    assert_eq!(
        PartialLuaRockspec::new("description = { summary = true }"),
        Err(RockspecError::FieldType { field: "description".to_string() })
    );
    assert_eq!(
        LuaRockspec::new("version = {}"),
        Err(RockspecError::FieldType { field: "version".to_string() })
    );
    assert_eq!(
        LuaRockspec::new("source = \"here\""),
        Err(RockspecError::FieldType { field: "source".to_string() })
    );
    assert_eq!(
        RockspecError::FieldType { field: "build".to_string() }.message(),
        "field `build` does not have the expected type."
    );
}

#[test]
fn the_first_misshapen_field_is_reported() {
    let globals = record(vec![
        ("deploy", text("no")),
        ("build", text("no")),
        ("package", text("fine")),
    ]);
    assert_eq!(
        PartialLuaRockspec::from_globals(&globals),
        Err(RockspecError::FieldType { field: "build".to_string() })
    );
}

#[test]
fn forbidden_fields_win_over_everything_else() {
    let globals = record(vec![("package", LuaValue::Boolean(true)), ("source", text("x"))]);
    assert_eq!(
        PartialLuaRockspec::from_globals(&globals),
        Err(RockspecError::ForbiddenField { field: "source".to_string() })
    );
    let globals = record(vec![("source", text("x")), ("version", text("1"))]);
    assert_eq!(
        PartialLuaRockspec::from_globals(&globals),
        Err(RockspecError::ForbiddenField { field: "version".to_string() })
    );
    assert_eq!(
        PartialLuaRockspec::new("source = { url = 'x' }\nerror_later = nil\npackage = 5"),
        Err(RockspecError::ForbiddenField { field: "source".to_string() })
    );
}

#[test]
fn an_assigned_nil_is_an_absent_field() {
    let globals = record(vec![("version", LuaValue::Nil), ("package", LuaValue::Nil)]);
    assert_eq!(PartialLuaRockspec::from_globals(&globals), Ok(empty_partial()));
    assert_eq!(PartialLuaRockspec::from_globals(&LuaTable::new()), Ok(empty_partial()));
}

#[test]
fn absent_is_not_empty() {
    let partial = PartialLuaRockspec::new("dependencies = {}").unwrap();
    assert_eq!(partial.dependencies, Some(Vec::new()));
    assert_eq!(partial.build_dependencies, None);
}

#[test]
fn the_fields_of_a_partial_rockspec_are_read_as_written() {
    let partial = PartialLuaRockspec::new(
        r#"
            rockspec_format = "3.0"
            package = "my-package"
            description = {
                summary = "A summary",
                license = "MIT",
                labels = {"label1", "label2"},
            }
            supported_platforms = {"linux", "!windows"}
            dependencies = { "lua 5.1", "foo 1.0", "bar >=2.0" }
            external_dependencies = { foo = { header = "foo.h" } }
            test = { type = "command", script = "test.lua", flags = {"foo", "bar"} }
            build = { type = "builtin" }
        "#,
    )
    .unwrap();
    assert_eq!(partial.rockspec_format, Some("3.0".to_string()));
    assert_eq!(partial.package, Some("my-package".to_string()));
    assert_eq!(
        partial.description,
        Some(RockDescription {
            summary: Some("A summary".to_string()),
            detailed: None,
            license: Some("MIT".to_string()),
            homepage: None,
            issues_url: None,
            maintainer: None,
            labels: vec!["label1".to_string(), "label2".to_string()],
        })
    );
    assert_eq!(
        partial.supported_platforms,
        Some(PlatformSupport {
            platforms: vec![
                PlatformPredicate { name: "linux".to_string(), supported: true },
                PlatformPredicate { name: "windows".to_string(), supported: false },
            ]
        })
    );
    assert_eq!(
        partial.dependencies,
        Some(vec![dependency("lua", "5.1"), dependency("foo", "1.0"), dependency("bar", ">=2.0")])
    );
    assert_eq!(
        partial.external_dependencies,
        Some(vec![ExternalDependencyDecl {
            name: "foo".to_string(),
            spec: ExternalDependencySpec { header: Some("foo.h".to_string()), library: None },
        }])
    );
    assert_eq!(
        partial.test,
        Some(TestSpec {
            kind: Some("command".to_string()),
            script: Some("test.lua".to_string()),
            flags: vec!["foo".to_string(), "bar".to_string()],
        })
    );
    assert_eq!(partial.build, Some(BuildSpec::Builtin));
    assert_eq!(partial.deploy, None);
}

#[test]
fn merge_overrides_by_presence() {
    let base = LuaRockspec {
        package: "a".to_string(),
        version: "1".to_string(),
        dependencies: vec![dependency("lua", "5.1")],
        ..LuaRockspec::default()
    };
    let partial = PartialLuaRockspec {
        dependencies: Some(vec![dependency("lua", "5.4"), dependency("foo", "")]),
        ..empty_partial()
    };
    let merged = base.clone().merge(partial);
    assert_eq!(merged.package, "a");
    assert_eq!(merged.version, "1");
    assert_eq!(merged.dependencies, vec![dependency("lua", "5.4"), dependency("foo", "")]);
    assert_eq!(
        merged,
        LuaRockspec {
            dependencies: vec![dependency("lua", "5.4"), dependency("foo", "")],
            ..base
        }
    );
}

#[test]
fn merging_an_empty_partial_changes_nothing() {
    let base = LuaRockspec::new(
        r#"
            package = "foo"
            version = "2.0-1"
            description = { summary = "s" }
            dependencies = { "lua 5.1" }
            build = { build_command = "make" }
        "#,
    )
    .unwrap();
    assert_eq!(base.clone().merge(empty_partial()), base);
    assert_eq!(LuaRockspec::load("package = 'p'", Some("")), LuaRockspec::new("package = 'p'"));
}

#[test]
fn an_overriding_empty_list_replaces_the_base() {
    let merged = LuaRockspec::load(
        "package = 'p'\ndependencies = { 'a 1', 'b 2' }\nbuild_dependencies = { 'c' }",
        Some("dependencies = {}"),
    )
    .unwrap();
    assert!(merged.dependencies.is_empty());
    assert_eq!(merged.build_dependencies, vec![dependency("c", "")]);
}

#[test]
fn load_merges_base_and_partial() {
    let merged = LuaRockspec::load(
        "package = 'p'\nversion = '1.0'\nbuild = { type = 'builtin' }",
        Some("build = { build_command = '' }\npackage = 'q'"),
    )
    .unwrap();
    assert_eq!(merged.package, "q");
    assert_eq!(merged.version, "1.0");
    assert_eq!(
        merged.build,
        BuildSpec::Command(CommandBuildSpec {
            build_command: Some(String::new()),
            install_command: None
        })
    );
    assert_eq!(LuaRockspec::load("package = 'p'", None), LuaRockspec::new("package = 'p'"));
}

#[test]
fn load_fails_as_a_whole() {
    assert_eq!(
        LuaRockspec::load("package = 'p'", Some("version = '2'")),
        Err(RockspecError::ForbiddenField { field: "version".to_string() })
    );
    assert_eq!(
        LuaRockspec::load("package = 5", None),
        Err(RockspecError::FieldType { field: "package".to_string() })
    );
    assert!(matches!(
        LuaRockspec::load("package = ", Some("package = 'q'")),
        Err(RockspecError::Script { .. })
    ));
}

#[test]
fn dependencies_are_split_into_name_and_constraint() {
    assert_eq!(read_dependency("lua 5.1"), Some(dependency("lua", "5.1")));
    assert_eq!(read_dependency("bar >=2.0"), Some(dependency("bar", ">=2.0")));
    assert_eq!(read_dependency("foo"), Some(dependency("foo", "")));
    assert_eq!(read_dependency("foo  \t >= 1.0, < 2"), Some(dependency("foo", ">= 1.0, < 2")));
    assert_eq!(read_dependency("foo "), Some(dependency("foo", "")));
    assert_eq!(read_dependency(""), None);
    assert_eq!(read_dependency(" foo"), None);
    assert_eq!(
        read_dependencies(&list(vec![text("a 1"), text("b")])),
        Some(vec![dependency("a", "1"), dependency("b", "")])
    );
    assert_eq!(read_dependencies(&list(vec![text("a 1"), text("")])), None);
    assert_eq!(read_dependencies(&list(vec![LuaValue::Boolean(true)])), None);
    assert_eq!(read_dependencies(&list(vec![list(Vec::new())])), None);
    assert_eq!(read_dependencies(&text("a 1")), None);
}

#[test]
fn platforms_may_be_excluded() {
    assert_eq!(
        read_platform("linux"),
        PlatformPredicate { name: "linux".to_string(), supported: true }
    );
    assert_eq!(
        read_platform("!windows"),
        PlatformPredicate { name: "windows".to_string(), supported: false }
    );
    assert_eq!(read_platform("!"), PlatformPredicate { name: String::new(), supported: false });
    assert_eq!(read_platforms(&list(Vec::new())), Some(PlatformSupport { platforms: Vec::new() }));
    assert_eq!(read_platforms(&LuaValue::Other), None);
}

#[test]
fn external_dependencies_know_header_and_library() {
    let declared = LuaValue::Table(record(vec![
        ("foo", LuaValue::Table(record(vec![("header", text("foo.h"))]))),
        ("bar", LuaValue::Table(record(vec![("library", text("libbar.so"))]))),
    ]));
    assert_eq!(
        read_externals(&declared),
        Some(vec![
            ExternalDependencyDecl {
                name: "foo".to_string(),
                spec: ExternalDependencySpec { header: Some("foo.h".to_string()), library: None },
            },
            ExternalDependencyDecl {
                name: "bar".to_string(),
                spec: ExternalDependencySpec {
                    header: None,
                    library: Some("libbar.so".to_string())
                },
            },
        ])
    );
    let misshapen = LuaValue::Table(record(vec![("foo", text("foo.h"))]));
    assert_eq!(read_externals(&misshapen), None);
    let misshapen =
        LuaValue::Table(record(vec![("foo", LuaValue::Table(record(vec![("header", list(vec![]))])))]));
    assert_eq!(read_externals(&misshapen), None);
}

#[test]
fn an_external_dependency_is_declared_once() {
    let declared = LuaValue::Table(record(vec![
        ("foo", LuaValue::Table(record(vec![("header", text("first.h"))]))),
        ("bar", LuaValue::Table(LuaTable::new())),
        ("foo", LuaValue::Table(record(vec![("header", text("second.h"))]))),
    ]));
    assert_eq!(
        read_externals(&declared),
        Some(vec![
            ExternalDependencyDecl {
                name: "foo".to_string(),
                spec: ExternalDependencySpec { header: Some("first.h".to_string()), library: None },
            },
            ExternalDependencyDecl {
                name: "bar".to_string(),
                spec: ExternalDependencySpec { header: None, library: None },
            },
        ])
    );
    let misshapen = LuaValue::Table(record(vec![
        ("foo", LuaValue::Table(LuaTable::new())),
        ("foo", text("again")),
    ]));
    assert_eq!(read_externals(&misshapen), None);
}

#[test]
fn numbers_are_not_text() {
    assert_eq!(
        PartialLuaRockspec::new("rockspec_format = 3.0"),
        Err(RockspecError::FieldType { field: "rockspec_format".to_string() })
    );
    assert_eq!(
        PartialLuaRockspec::new("rockspec_format = '3.0'").unwrap().rockspec_format,
        Some("3.0".to_string())
    );
}

#[test]
fn the_build_type_selects_the_backend() {
    let build = |fields| read_build(&LuaValue::Table(record(fields)));
    assert_eq!(build(vec![]), Some(BuildSpec::Builtin));
    assert_eq!(build(vec![("type", text("builtin"))]), Some(BuildSpec::Builtin));
    assert_eq!(
        build(vec![("type", text("cmake"))]),
        Some(BuildSpec::Tool { name: "cmake".to_string() })
    );
    assert_eq!(
        build(vec![("type", text("command"))]),
        Some(BuildSpec::Command(CommandBuildSpec { build_command: None, install_command: None }))
    );
    assert_eq!(
        build(vec![("build_command", text(""))]),
        Some(BuildSpec::Command(CommandBuildSpec {
            build_command: Some(String::new()),
            install_command: None
        }))
    );
    assert_eq!(
        build(vec![("type", text("builtin")), ("install_command", text("x"))]),
        Some(BuildSpec::Builtin)
    );
    assert_eq!(build(vec![("type", LuaValue::Boolean(true))]), None);
    assert_eq!(build(vec![("build_command", list(vec![]))]), None);
    assert_eq!(read_build(&text("command")), None);
}

#[test]
fn small_descriptors_have_their_shape() {
    assert_eq!(
        read_deploy(&LuaValue::Table(LuaTable::new())),
        Some(DeploySpec { wrap_bin_scripts: true })
    );
    assert_eq!(
        read_deploy(&LuaValue::Table(record(vec![("wrap_bin_scripts", LuaValue::Boolean(false))]))),
        Some(DeploySpec { wrap_bin_scripts: false })
    );
    assert_eq!(
        read_deploy(&LuaValue::Table(record(vec![("wrap_bin_scripts", text("no"))]))),
        None
    );
    assert_eq!(
        read_source(&LuaValue::Table(record(vec![("url", text("git://x"))]))),
        Some(RockSource { url: Some("git://x".to_string()) })
    );
    assert_eq!(read_source(&LuaValue::Nil), None);
    assert_eq!(
        read_test(&LuaValue::Table(LuaTable::new())),
        Some(TestSpec { kind: None, script: None, flags: Vec::new() })
    );
    assert_eq!(read_test(&LuaValue::Table(record(vec![("flags", text("-v"))]))), None);
    assert_eq!(read_description(&LuaValue::Boolean(false)), None);
}

#[test]
fn tables_look_up_the_first_field_of_a_name() {
    let table = record(vec![("a", text("1")), ("b", LuaValue::Nil), ("a", text("2"))]);
    assert_eq!(table.get("a"), Some(&text("1")));
    assert!(table.has("a"));
    assert!(!table.has("b"));
    assert!(!table.has("c"));
    assert_eq!(table.get("c"), None);
}
