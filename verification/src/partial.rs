//! Partial rockspecs: documents that override fields of a base rockspec.

use vstd::prelude::*;
use crate::error::{RockspecError, RockspecFault};
use crate::interpreter::Document;
use crate::outcome::viewed;
use crate::rockspec::{
    build_in, dependencies_in, deploy_in, description_in, externals_in, platforms_in,
    read_build, read_dependencies, read_deploy, read_description, read_externals, read_platforms,
    read_test, test_in, BuildModel, BuildSpec, DependencyModel, DeploySpec, DescriptionModel,
    ExternalDeclModel, ExternalDependencyDecl, LuaDependencySpec, PlatformModel, PlatformSupport,
    RockDescription, TestModel, TestSpec,
};
use crate::shape::{held, read_text, text_in};
use crate::value::{field_value, FieldModel, LuaTable, LuaValue, TableModel, ValueModel};

verus! {

/// The error of loading a partial rockspec.
pub type PartialRockspecError = RockspecError;

/// The fields that a partial rockspec may give. A field is `None` where the
/// document does not mention it, which is not the same as giving it empty.
#[derive(Clone, Debug, PartialEq, Eq)]
pub struct PartialLuaRockspec {
    pub rockspec_format: Option<String>,
    pub package: Option<String>,
    pub build: Option<BuildSpec>,
    pub deploy: Option<DeploySpec>,
    pub description: Option<RockDescription>,
    pub supported_platforms: Option<PlatformSupport>,
    pub dependencies: Option<Vec<LuaDependencySpec>>,
    pub build_dependencies: Option<Vec<LuaDependencySpec>>,
    pub external_dependencies: Option<Vec<ExternalDependencyDecl>>,
    pub test_dependencies: Option<Vec<LuaDependencySpec>>,
    pub test: Option<TestSpec>,
}

/// The mathematical model of [`PartialLuaRockspec`].
pub ghost struct PartialModel {
    pub rockspec_format: Option<Seq<char>>,
    pub package: Option<Seq<char>>,
    pub build: Option<BuildModel>,
    pub deploy: Option<DeploySpec>,
    pub description: Option<DescriptionModel>,
    pub supported_platforms: Option<Seq<PlatformModel>>,
    pub dependencies: Option<Seq<DependencyModel>>,
    pub build_dependencies: Option<Seq<DependencyModel>>,
    pub external_dependencies: Option<Seq<ExternalDeclModel>>,
    pub test_dependencies: Option<Seq<DependencyModel>>,
    pub test: Option<TestModel>,
}

impl View for PartialLuaRockspec {
    type V = PartialModel;

    open spec fn view(&self) -> PartialModel {
        PartialModel {
            rockspec_format: self.rockspec_format.deep_view(),
            package: self.package.deep_view(),
            build: self.build.deep_view(),
            deploy: self.deploy,
            description: self.description.deep_view(),
            supported_platforms: self.supported_platforms.deep_view(),
            dependencies: self.dependencies.deep_view(),
            build_dependencies: self.build_dependencies.deep_view(),
            external_dependencies: self.external_dependencies.deep_view(),
            test_dependencies: self.test_dependencies.deep_view(),
            test: self.test.deep_view(),
        }
    }
}

impl PartialModel {
    /// The partial rockspec that gives no field.
    pub open spec fn empty() -> PartialModel {
        PartialModel {
            rockspec_format: None,
            package: None,
            build: None,
            deploy: None,
            description: None,
            supported_platforms: None,
            dependencies: None,
            build_dependencies: None,
            external_dependencies: None,
            test_dependencies: None,
            test: None,
        }
    }
}

/// What a field holds whose value, where one was assigned, reads as
/// `shaped`: `Some(None)` where nothing was assigned, `None` where what was
/// assigned does not have the field's shape.
pub open spec fn optional<T>(value: ValueModel, shaped: Option<T>) -> Option<Option<T>> {
    if value is Nil {
        Some(None)
    } else {
        match shaped {
            Some(field) => Some(Some(field)),
            None => None,
        }
    }
}

/// The format that the document gives, as an optional field.
pub open spec fn format_field(globals: TableModel) -> Option<Option<Seq<char>>> {
    optional(globals.get("rockspec_format"@), text_in(globals.get("rockspec_format"@)))
}

/// The package's name that the document gives, as an optional field.
pub open spec fn package_field(globals: TableModel) -> Option<Option<Seq<char>>> {
    optional(globals.get("package"@), text_in(globals.get("package"@)))
}

/// The description that the document gives, as an optional field.
pub open spec fn description_field(globals: TableModel) -> Option<Option<DescriptionModel>> {
    optional(globals.get("description"@), description_in(globals.get("description"@)))
}

/// The platforms that the document gives, as an optional field.
pub open spec fn platforms_field(globals: TableModel) -> Option<Option<Seq<PlatformModel>>> {
    optional(globals.get("supported_platforms"@), platforms_in(globals.get("supported_platforms"@)))
}

/// The dependencies that the document gives under `name`, as an optional field.
pub open spec fn dependencies_field(globals: TableModel, name: Seq<char>) -> Option<
    Option<Seq<DependencyModel>>,
> {
    optional(globals.get(name), dependencies_in(globals.get(name)))
}

/// The external dependencies that the document gives, as an optional field.
pub open spec fn externals_field(globals: TableModel) -> Option<Option<Seq<ExternalDeclModel>>> {
    optional(
        globals.get("external_dependencies"@),
        externals_in(globals.get("external_dependencies"@)),
    )
}

/// The build that the document gives, as an optional field.
pub open spec fn build_field(globals: TableModel) -> Option<Option<BuildModel>> {
    optional(globals.get("build"@), build_in(globals.get("build"@)))
}

/// The test setup that the document gives, as an optional field.
pub open spec fn test_field(globals: TableModel) -> Option<Option<TestModel>> {
    optional(globals.get("test"@), test_in(globals.get("test"@)))
}

/// The deployment that the document gives, as an optional field.
pub open spec fn deploy_field(globals: TableModel) -> Option<Option<DeploySpec>> {
    optional(globals.get("deploy"@), deploy_in(globals.get("deploy"@)))
}

/// The first field of `globals`, in the order in which the fields are read,
/// that does not have its shape.
pub open spec fn first_misshapen(globals: TableModel) -> Option<Seq<char>> {
    if format_field(globals) is None {
        Some("rockspec_format"@)
    } else if package_field(globals) is None {
        Some("package"@)
    } else if description_field(globals) is None {
        Some("description"@)
    } else if platforms_field(globals) is None {
        Some("supported_platforms"@)
    } else if dependencies_field(globals, "dependencies"@) is None {
        Some("dependencies"@)
    } else if dependencies_field(globals, "build_dependencies"@) is None {
        Some("build_dependencies"@)
    } else if dependencies_field(globals, "test_dependencies"@) is None {
        Some("test_dependencies"@)
    } else if externals_field(globals) is None {
        Some("external_dependencies"@)
    } else if build_field(globals) is None {
        Some("build"@)
    } else if test_field(globals) is None {
        Some("test"@)
    } else if deploy_field(globals) is None {
        Some("deploy"@)
    } else {
        None
    }
}

/// The fields that `globals` gives: each one read by itself, a field that
/// was not assigned being absent. Reading fails on the first field that does
/// not have its shape, and names it.
pub open spec fn fields_in(globals: TableModel) -> Result<PartialModel, RockspecFault> {
    match first_misshapen(globals) {
        Some(field) => Err(RockspecFault::FieldType { field }),
        None => Ok(
            PartialModel {
                rockspec_format: format_field(globals)->0,
                package: package_field(globals)->0,
                build: build_field(globals)->0,
                deploy: deploy_field(globals)->0,
                description: description_field(globals)->0,
                supported_platforms: platforms_field(globals)->0,
                dependencies: dependencies_field(globals, "dependencies"@)->0,
                build_dependencies: dependencies_field(globals, "build_dependencies"@)->0,
                external_dependencies: externals_field(globals)->0,
                test_dependencies: dependencies_field(globals, "test_dependencies"@)->0,
                test: test_field(globals)->0,
            },
        ),
    }
}

/// The partial rockspec that `globals` declares. A document that assigns
/// `version` or `source` is refused before any field is read.
pub open spec fn partial_in(globals: TableModel) -> Result<PartialModel, RockspecFault> {
    if globals.has("version"@) {
        Err(RockspecFault::ForbiddenField { field: "version"@ })
    } else if globals.has("source"@) {
        Err(RockspecFault::ForbiddenField { field: "source"@ })
    } else {
        fields_in(globals)
    }
}

fn misshapen(field: &str) -> (error: RockspecError)
    ensures
        error@ == (RockspecFault::FieldType { field: field@ }),
{
    RockspecError::FieldType { field: String::from_str(field) }
}

fn assigned<'a>(globals: &'a LuaTable, name: &str) -> (value: Option<&'a LuaValue>)
    ensures
        held(value) == globals@.get(name@),
        value matches Some(value) ==> !(value@ is Nil),
{
    match globals.get(name) {
        None => None,
        Some(LuaValue::Nil) => None,
        Some(value) => Some(value),
    }
}

fn text_field(globals: &LuaTable, name: &str) -> (field: Result<Option<String>, RockspecError>)
    ensures
        match field {
            Ok(field) => optional(globals@.get(name@), text_in(globals@.get(name@))) == Some(
                field.deep_view(),
            ),
            Err(error) => optional(globals@.get(name@), text_in(globals@.get(name@))) is None
                && error@ == (RockspecFault::FieldType { field: name@ }),
        },
{
    match assigned(globals, name) {
        None => Ok(None),
        Some(value) => match read_text(value) {
            Some(text) => Ok(Some(text)),
            None => Err(misshapen(name)),
        },
    }
}

fn dependency_field(globals: &LuaTable, name: &str) -> (field: Result<
    Option<Vec<LuaDependencySpec>>,
    RockspecError,
>)
    ensures
        match field {
            Ok(field) => dependencies_field(globals@, name@) == Some(field.deep_view()),
            Err(error) => dependencies_field(globals@, name@) is None && error@ == (
            RockspecFault::FieldType { field: name@ }),
        },
{
    match assigned(globals, name) {
        None => Ok(None),
        Some(value) => match read_dependencies(value) {
            Some(dependencies) => Ok(Some(dependencies)),
            None => Err(misshapen(name)),
        },
    }
}

impl PartialLuaRockspec {
    /// Reads every field out of `globals`, in a fixed order, without asking
    /// which fields a document may declare.
    pub fn read_fields(globals: &LuaTable) -> (result: Result<PartialLuaRockspec, RockspecError>)
        ensures
            viewed(result) == fields_in(globals@),
    {
        let rockspec_format = match text_field(globals, "rockspec_format") {
            Ok(field) => field,
            Err(error) => return Err(error),
        };
        let package = match text_field(globals, "package") {
            Ok(field) => field,
            Err(error) => return Err(error),
        };
        let description = match assigned(globals, "description") {
            None => None,
            Some(value) => match read_description(value) {
                Some(field) => Some(field),
                None => return Err(misshapen("description")),
            },
        };
        let supported_platforms = match assigned(globals, "supported_platforms") {
            None => None,
            Some(value) => match read_platforms(value) {
                Some(field) => Some(field),
                None => return Err(misshapen("supported_platforms")),
            },
        };
        let dependencies = match dependency_field(globals, "dependencies") {
            Ok(field) => field,
            Err(error) => return Err(error),
        };
        let build_dependencies = match dependency_field(globals, "build_dependencies") {
            Ok(field) => field,
            Err(error) => return Err(error),
        };
        let test_dependencies = match dependency_field(globals, "test_dependencies") {
            Ok(field) => field,
            Err(error) => return Err(error),
        };
        let external_dependencies = match assigned(globals, "external_dependencies") {
            None => None,
            Some(value) => match read_externals(value) {
                Some(field) => Some(field),
                None => return Err(misshapen("external_dependencies")),
            },
        };
        let build = match assigned(globals, "build") {
            None => None,
            Some(value) => match read_build(value) {
                Some(field) => Some(field),
                None => return Err(misshapen("build")),
            },
        };
        let test = match assigned(globals, "test") {
            None => None,
            Some(value) => match read_test(value) {
                Some(field) => Some(field),
                None => return Err(misshapen("test")),
            },
        };
        let deploy = match assigned(globals, "deploy") {
            None => None,
            Some(value) => match read_deploy(value) {
                Some(field) => Some(field),
                None => return Err(misshapen("deploy")),
            },
        };
        Ok(
            PartialLuaRockspec {
                rockspec_format,
                package,
                build,
                deploy,
                description,
                supported_platforms,
                dependencies,
                build_dependencies,
                external_dependencies,
                test_dependencies,
                test,
            },
        )
    }

    /// Evaluates `rockspec_content` and reads the partial rockspec that it
    /// declares.
    ///
    /// `version` and `source` are looked at first, and a document that
    /// assigns either is refused without any other field being read. What a
    /// document assigns is known only once it has run, so the result is
    /// stated for whatever the document left behind: it is what
    /// [`PartialLuaRockspec::from_globals`] makes of some globals.
    pub fn new(rockspec_content: &str) -> (result: Result<PartialLuaRockspec, PartialRockspecError>)
        ensures
            result matches Err(RockspecError::Script { .. }) || exists|globals: TableModel|
                viewed(result) == partial_in(globals),
    {
        let names = [
            "rockspec_format",
            "package",
            "description",
            "supported_platforms",
            "dependencies",
            "build_dependencies",
            "test_dependencies",
            "external_dependencies",
            "build",
            "test",
            "deploy",
            "version",
            "source",
        ];
        let document = match Document::evaluate(rockspec_content, names.as_slice()) {
            Ok(document) => document,
            Err(failure) => return Err(failure),
        };
        match document.global("version") {
            Err(failure) => return Err(failure),
            Ok(LuaValue::Nil) => {},
            Ok(value) => {
                let refusal = Err(
                    RockspecError::ForbiddenField { field: String::from_str("version") },
                );
                proof {
                    let field = FieldModel { name: "version"@, value: value@ };
                    let globals = TableModel { items: Seq::empty(), fields: seq![field] };
                    assert(viewed(refusal) == partial_in(globals));
                }
                return refusal;
            },
        }
        match document.global("source") {
            Err(failure) => return Err(failure),
            Ok(LuaValue::Nil) => {},
            Ok(value) => {
                let refusal = Err(
                    RockspecError::ForbiddenField { field: String::from_str("source") },
                );
                proof {
                    reveal_strlit("version");
                    reveal_strlit("source");
                    let field = FieldModel { name: "source"@, value: value@ };
                    let globals = TableModel { items: Seq::empty(), fields: seq![field] };
                    assert("version"@.len() != "source"@.len());
                    assert(globals.fields.skip(1).len() == 0);
                    assert(field_value(globals.fields.skip(1), "version"@) is Nil);
                    assert(globals.get("version"@) is Nil);
                    assert(viewed(refusal) == partial_in(globals));
                }
                return refusal;
            },
        }
        let globals = match document.globals(names.as_slice()) {
            Ok(globals) => globals,
            Err(failure) => return Err(failure),
        };
        let result = Self::from_globals(&globals);
        assert(viewed(result) == partial_in(globals@));
        result
    }

    /// The partial rockspec that a document declares, from the globals that
    /// evaluating it left behind.
    pub fn from_globals(globals: &LuaTable) -> (result: Result<
        PartialLuaRockspec,
        PartialRockspecError,
    >)
        ensures
            viewed(result) == partial_in(globals@),
    {
        if globals.has("version") {
            return Err(RockspecError::ForbiddenField { field: String::from_str("version") });
        }
        if globals.has("source") {
            return Err(RockspecError::ForbiddenField { field: String::from_str("source") });
        }
        Self::read_fields(globals)
    }
}

/// A partial rockspec that assigns `version` or `source` is refused for
/// that, whatever else it assigns.
pub proof fn law_forbidden_fields_refused(globals: TableModel)
    requires
        globals.has("version"@) || globals.has("source"@),
    ensures
        partial_in(globals) matches Err(RockspecFault::ForbiddenField { field }) && (field
            == "version"@ || field == "source"@),
{
}

/// The refusal of a partial rockspec that assigns `version` or `source`
/// depends on nothing else that the document assigns.
pub proof fn law_refusal_ignores_other_fields(one: TableModel, other: TableModel)
    requires
        one.has("version"@) || one.has("source"@),
        one.has("version"@) == other.has("version"@),
        one.has("source"@) == other.has("source"@),
    ensures
        partial_in(one) == partial_in(other),
{
}

} // verus!
