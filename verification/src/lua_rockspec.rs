//! Full rockspecs: what a base document declares, every field that it leaves
//! out taking its default, and how a partial rockspec overrides it.

use vstd::prelude::*;
use crate::error::{RockspecError, RockspecFault};
use crate::interpreter::Document;
use crate::outcome::viewed;
use crate::partial::{
    fields_in, first_misshapen, optional, partial_in, PartialLuaRockspec, PartialModel,
};
use crate::rockspec::{
    read_source, source_in, BuildModel, BuildSpec, DependencyModel, DeploySpec, DescriptionModel,
    ExternalDeclModel, ExternalDependencyDecl, LuaDependencySpec, PlatformModel, PlatformSupport,
    RockDescription, RockSource, SourceModel, TestModel, TestSpec,
};
use crate::shape::{read_text, text_in};
use crate::value::{LuaTable, LuaValue, TableModel};

verus! {

/// A rockspec with every field in place.
#[derive(Clone, Debug, PartialEq, Eq)]
pub struct LuaRockspec {
    /// The format that the document says it is written in, if it says so.
    pub rockspec_format: Option<String>,
    pub package: String,
    pub version: String,
    pub source: RockSource,
    pub build: BuildSpec,
    pub deploy: DeploySpec,
    pub description: RockDescription,
    pub supported_platforms: PlatformSupport,
    pub dependencies: Vec<LuaDependencySpec>,
    pub build_dependencies: Vec<LuaDependencySpec>,
    pub external_dependencies: Vec<ExternalDependencyDecl>,
    pub test_dependencies: Vec<LuaDependencySpec>,
    pub test: TestSpec,
}

/// The mathematical model of [`LuaRockspec`].
pub ghost struct RockspecModel {
    pub rockspec_format: Option<Seq<char>>,
    pub package: Seq<char>,
    pub version: Seq<char>,
    pub source: SourceModel,
    pub build: BuildModel,
    pub deploy: DeploySpec,
    pub description: DescriptionModel,
    pub supported_platforms: Seq<PlatformModel>,
    pub dependencies: Seq<DependencyModel>,
    pub build_dependencies: Seq<DependencyModel>,
    pub external_dependencies: Seq<ExternalDeclModel>,
    pub test_dependencies: Seq<DependencyModel>,
    pub test: TestModel,
}

impl View for LuaRockspec {
    type V = RockspecModel;

    open spec fn view(&self) -> RockspecModel {
        RockspecModel {
            rockspec_format: self.rockspec_format.deep_view(),
            package: self.package@,
            version: self.version@,
            source: self.source@,
            build: self.build@,
            deploy: self.deploy,
            description: self.description@,
            supported_platforms: self.supported_platforms@,
            dependencies: self.dependencies.deep_view(),
            build_dependencies: self.build_dependencies.deep_view(),
            external_dependencies: self.external_dependencies.deep_view(),
            test_dependencies: self.test_dependencies.deep_view(),
            test: self.test@,
        }
    }
}

impl RockspecModel {
    /// The rockspec of a document that declares nothing: no format, an empty
    /// name and version, no source, the built-in build, wrapped scripts, an
    /// empty description, and no platforms, dependencies or test setup.
    pub open spec fn defaults() -> RockspecModel {
        RockspecModel {
            rockspec_format: None,
            package: Seq::empty(),
            version: Seq::empty(),
            source: SourceModel { url: None },
            build: BuildModel::Builtin,
            deploy: DeploySpec { wrap_bin_scripts: true },
            description: DescriptionModel {
                summary: None,
                detailed: None,
                license: None,
                homepage: None,
                issues_url: None,
                maintainer: None,
                labels: Seq::empty(),
            },
            supported_platforms: Seq::empty(),
            dependencies: Seq::empty(),
            build_dependencies: Seq::empty(),
            external_dependencies: Seq::empty(),
            test_dependencies: Seq::empty(),
            test: TestModel { kind: None, script: None, flags: Seq::empty() },
        }
    }

    /// This rockspec with every field that `partial` gives taken from
    /// `partial`. The version and the source are never overridden.
    pub open spec fn merged(self, partial: PartialModel) -> RockspecModel {
        RockspecModel {
            rockspec_format: match partial.rockspec_format {
                Some(format) => Some(format),
                None => self.rockspec_format,
            },
            package: match partial.package {
                Some(package) => package,
                None => self.package,
            },
            version: self.version,
            source: self.source,
            build: match partial.build {
                Some(build) => build,
                None => self.build,
            },
            deploy: match partial.deploy {
                Some(deploy) => deploy,
                None => self.deploy,
            },
            description: match partial.description {
                Some(description) => description,
                None => self.description,
            },
            supported_platforms: match partial.supported_platforms {
                Some(platforms) => platforms,
                None => self.supported_platforms,
            },
            dependencies: match partial.dependencies {
                Some(dependencies) => dependencies,
                None => self.dependencies,
            },
            build_dependencies: match partial.build_dependencies {
                Some(dependencies) => dependencies,
                None => self.build_dependencies,
            },
            external_dependencies: match partial.external_dependencies {
                Some(dependencies) => dependencies,
                None => self.external_dependencies,
            },
            test_dependencies: match partial.test_dependencies {
                Some(dependencies) => dependencies,
                None => self.test_dependencies,
            },
            test: match partial.test {
                Some(test) => test,
                None => self.test,
            },
        }
    }
}

/// The version that the document gives, as an optional field.
pub open spec fn version_field(globals: TableModel) -> Option<Option<Seq<char>>> {
    optional(globals.get("version"@), text_in(globals.get("version"@)))
}

/// The source that the document gives, as an optional field.
pub open spec fn source_field(globals: TableModel) -> Option<Option<SourceModel>> {
    optional(globals.get("source"@), source_in(globals.get("source"@)))
}

/// The rockspec that the globals of a base document declare: the version
/// and the source are read first, then the fields that a partial rockspec
/// has too, and what the document leaves out takes its default.
pub open spec fn rockspec_in(globals: TableModel) -> Result<RockspecModel, RockspecFault> {
    if version_field(globals) is None {
        Err(RockspecFault::FieldType { field: "version"@ })
    } else if source_field(globals) is None {
        Err(RockspecFault::FieldType { field: "source"@ })
    } else {
        match fields_in(globals) {
            Err(fault) => Err(fault),
            Ok(fields) => Ok(
                RockspecModel {
                    version: match version_field(globals)->0 {
                        Some(version) => version,
                        None => Seq::empty(),
                    },
                    source: match source_field(globals)->0 {
                        Some(source) => source,
                        None => SourceModel { url: None },
                    },
                    ..RockspecModel::defaults()
                }.merged(fields),
            ),
        }
    }
}

/// Whether every field that a base document may declare has its shape in
/// `globals`, as far as it was assigned at all.
pub open spec fn well_shaped(globals: TableModel) -> bool {
    version_field(globals) is Some && source_field(globals) is Some && first_misshapen(globals)
        is None
}

/// Whether `rockspec` is what the globals `base` of a base document declare,
/// overridden by what the globals `partial` of a partial document declare
/// where there is one.
pub open spec fn loads_as(
    base: TableModel,
    partial: Option<TableModel>,
    rockspec: RockspecModel,
) -> bool {
    rockspec_in(base) matches Ok(declared) && match partial {
        None => rockspec == declared,
        Some(partial) => partial_in(partial) matches Ok(overrides) && rockspec == declared.merged(
            overrides,
        ),
    }
}

impl Default for LuaRockspec {
    fn default() -> (rockspec: LuaRockspec)
        ensures
            rockspec@ == RockspecModel::defaults(),
    {
        let rockspec = LuaRockspec {
            rockspec_format: None,
            package: String::new(),
            version: String::new(),
            source: RockSource { url: None },
            build: BuildSpec::Builtin,
            deploy: DeploySpec { wrap_bin_scripts: true },
            description: RockDescription {
                summary: None,
                detailed: None,
                license: None,
                homepage: None,
                issues_url: None,
                maintainer: None,
                labels: Vec::new(),
            },
            supported_platforms: PlatformSupport { platforms: Vec::new() },
            dependencies: Vec::new(),
            build_dependencies: Vec::new(),
            external_dependencies: Vec::new(),
            test_dependencies: Vec::new(),
            test: TestSpec { kind: None, script: None, flags: Vec::new() },
        };
        proof {
            let model = rockspec@;
            let defaults = RockspecModel::defaults();
            assert(model.description.labels =~= defaults.description.labels);
            assert(model.supported_platforms =~= defaults.supported_platforms);
            assert(model.dependencies =~= defaults.dependencies);
            assert(model.build_dependencies =~= defaults.build_dependencies);
            assert(model.external_dependencies =~= defaults.external_dependencies);
            assert(model.test_dependencies =~= defaults.test_dependencies);
            assert(model.test.flags =~= defaults.test.flags);
        }
        rockspec
    }
}

impl LuaRockspec {
    /// Overrides this rockspec by `partial`: every field that `partial`
    /// gives replaces the field of the same name, and every other field
    /// stays.
    pub fn merge(self, partial: PartialLuaRockspec) -> (merged: LuaRockspec)
        ensures
            merged@ == self@.merged(partial@),
    {
        LuaRockspec {
            rockspec_format: match partial.rockspec_format {
                Some(format) => Some(format),
                None => self.rockspec_format,
            },
            package: match partial.package {
                Some(package) => package,
                None => self.package,
            },
            version: self.version,
            source: self.source,
            build: match partial.build {
                Some(build) => build,
                None => self.build,
            },
            deploy: match partial.deploy {
                Some(deploy) => deploy,
                None => self.deploy,
            },
            description: match partial.description {
                Some(description) => description,
                None => self.description,
            },
            supported_platforms: match partial.supported_platforms {
                Some(platforms) => platforms,
                None => self.supported_platforms,
            },
            dependencies: match partial.dependencies {
                Some(dependencies) => dependencies,
                None => self.dependencies,
            },
            build_dependencies: match partial.build_dependencies {
                Some(dependencies) => dependencies,
                None => self.build_dependencies,
            },
            external_dependencies: match partial.external_dependencies {
                Some(dependencies) => dependencies,
                None => self.external_dependencies,
            },
            test_dependencies: match partial.test_dependencies {
                Some(dependencies) => dependencies,
                None => self.test_dependencies,
            },
            test: match partial.test {
                Some(test) => test,
                None => self.test,
            },
        }
    }

    /// The rockspec that a base document declares, from the globals that
    /// evaluating it left behind.
    pub fn from_globals(globals: &LuaTable) -> (result: Result<LuaRockspec, RockspecError>)
        ensures
            viewed(result) == rockspec_in(globals@),
    {
        let version = match globals.get("version") {
            None => String::new(),
            Some(LuaValue::Nil) => String::new(),
            Some(value) => match read_text(value) {
                Some(version) => version,
                None => return Err(
                    RockspecError::FieldType { field: String::from_str("version") },
                ),
            },
        };
        let source = match globals.get("source") {
            None => RockSource { url: None },
            Some(LuaValue::Nil) => RockSource { url: None },
            Some(value) => match read_source(value) {
                Some(source) => source,
                None => return Err(RockspecError::FieldType { field: String::from_str("source") }),
            },
        };
        let fields = match PartialLuaRockspec::read_fields(globals) {
            Ok(fields) => fields,
            Err(error) => return Err(error),
        };
        let mut base = LuaRockspec::default();
        base.version = version;
        base.source = source;
        Ok(base.merge(fields))
    }

    /// Evaluates `rockspec_content` and reads the rockspec that it declares.
    ///
    /// What a document assigns is known only once it has run, so the result
    /// is stated for whatever the document left behind: it is what
    /// [`LuaRockspec::from_globals`] makes of some globals.
    pub fn new(rockspec_content: &str) -> (result: Result<LuaRockspec, RockspecError>)
        ensures
            result matches Err(RockspecError::Script { .. }) || exists|globals: TableModel|
                viewed(result) == rockspec_in(globals),
    {
        let names = [
            "version",
            "source",
            "rockspec_format",
            "package",
            "description",
            "supported_platforms",
            "dependencies",
            "build_dependencies",
            "test_dependencies",
            "external_dependencies",
            "build",
            "test",
            "deploy",
        ];
        let document = match Document::evaluate(rockspec_content, names.as_slice()) {
            Ok(document) => document,
            Err(failure) => return Err(failure),
        };
        let globals = match document.globals(names.as_slice()) {
            Ok(globals) => globals,
            Err(failure) => return Err(failure),
        };
        let result = Self::from_globals(&globals);
        assert(viewed(result) == rockspec_in(globals@));
        result
    }

    /// Loads a rockspec from the text of a base document and, where there is
    /// one, the text of a partial document that overrides it.
    ///
    /// The base document is loaded first and its failure is the failure of
    /// the whole; then the partial one. Either a complete rockspec comes
    /// back or none.
    pub fn load(base_content: &str, partial_content: Option<&str>) -> (result: Result<
        LuaRockspec,
        RockspecError,
    >)
        ensures
            result matches Ok(rockspec) ==> exists|base: TableModel, partial: Option<TableModel>|
                #[trigger] loads_as(base, partial, rockspec@) && (partial is Some
                    <==> partial_content is Some),
            result matches Err(error) ==> error is Script || (exists|base: TableModel|
                rockspec_in(base) == Err::<RockspecModel, RockspecFault>(error@)) || (
            partial_content is Some && exists|partial: TableModel|
                partial_in(partial) == Err::<PartialModel, RockspecFault>(error@)),
    {
        let base = match Self::new(base_content) {
            Ok(base) => base,
            Err(error) => return Err(error),
        };
        let ghost declared = choose|globals: TableModel|
            viewed(Ok::<LuaRockspec, RockspecError>(base)) == rockspec_in(globals);
        match partial_content {
            None => {
                assert(loads_as(declared, None, base@));
                Ok(base)
            },
            Some(content) => match PartialLuaRockspec::new(content) {
                Ok(partial) => {
                    let ghost overrides = choose|globals: TableModel|
                        viewed(Ok::<PartialLuaRockspec, RockspecError>(partial)) == partial_in(globals);
                    let merged = base.merge(partial);
                    assert(loads_as(declared, Some(overrides), merged@));
                    Ok(merged)
                },
                Err(error) => Err(error),
            },
        }
    }
}

/// A base document whose fields all have their shape always loads, and
/// every field that it does not assign has its default.
pub proof fn law_base_loads_with_defaults(globals: TableModel)
    requires
        well_shaped(globals),
    ensures
        rockspec_in(globals) is Ok,
        ({
            let rockspec = rockspec_in(globals)->Ok_0;
            let defaults = RockspecModel::defaults();
            &&& !globals.has("rockspec_format"@) ==> rockspec.rockspec_format
                == defaults.rockspec_format
            &&& !globals.has("package"@) ==> rockspec.package == defaults.package
            &&& !globals.has("version"@) ==> rockspec.version == defaults.version
            &&& !globals.has("source"@) ==> rockspec.source == defaults.source
            &&& !globals.has("build"@) ==> rockspec.build == defaults.build
            &&& !globals.has("deploy"@) ==> rockspec.deploy == defaults.deploy
            &&& !globals.has("description"@) ==> rockspec.description == defaults.description
            &&& !globals.has("supported_platforms"@) ==> rockspec.supported_platforms
                == defaults.supported_platforms
            &&& !globals.has("dependencies"@) ==> rockspec.dependencies == defaults.dependencies
            &&& !globals.has("build_dependencies"@) ==> rockspec.build_dependencies
                == defaults.build_dependencies
            &&& !globals.has("external_dependencies"@) ==> rockspec.external_dependencies
                == defaults.external_dependencies
            &&& !globals.has("test_dependencies"@) ==> rockspec.test_dependencies
                == defaults.test_dependencies
            &&& !globals.has("test"@) ==> rockspec.test == defaults.test
        }),
{
}

/// A document that assigns nothing is a base document, and declares the
/// defaults.
pub proof fn law_empty_document_declares_defaults()
    ensures
        rockspec_in(TableModel::empty()) == Ok::<RockspecModel, RockspecFault>(
            RockspecModel::defaults(),
        ),
{
    let globals = TableModel::empty();
    assert forall|name: Seq<char>| globals.get(name) is Nil by {}
}

/// Merging with a partial rockspec that gives no field changes nothing.
pub proof fn law_merge_empty_partial(base: RockspecModel)
    ensures
        base.merged(PartialModel::empty()) == base,
{
}

/// Merging overrides by presence: a field that the partial rockspec gives
/// is taken from it, and a field that it does not give is taken from the
/// base.
pub proof fn law_merge_overrides_by_presence(base: RockspecModel, partial: PartialModel)
    ensures
        ({
            let merged = base.merged(partial);
            &&& merged.version == base.version
            &&& merged.source == base.source
            &&& merged.rockspec_format == if partial.rockspec_format is Some {
                partial.rockspec_format
            } else {
                base.rockspec_format
            }
            &&& merged.package == if partial.package is Some {
                partial.package->0
            } else {
                base.package
            }
            &&& merged.build == if partial.build is Some {
                partial.build->0
            } else {
                base.build
            }
            &&& merged.deploy == if partial.deploy is Some {
                partial.deploy->0
            } else {
                base.deploy
            }
            &&& merged.description == if partial.description is Some {
                partial.description->0
            } else {
                base.description
            }
            &&& merged.supported_platforms == if partial.supported_platforms is Some {
                partial.supported_platforms->0
            } else {
                base.supported_platforms
            }
            &&& merged.dependencies == if partial.dependencies is Some {
                partial.dependencies->0
            } else {
                base.dependencies
            }
            &&& merged.build_dependencies == if partial.build_dependencies is Some {
                partial.build_dependencies->0
            } else {
                base.build_dependencies
            }
            &&& merged.external_dependencies == if partial.external_dependencies is Some {
                partial.external_dependencies->0
            } else {
                base.external_dependencies
            }
            &&& merged.test_dependencies == if partial.test_dependencies is Some {
                partial.test_dependencies->0
            } else {
                base.test_dependencies
            }
            &&& merged.test == if partial.test is Some {
                partial.test->0
            } else {
                base.test
            }
        }),
{
}

/// Merging twice with the same partial rockspec is merging once.
pub proof fn law_merge_idempotent(base: RockspecModel, partial: PartialModel)
    ensures
        base.merged(partial).merged(partial) == base.merged(partial),
{
}

} // verus!
