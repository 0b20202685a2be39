//! The typed parts of a rockspec, and how each is read out of what a script
//! assigned.

use vstd::prelude::*;
use crate::command::CommandBuildSpec;
use crate::shape::{
    flag_in, optional_text_in, optional_text_list_in, read_flag, read_optional_text,
    read_optional_text_list, read_table, read_text_list, text_list_in,
};
use crate::text::{chars_of, same_text, text_between};
use crate::value::{FieldModel, LuaValue, ValueModel};

verus! {

/// The free-text part of a rockspec.
#[derive(Clone, Debug, PartialEq, Eq)]
pub struct RockDescription {
    pub summary: Option<String>,
    pub detailed: Option<String>,
    pub license: Option<String>,
    pub homepage: Option<String>,
    pub issues_url: Option<String>,
    pub maintainer: Option<String>,
    pub labels: Vec<String>,
}

/// The mathematical model of [`RockDescription`].
pub ghost struct DescriptionModel {
    pub summary: Option<Seq<char>>,
    pub detailed: Option<Seq<char>>,
    pub license: Option<Seq<char>>,
    pub homepage: Option<Seq<char>>,
    pub issues_url: Option<Seq<char>>,
    pub maintainer: Option<Seq<char>>,
    pub labels: Seq<Seq<char>>,
}

impl View for RockDescription {
    type V = DescriptionModel;

    open spec fn view(&self) -> DescriptionModel {
        DescriptionModel {
            summary: self.summary.deep_view(),
            detailed: self.detailed.deep_view(),
            license: self.license.deep_view(),
            homepage: self.homepage.deep_view(),
            issues_url: self.issues_url.deep_view(),
            maintainer: self.maintainer.deep_view(),
            labels: self.labels.deep_view(),
        }
    }
}

impl DeepView for RockDescription {
    type V = DescriptionModel;

    open spec fn deep_view(&self) -> DescriptionModel {
        self@
    }
}

/// The description that `value` declares, if it has the shape of one: a
/// table whose text fields are text and whose labels are a list of text.
pub open spec fn description_in(value: ValueModel) -> Option<DescriptionModel> {
    match value {
        ValueModel::Table(table) => {
            let summary = optional_text_in(table.get("summary"@));
            let detailed = optional_text_in(table.get("detailed"@));
            let license = optional_text_in(table.get("license"@));
            let homepage = optional_text_in(table.get("homepage"@));
            let issues_url = optional_text_in(table.get("issues_url"@));
            let maintainer = optional_text_in(table.get("maintainer"@));
            let labels = optional_text_list_in(table.get("labels"@));
            if summary is Some && detailed is Some && license is Some && homepage is Some
                && issues_url is Some && maintainer is Some && labels is Some {
                Some(
                    DescriptionModel {
                        summary: summary->0,
                        detailed: detailed->0,
                        license: license->0,
                        homepage: homepage->0,
                        issues_url: issues_url->0,
                        maintainer: maintainer->0,
                        labels: labels->0,
                    },
                )
            } else {
                None
            }
        },
        _ => None,
    }
}

/// Reads a description; `None` where `value` does not have the shape of one.
pub fn read_description(value: &LuaValue) -> (description: Option<RockDescription>)
    ensures
        description.deep_view() == description_in(value@),
{
    let table = match read_table(value) {
        Some(table) => table,
        None => return None,
    };
    let summary = match read_optional_text(table.get("summary")) {
        Some(text) => text,
        None => return None,
    };
    let detailed = match read_optional_text(table.get("detailed")) {
        Some(text) => text,
        None => return None,
    };
    let license = match read_optional_text(table.get("license")) {
        Some(text) => text,
        None => return None,
    };
    let homepage = match read_optional_text(table.get("homepage")) {
        Some(text) => text,
        None => return None,
    };
    let issues_url = match read_optional_text(table.get("issues_url")) {
        Some(text) => text,
        None => return None,
    };
    let maintainer = match read_optional_text(table.get("maintainer")) {
        Some(text) => text,
        None => return None,
    };
    let labels = match read_optional_text_list(table.get("labels")) {
        Some(texts) => texts,
        None => return None,
    };
    Some(RockDescription { summary, detailed, license, homepage, issues_url, maintainer, labels })
}

/// One platform that a package says it supports, or says it does not.
#[derive(Clone, Debug, PartialEq, Eq)]
pub struct PlatformPredicate {
    pub name: String,
    /// `false` where the rockspec writes the name behind a `!`.
    pub supported: bool,
}

/// The mathematical model of [`PlatformPredicate`].
pub ghost struct PlatformModel {
    pub name: Seq<char>,
    pub supported: bool,
}

impl View for PlatformPredicate {
    type V = PlatformModel;

    open spec fn view(&self) -> PlatformModel {
        PlatformModel { name: self.name@, supported: self.supported }
    }
}

impl DeepView for PlatformPredicate {
    type V = PlatformModel;

    open spec fn deep_view(&self) -> PlatformModel {
        self@
    }
}

/// The platforms that a package supports and excludes, as declared.
#[derive(Clone, Debug, PartialEq, Eq)]
pub struct PlatformSupport {
    pub platforms: Vec<PlatformPredicate>,
}

impl View for PlatformSupport {
    type V = Seq<PlatformModel>;

    open spec fn view(&self) -> Seq<PlatformModel> {
        self.platforms.deep_view()
    }
}

impl DeepView for PlatformSupport {
    type V = Seq<PlatformModel>;

    open spec fn deep_view(&self) -> Seq<PlatformModel> {
        self@
    }
}

/// What one entry of a platform list says: a leading `!` excludes the
/// platform named behind it.
pub open spec fn platform_in(text: Seq<char>) -> PlatformModel {
    if text.len() > 0 && text[0] == '!' {
        PlatformModel { name: text.skip(1), supported: false }
    } else {
        PlatformModel { name: text, supported: true }
    }
}

/// The platforms that `value` lists, if it is a list of text.
pub open spec fn platforms_in(value: ValueModel) -> Option<Seq<PlatformModel>> {
    match text_list_in(value) {
        Some(texts) => Some(Seq::new(texts.len(), |i: int| platform_in(texts[i]))),
        None => None,
    }
}

/// Reads one entry of a platform list.
pub fn read_platform(text: &str) -> (platform: PlatformPredicate)
    ensures
        platform@ == platform_in(text@),
{
    let chars = chars_of(text);
    if chars.len() > 0 && chars[0] == '!' {
        let name = text_between(chars.as_slice(), 1, chars.len());
        assert(chars@.subrange(1, chars@.len() as int) == chars@.skip(1));
        PlatformPredicate { name, supported: false }
    } else {
        PlatformPredicate { name: String::from_str(text), supported: true }
    }
}

/// Reads a platform list; `None` where `value` is not a list of text.
pub fn read_platforms(value: &LuaValue) -> (support: Option<PlatformSupport>)
    ensures
        support.deep_view() == platforms_in(value@),
{
    let texts = match read_text_list(value) {
        Some(texts) => texts,
        None => return None,
    };
    let mut platforms: Vec<PlatformPredicate> = Vec::new();
    let mut i: usize = 0;
    while i < texts.len()
        invariant
            i <= texts.len(),
            platforms@.len() == i,
            forall|k: int| 0 <= k < i ==> (#[trigger] platforms@[k])@ == platform_in(texts@[k]@),
        decreases texts.len() - i,
    {
        platforms.push(read_platform(texts[i].as_str()));
        i += 1;
    }
    let support = PlatformSupport { platforms };
    assert(support@ =~= platforms_in(value@)->0);
    Some(support)
}

/// A package that a rockspec depends on, and the versions of it that will do.
#[derive(Clone, Debug, PartialEq, Eq)]
pub struct LuaDependencySpec {
    pub name: String,
    /// The version constraint as written; empty where any version will do.
    pub constraint: String,
}

/// The mathematical model of [`LuaDependencySpec`].
pub ghost struct DependencyModel {
    pub name: Seq<char>,
    pub constraint: Seq<char>,
}

impl View for LuaDependencySpec {
    type V = DependencyModel;

    open spec fn view(&self) -> DependencyModel {
        DependencyModel { name: self.name@, constraint: self.constraint@ }
    }
}

impl DeepView for LuaDependencySpec {
    type V = DependencyModel;

    open spec fn deep_view(&self) -> DependencyModel {
        self@
    }
}

/// Whether `c` separates a name from its constraint.
pub open spec fn is_blank(c: char) -> bool {
    c == ' ' || c == '\t'
}

/// How many characters of `text` stand before its first blank.
pub open spec fn word_length(text: Seq<char>) -> nat
    decreases text.len(),
{
    if text.len() == 0 || is_blank(text[0]) {
        0
    } else {
        1 + word_length(text.skip(1))
    }
}

/// How many blanks `text` begins with.
pub open spec fn blank_length(text: Seq<char>) -> nat
    decreases text.len(),
{
    if text.len() == 0 || !is_blank(text[0]) {
        0
    } else {
        1 + blank_length(text.skip(1))
    }
}

/// The dependency that `text` declares: the package's name is the first
/// word, and the constraint is what follows the blanks behind it. Text that
/// does not begin with a name declares nothing.
pub open spec fn dependency_in(text: Seq<char>) -> Option<DependencyModel> {
    let name_end = word_length(text) as int;
    if name_end == 0 {
        None
    } else {
        let rest = text.skip(name_end);
        Some(
            DependencyModel {
                name: text.take(name_end),
                constraint: rest.skip(blank_length(rest) as int),
            },
        )
    }
}

/// The dependencies that `value` lists, if it is a list of text each entry
/// of which declares one.
pub open spec fn dependencies_in(value: ValueModel) -> Option<Seq<DependencyModel>> {
    match text_list_in(value) {
        Some(texts) => if forall|i: int|
            0 <= i < texts.len() ==> dependency_in(#[trigger] texts[i]) is Some {
            Some(Seq::new(texts.len(), |i: int| dependency_in(texts[i])->0))
        } else {
            None
        },
        None => None,
    }
}

/// Reads one dependency; `None` where `text` does not begin with a name.
pub fn read_dependency(text: &str) -> (dependency: Option<LuaDependencySpec>)
    ensures
        dependency.deep_view() == dependency_in(text@),
{
    let chars = chars_of(text);
    let mut name_end: usize = 0;
    assert(chars@.skip(0) == chars@);
    while name_end < chars.len() && !(chars[name_end] == ' ' || chars[name_end] == '\t')
        invariant
            name_end <= chars.len(),
            word_length(chars@) == name_end + word_length(chars@.skip(name_end as int)),
        decreases chars.len() - name_end,
    {
        assert(chars@.skip(name_end as int).skip(1) == chars@.skip(name_end + 1));
        name_end += 1;
    }
    if name_end == 0 {
        return None;
    }
    let ghost rest = chars@.skip(name_end as int);
    let mut start: usize = name_end;
    assert(rest.skip(0) == rest);
    while start < chars.len() && (chars[start] == ' ' || chars[start] == '\t')
        invariant
            name_end <= start <= chars.len(),
            rest == chars@.skip(name_end as int),
            blank_length(rest) == (start - name_end) + blank_length(chars@.skip(start as int)),
        decreases chars.len() - start,
    {
        assert(chars@.skip(start as int).skip(1) == chars@.skip(start + 1));
        start += 1;
    }
    let name = text_between(chars.as_slice(), 0, name_end);
    let constraint = text_between(chars.as_slice(), start, chars.len());
    proof {
        assert(chars@.subrange(0, name_end as int) == chars@.take(name_end as int));
        assert(chars@.subrange(start as int, chars@.len() as int) == rest.skip(
            blank_length(rest) as int,
        ));
    }
    Some(LuaDependencySpec { name, constraint })
}

/// Reads a dependency list; `None` where `value` is not a list of dependencies.
pub fn read_dependencies(value: &LuaValue) -> (dependencies: Option<Vec<LuaDependencySpec>>)
    ensures
        dependencies.deep_view() == dependencies_in(value@),
{
    let texts = match read_text_list(value) {
        Some(texts) => texts,
        None => return None,
    };
    let mut dependencies: Vec<LuaDependencySpec> = Vec::new();
    let mut i: usize = 0;
    while i < texts.len()
        invariant
            i <= texts.len(),
            dependencies@.len() == i,
            text_list_in(value@) == Some(texts.deep_view()),
            forall|k: int| 0 <= k < i ==> dependency_in(#[trigger] texts.deep_view()[k]) is Some,
            forall|k: int|
                0 <= k < i ==> (#[trigger] dependencies@[k])@ == dependency_in(
                    texts.deep_view()[k],
                )->0,
        decreases texts.len() - i,
    {
        assert(texts.deep_view()[i as int] == texts@[i as int]@);
        match read_dependency(texts[i].as_str()) {
            Some(dependency) => {
                dependencies.push(dependency);
            },
            None => {
                return None;
            },
        }
        i += 1;
    }
    assert(dependencies.deep_view() =~= dependencies_in(value@)->0);
    Some(dependencies)
}

/// What a package needs of a system library: a header, a library file, or
/// both.
#[derive(Clone, Debug, PartialEq, Eq)]
pub struct ExternalDependencySpec {
    pub header: Option<String>,
    pub library: Option<String>,
}

/// One declared external dependency.
#[derive(Clone, Debug, PartialEq, Eq)]
pub struct ExternalDependencyDecl {
    pub name: String,
    pub spec: ExternalDependencySpec,
}

/// The mathematical model of [`ExternalDependencySpec`].
pub ghost struct ExternalSpecModel {
    pub header: Option<Seq<char>>,
    pub library: Option<Seq<char>>,
}

/// The mathematical model of [`ExternalDependencyDecl`].
pub ghost struct ExternalDeclModel {
    pub name: Seq<char>,
    pub spec: ExternalSpecModel,
}

impl View for ExternalDependencySpec {
    type V = ExternalSpecModel;

    open spec fn view(&self) -> ExternalSpecModel {
        ExternalSpecModel { header: self.header.deep_view(), library: self.library.deep_view() }
    }
}

impl DeepView for ExternalDependencySpec {
    type V = ExternalSpecModel;

    open spec fn deep_view(&self) -> ExternalSpecModel {
        self@
    }
}

impl View for ExternalDependencyDecl {
    type V = ExternalDeclModel;

    open spec fn view(&self) -> ExternalDeclModel {
        ExternalDeclModel { name: self.name@, spec: self.spec@ }
    }
}

impl DeepView for ExternalDependencyDecl {
    type V = ExternalDeclModel;

    open spec fn deep_view(&self) -> ExternalDeclModel {
        self@
    }
}

/// The requirement that `value` states, if it is a table whose `header` and
/// `library`, where given, are text.
pub open spec fn external_spec_in(value: ValueModel) -> Option<ExternalSpecModel> {
    match value {
        ValueModel::Table(table) => {
            let header = optional_text_in(table.get("header"@));
            let library = optional_text_in(table.get("library"@));
            if header is Some && library is Some {
                Some(ExternalSpecModel { header: header->0, library: library->0 })
            } else {
                None
            }
        },
        _ => None,
    }
}

/// Whether one of `declared` is called `name`.
pub open spec fn declares(declared: Seq<ExternalDeclModel>, name: Seq<char>) -> bool {
    exists|k: int| 0 <= k < declared.len() && (#[trigger] declared[k]).name == name
}

/// The declarations that `fields` make, in their order. A name is declared
/// once: of several fields with one name the first counts.
pub open spec fn declarations(fields: Seq<FieldModel>) -> Seq<ExternalDeclModel>
    decreases fields.len(),
{
    if fields.len() == 0 {
        Seq::empty()
    } else {
        let before = declarations(fields.drop_last());
        let last = fields.last();
        if declares(before, last.name) {
            before
        } else {
            before.push(
                ExternalDeclModel { name: last.name, spec: external_spec_in(last.value)->0 },
            )
        }
    }
}

/// The external dependencies that `value` declares, one for each of its
/// string keys in the table's order, if it is a table and what it holds
/// under each of them states a requirement.
pub open spec fn externals_in(value: ValueModel) -> Option<Seq<ExternalDeclModel>> {
    match value {
        ValueModel::Table(table) => if forall|i: int|
            0 <= i < table.fields.len() ==> external_spec_in((#[trigger] table.fields[i]).value)
                is Some {
            Some(declarations(table.fields))
        } else {
            None
        },
        _ => None,
    }
}

/// No name is declared twice.
pub proof fn law_externals_named_once(fields: Seq<FieldModel>)
    ensures
        forall|i: int, j: int|
            0 <= i < j < declarations(fields).len() ==> (#[trigger] declarations(fields)[i]).name
                != (#[trigger] declarations(fields)[j]).name,
    decreases fields.len(),
{
    if fields.len() > 0 {
        law_externals_named_once(fields.drop_last());
        let before = declarations(fields.drop_last());
        let all = declarations(fields);
        if !declares(before, fields.last().name) {
            assert forall|i: int, j: int| 0 <= i < j < all.len() implies (#[trigger] all[i]).name != (
            #[trigger] all[j]).name by {
                if j == before.len() {
                    assert(all[i] == before[i]);
                } else {
                    assert(all[i] == before[i] && all[j] == before[j]);
                }
            }
        }
    }
}

/// Reads the requirement of one external dependency; `None` where `value` does
/// not have the shape of one.
pub fn read_external_spec(value: &LuaValue) -> (spec: Option<ExternalDependencySpec>)
    ensures
        spec.deep_view() == external_spec_in(value@),
{
    let table = match read_table(value) {
        Some(table) => table,
        None => return None,
    };
    let header = match read_optional_text(table.get("header")) {
        Some(text) => text,
        None => return None,
    };
    let library = match read_optional_text(table.get("library")) {
        Some(text) => text,
        None => return None,
    };
    Some(ExternalDependencySpec { header, library })
}

fn is_declared(declared: &Vec<ExternalDependencyDecl>, name: &str) -> (found: bool)
    ensures
        found == declares(declared.deep_view(), name@),
{
    let mut k: usize = 0;
    while k < declared.len()
        invariant
            k <= declared.len(),
            forall|n: int| 0 <= n < k ==> (#[trigger] declared.deep_view()[n]).name != name@,
        decreases declared.len() - k,
    {
        assert(declared.deep_view()[k as int] == declared@[k as int]@);
        if same_text(declared[k].name.as_str(), name) {
            return true;
        }
        k += 1;
    }
    false
}

/// Reads the external dependencies; `None` where `value` does not have their
/// shape.
pub fn read_externals(value: &LuaValue) -> (declared: Option<Vec<ExternalDependencyDecl>>)
    ensures
        declared.deep_view() == externals_in(value@),
{
    let table = match read_table(value) {
        Some(table) => table,
        None => return None,
    };
    let mut declared: Vec<ExternalDependencyDecl> = Vec::new();
    let mut i: usize = 0;
    assert(table@.fields.take(0) == Seq::<FieldModel>::empty());
    assert(declared.deep_view() =~= declarations(table@.fields.take(0)));
    while i < table.fields.len()
        invariant
            i <= table.fields.len(),
            value@ == ValueModel::Table(table@),
            forall|k: int|
                0 <= k < i ==> external_spec_in((#[trigger] table@.fields[k]).value) is Some,
            declared.deep_view() == declarations(table@.fields.take(i as int)),
        decreases table.fields.len() - i,
    {
        let ghost before = declared.deep_view();
        proof {
            let next = table@.fields.take(i + 1);
            assert(table@.fields[i as int] == table.fields[i as int]@);
            assert(next.drop_last() == table@.fields.take(i as int));
            assert(next.last() == table@.fields[i as int]);
        }
        match read_external_spec(&table.fields[i].value) {
            Some(spec) => {
                if !is_declared(&declared, table.fields[i].name.as_str()) {
                    let declaration = ExternalDependencyDecl {
                        name: table.fields[i].name.clone(),
                        spec,
                    };
                    declared.push(declaration);
                    assert(declared.deep_view() =~= before.push(declaration@));
                }
            },
            None => {
                return None;
            },
        }
        i += 1;
    }
    assert(table@.fields.take(table@.fields.len() as int) == table@.fields);
    Some(declared)
}

/// How a package is built.
#[derive(Clone, Debug, PartialEq, Eq)]
pub enum BuildSpec {
    /// The built-in backend, which copies and compiles what the rockspec
    /// lists.
    Builtin,
    /// Commands of the package's own.
    Command(CommandBuildSpec),
    /// A backend that wraps a build tool, by the name the rockspec gives it.
    Tool { name: String },
}

/// The mathematical model of [`BuildSpec`].
pub ghost enum BuildModel {
    Builtin,
    Command { build_command: Option<Seq<char>>, install_command: Option<Seq<char>> },
    Tool { name: Seq<char> },
}

impl View for BuildSpec {
    type V = BuildModel;

    open spec fn view(&self) -> BuildModel {
        match self {
            BuildSpec::Builtin => BuildModel::Builtin,
            BuildSpec::Command(spec) => BuildModel::Command {
                build_command: spec.build_command.deep_view(),
                install_command: spec.install_command.deep_view(),
            },
            BuildSpec::Tool { name } => BuildModel::Tool { name: name@ },
        }
    }
}

impl DeepView for BuildSpec {
    type V = BuildModel;

    open spec fn deep_view(&self) -> BuildModel {
        self@
    }
}

/// The build that `value` declares, if it is a table whose `type`,
/// `build_command` and `install_command`, where given, are text.
///
/// The `type` selects the backend. Without one, a table that gives a command
/// declares a command build, and any other table the built-in one.
pub open spec fn build_in(value: ValueModel) -> Option<BuildModel> {
    match value {
        ValueModel::Table(table) => {
            let kind = optional_text_in(table.get("type"@));
            let build_command = optional_text_in(table.get("build_command"@));
            let install_command = optional_text_in(table.get("install_command"@));
            if kind is Some && build_command is Some && install_command is Some {
                let command = BuildModel::Command {
                    build_command: build_command->0,
                    install_command: install_command->0,
                };
                Some(
                    match kind->0 {
                        Some(name) => if name == "command"@ {
                            command
                        } else if name == "builtin"@ {
                            BuildModel::Builtin
                        } else {
                            BuildModel::Tool { name }
                        },
                        None => if build_command->0 is Some || install_command->0 is Some {
                            command
                        } else {
                            BuildModel::Builtin
                        },
                    },
                )
            } else {
                None
            }
        },
        _ => None,
    }
}

/// Reads a build; `None` where `value` does not have the shape of one.
pub fn read_build(value: &LuaValue) -> (build: Option<BuildSpec>)
    ensures
        build.deep_view() == build_in(value@),
{
    let table = match read_table(value) {
        Some(table) => table,
        None => return None,
    };
    let kind = match read_optional_text(table.get("type")) {
        Some(text) => text,
        None => return None,
    };
    let build_command = match read_optional_text(table.get("build_command")) {
        Some(text) => text,
        None => return None,
    };
    let install_command = match read_optional_text(table.get("install_command")) {
        Some(text) => text,
        None => return None,
    };
    Some(
        match kind {
            Some(name) => {
                if same_text(name.as_str(), "command") {
                    BuildSpec::Command(CommandBuildSpec { build_command, install_command })
                } else if same_text(name.as_str(), "builtin") {
                    BuildSpec::Builtin
                } else {
                    BuildSpec::Tool { name }
                }
            },
            None => {
                if build_command.is_some() || install_command.is_some() {
                    BuildSpec::Command(CommandBuildSpec { build_command, install_command })
                } else {
                    BuildSpec::Builtin
                }
            },
        },
    )
}

/// How a package is tested.
#[derive(Clone, Debug, PartialEq, Eq)]
pub struct TestSpec {
    /// The test backend, from the table's `type`.
    pub kind: Option<String>,
    pub script: Option<String>,
    pub flags: Vec<String>,
}

/// The mathematical model of [`TestSpec`].
pub ghost struct TestModel {
    pub kind: Option<Seq<char>>,
    pub script: Option<Seq<char>>,
    pub flags: Seq<Seq<char>>,
}

impl View for TestSpec {
    type V = TestModel;

    open spec fn view(&self) -> TestModel {
        TestModel {
            kind: self.kind.deep_view(),
            script: self.script.deep_view(),
            flags: self.flags.deep_view(),
        }
    }
}

impl DeepView for TestSpec {
    type V = TestModel;

    open spec fn deep_view(&self) -> TestModel {
        self@
    }
}

/// The test setup that `value` declares, if it is a table whose `type` and
/// `script`, where given, are text and whose `flags` are a list of text.
pub open spec fn test_in(value: ValueModel) -> Option<TestModel> {
    match value {
        ValueModel::Table(table) => {
            let kind = optional_text_in(table.get("type"@));
            let script = optional_text_in(table.get("script"@));
            let flags = optional_text_list_in(table.get("flags"@));
            if kind is Some && script is Some && flags is Some {
                Some(TestModel { kind: kind->0, script: script->0, flags: flags->0 })
            } else {
                None
            }
        },
        _ => None,
    }
}

/// Reads a test setup; `None` where `value` does not have the shape of one.
pub fn read_test(value: &LuaValue) -> (test: Option<TestSpec>)
    ensures
        test.deep_view() == test_in(value@),
{
    let table = match read_table(value) {
        Some(table) => table,
        None => return None,
    };
    let kind = match read_optional_text(table.get("type")) {
        Some(text) => text,
        None => return None,
    };
    let script = match read_optional_text(table.get("script")) {
        Some(text) => text,
        None => return None,
    };
    let flags = match read_optional_text_list(table.get("flags")) {
        Some(texts) => texts,
        None => return None,
    };
    Some(TestSpec { kind, script, flags })
}

/// How a built package is put in place.
#[derive(Clone, Copy, Debug, PartialEq, Eq, Structural)]
pub struct DeploySpec {
    /// Whether installed scripts get a wrapper that sets up their
    /// environment. On unless the rockspec turns it off.
    pub wrap_bin_scripts: bool,
}

impl DeepView for DeploySpec {
    type V = DeploySpec;

    open spec fn deep_view(&self) -> DeploySpec {
        *self
    }
}

/// The deployment that `value` declares, if it is a table whose
/// `wrap_bin_scripts`, where given, is a truth value.
pub open spec fn deploy_in(value: ValueModel) -> Option<DeploySpec> {
    match value {
        ValueModel::Table(table) => match flag_in(table.get("wrap_bin_scripts"@), true) {
            Some(wrap_bin_scripts) => Some(DeploySpec { wrap_bin_scripts }),
            None => None,
        },
        _ => None,
    }
}

/// Reads a deployment; `None` where `value` does not have the shape of one.
pub fn read_deploy(value: &LuaValue) -> (deploy: Option<DeploySpec>)
    ensures
        deploy == deploy_in(value@),
{
    let table = match read_table(value) {
        Some(table) => table,
        None => return None,
    };
    match read_flag(table.get("wrap_bin_scripts"), true) {
        Some(wrap_bin_scripts) => Some(DeploySpec { wrap_bin_scripts }),
        None => None,
    }
}

/// Where a package's sources are fetched from.
#[derive(Clone, Debug, PartialEq, Eq)]
pub struct RockSource {
    pub url: Option<String>,
}

/// The mathematical model of [`RockSource`].
pub ghost struct SourceModel {
    pub url: Option<Seq<char>>,
}

impl View for RockSource {
    type V = SourceModel;

    open spec fn view(&self) -> SourceModel {
        SourceModel { url: self.url.deep_view() }
    }
}

impl DeepView for RockSource {
    type V = SourceModel;

    open spec fn deep_view(&self) -> SourceModel {
        self@
    }
}

/// The source that `value` declares, if it is a table whose `url`, where
/// given, is text.
pub open spec fn source_in(value: ValueModel) -> Option<SourceModel> {
    match value {
        ValueModel::Table(table) => match optional_text_in(table.get("url"@)) {
            Some(url) => Some(SourceModel { url }),
            None => None,
        },
        _ => None,
    }
}

/// Reads a source; `None` where `value` does not have the shape of one.
pub fn read_source(value: &LuaValue) -> (source: Option<RockSource>)
    ensures
        source.deep_view() == source_in(value@),
{
    let table = match read_table(value) {
        Some(table) => table,
        None => return None,
    };
    match read_optional_text(table.get("url")) {
        Some(url) => Some(RockSource { url }),
        None => None,
    }
}

} // verus!
