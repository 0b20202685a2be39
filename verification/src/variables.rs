//! Placeholders of the form `$(NAME)` in command templates, and the values that
//! a build offers for them.

use vstd::prelude::*;
use crate::outcome::viewed;
use crate::text::{chars_of, joined, same_text, text_between, text_of};

verus! {

/// Where a build places what it produces.
#[derive(Clone, Debug, PartialEq, Eq)]
pub struct RockLayout {
    /// Root of the package's own directory: `PREFIX`.
    pub rock_path: String,
    /// Native libraries: `LIBDIR`.
    pub lib: String,
    /// Lua modules: `LUADIR`.
    pub src: String,
    /// Executables: `BINDIR`.
    pub bin: String,
    /// Configuration files: `CONFDIR`.
    pub conf: String,
    /// Documentation: `DOCDIR`.
    pub doc: String,
}

/// The interpreter that a build targets.
#[derive(Clone, Debug, PartialEq, Eq)]
pub struct LuaInstallation {
    /// The interpreter's executable: `LUA`.
    pub lua: String,
    /// Directory of the interpreter's headers: `LUA_INCDIR`.
    pub include_dir: String,
    /// Directory of the interpreter's libraries: `LUA_LIBDIR`.
    pub lib_dir: String,
}

/// Where an external dependency was found on this machine.
#[derive(Clone, Debug, PartialEq, Eq)]
pub struct ExternalDependencyInfo {
    /// Directory of its header, when a header was asked for and found.
    pub include_dir: Option<String>,
    /// Directory of its library, when a library was asked for and found.
    pub lib_dir: Option<String>,
}

/// One located external dependency.
#[derive(Clone, Debug, PartialEq, Eq)]
pub struct ExternalDependency {
    pub name: String,
    pub info: ExternalDependencyInfo,
}

/// The located external dependencies of a build, by name.
#[derive(Clone, Debug)]
pub struct ExternalDependencies {
    entries: Vec<ExternalDependency>,
}

/// One named value.
#[derive(Clone, Debug, PartialEq, Eq)]
pub struct Variable {
    pub name: String,
    pub value: String,
}

/// Global configuration, as far as a build reads it: named values such as the
/// number of parallel jobs.
#[derive(Clone, Debug, PartialEq, Eq)]
pub struct Config {
    pub variables: Vec<Variable>,
}

/// Why a template could not be substituted.
#[derive(Clone, Debug, PartialEq, Eq)]
pub enum VariableSubstitutionError {
    /// A placeholder names a variable that nothing defines.
    Unresolved { name: String },
    /// A placeholder is opened by `$(` and never closed; `text` is the template
    /// from that placeholder on.
    Malformed { text: String },
}

/// The mathematical model of [`VariableSubstitutionError`].
pub ghost enum SubstitutionFault {
    Unresolved { name: Seq<char> },
    Malformed { text: Seq<char> },
}

impl View for VariableSubstitutionError {
    type V = SubstitutionFault;

    open spec fn view(&self) -> SubstitutionFault {
        match self {
            VariableSubstitutionError::Unresolved { name } => SubstitutionFault::Unresolved {
                name: name@,
            },
            VariableSubstitutionError::Malformed { text } => SubstitutionFault::Malformed {
                text: text@,
            },
        }
    }
}

impl RockLayout {
    /// The value that the layout gives to `name`, if it defines it.
    pub open spec fn variable(&self, name: Seq<char>) -> Option<Seq<char>> {
        if name == "PREFIX"@ {
            Some(self.rock_path@)
        } else if name == "LIBDIR"@ {
            Some(self.lib@)
        } else if name == "LUADIR"@ {
            Some(self.src@)
        } else if name == "BINDIR"@ {
            Some(self.bin@)
        } else if name == "CONFDIR"@ {
            Some(self.conf@)
        } else if name == "DOCDIR"@ {
            Some(self.doc@)
        } else {
            None
        }
    }

    /// The value that the layout gives to `name`, if it defines it.
    pub fn get_variable(&self, name: &str) -> (value: Option<String>)
        ensures
            value.deep_view() == self.variable(name@),
    {
        if same_text(name, "PREFIX") {
            Some(self.rock_path.clone())
        } else if same_text(name, "LIBDIR") {
            Some(self.lib.clone())
        } else if same_text(name, "LUADIR") {
            Some(self.src.clone())
        } else if same_text(name, "BINDIR") {
            Some(self.bin.clone())
        } else if same_text(name, "CONFDIR") {
            Some(self.conf.clone())
        } else if same_text(name, "DOCDIR") {
            Some(self.doc.clone())
        } else {
            None
        }
    }
}

impl LuaInstallation {
    /// The value that the interpreter gives to `name`, if it defines it.
    pub open spec fn variable(&self, name: Seq<char>) -> Option<Seq<char>> {
        if name == "LUA"@ {
            Some(self.lua@)
        } else if name == "LUA_INCDIR"@ {
            Some(self.include_dir@)
        } else if name == "LUA_LIBDIR"@ {
            Some(self.lib_dir@)
        } else {
            None
        }
    }

    /// The value that the interpreter gives to `name`, if it defines it.
    pub fn get_variable(&self, name: &str) -> (value: Option<String>)
        ensures
            value.deep_view() == self.variable(name@),
    {
        if same_text(name, "LUA") {
            Some(self.lua.clone())
        } else if same_text(name, "LUA_INCDIR") {
            Some(self.include_dir.clone())
        } else if same_text(name, "LUA_LIBDIR") {
            Some(self.lib_dir.clone())
        } else {
            None
        }
    }
}

impl ExternalDependency {
    /// The value that this dependency gives to `name`: its header directory to
    /// its own name followed by `_INCDIR`, its library directory to its own
    /// name followed by `_LIBDIR`, each only when known.
    pub open spec fn variable(&self, name: Seq<char>) -> Option<Seq<char>> {
        if name == self.name@ + "_INCDIR"@ && self.info.include_dir is Some {
            Some(self.info.include_dir->0@)
        } else if name == self.name@ + "_LIBDIR"@ && self.info.lib_dir is Some {
            Some(self.info.lib_dir->0@)
        } else {
            None
        }
    }

    /// The value that this dependency gives to `name`, if it defines it.
    pub fn get_variable(&self, name: &str) -> (value: Option<String>)
        ensures
            value.deep_view() == self.variable(name@),
    {
        let include_name = joined(self.name.as_str(), "_INCDIR");
        if same_text(name, include_name.as_str()) {
            if let Some(dir) = &self.info.include_dir {
                return Some(dir.clone());
            }
        }
        let library_name = joined(self.name.as_str(), "_LIBDIR");
        if same_text(name, library_name.as_str()) {
            if let Some(dir) = &self.info.lib_dir {
                return Some(dir.clone());
            }
        }
        None
    }
}

/// The value that the first of `entries` defining `name` gives to it.
pub open spec fn first_external(entries: Seq<ExternalDependency>, name: Seq<char>) -> Option<
    Seq<char>,
>
    decreases entries.len(),
{
    if entries.len() == 0 {
        None
    } else if entries[0].variable(name) is Some {
        entries[0].variable(name)
    } else {
        first_external(entries.skip(1), name)
    }
}

/// The value of the first of `variables` named `name`.
pub open spec fn first_named(variables: Seq<Variable>, name: Seq<char>) -> Option<Seq<char>>
    decreases variables.len(),
{
    if variables.len() == 0 {
        None
    } else if variables[0].name@ == name {
        Some(variables[0].value@)
    } else {
        first_named(variables.skip(1), name)
    }
}

impl ExternalDependencies {
    /// The dependencies held, oldest first.
    pub closed spec fn entries(&self) -> Seq<ExternalDependency> {
        self.entries@
    }

    /// No two of the dependencies held have the same name.
    pub open spec fn distinct_names(&self) -> bool {
        forall|i: int, j: int|
            0 <= i < j < self.entries().len() ==> self.entries()[i].name@
                != self.entries()[j].name@
    }

    /// Where the dependency called `name` was found, if one is held.
    pub open spec fn lookup(&self, name: Seq<char>) -> Option<ExternalDependencyInfo> {
        if exists|i: int| 0 <= i < self.entries().len() && self.entries()[i].name@ == name {
            let i = choose|i: int| 0 <= i < self.entries().len() && self.entries()[i].name@ == name;
            Some(self.entries()[i].info)
        } else {
            None
        }
    }

    /// The value that the dependencies give to `name`, if one defines it.
    pub open spec fn variable(&self, name: Seq<char>) -> Option<Seq<char>> {
        first_external(self.entries(), name)
    }

    /// No dependencies at all.
    pub fn new() -> (deps: Self)
        ensures
            deps.entries().len() == 0,
            deps.distinct_names(),
    {
        ExternalDependencies { entries: Vec::new() }
    }

    /// Records where `name` was found, in place of what was known of it.
    pub fn insert(&mut self, name: String, info: ExternalDependencyInfo)
        requires
            old(self).distinct_names(),
        ensures
            final(self).distinct_names(),
            final(self).lookup(name@) == Some(info),
            forall|other: Seq<char>|
                other != name@ ==> final(self).lookup(other) == old(self).lookup(other),
    {
        let mut i: usize = 0;
        while i < self.entries.len()
            invariant
                i <= self.entries.len(),
                self.entries == old(self).entries,
                old(self).distinct_names(),
                forall|k: int| 0 <= k < i ==> self.entries@[k].name@ != name@,
            decreases self.entries.len() - i,
        {
            if same_text(self.entries[i].name.as_str(), name.as_str()) {
                let ghost before = self.entries@;
                self.entries.set(i, ExternalDependency { name, info });
                proof {
                    let after = self.entries@;
                    assert(after.len() == before.len());
                    assert(forall|k: int|
                        0 <= k < after.len() ==> #[trigger] after[k].name@ == before[k].name@);
                    assert(after[i as int].info == info);
                    assert forall|other: Seq<char>| other != name@ implies self.lookup(other)
                        == old(self).lookup(other) by {
                        if exists|k: int| 0 <= k < before.len() && before[k].name@ == other {
                            let k = choose|k: int| 0 <= k < before.len() && before[k].name@ == other;
                            assert(after[k].name@ == other);
                            let m = choose|m: int| 0 <= m < after.len() && after[m].name@ == other;
                            assert(before[m].name@ == other);
                            assert(m == k);
                            assert(after[k] == before[k]);
                        } else {
                            if exists|m: int| 0 <= m < after.len() && after[m].name@ == other {
                                let m = choose|m: int|
                                    0 <= m < after.len() && after[m].name@ == other;
                                assert(before[m].name@ == other);
                            }
                        }
                    }
                    let c = choose|m: int| 0 <= m < after.len() && after[m].name@ == name@;
                    assert(after[i as int].name@ == name@);
                    assert(c == i);
                }
                return ;
            }
            i += 1;
        }
        let ghost before = self.entries@;
        self.entries.push(ExternalDependency { name, info });
        proof {
            let after = self.entries@;
            let last = before.len() as int;
            assert(after[last].name@ == name@);
            assert(forall|k: int| 0 <= k < before.len() ==> after[k] == before[k]);
            let c = choose|m: int| 0 <= m < after.len() && after[m].name@ == name@;
            assert(c == last);
            assert forall|other: Seq<char>| other != name@ implies self.lookup(other) == old(
                self,
            ).lookup(other) by {
                if exists|k: int| 0 <= k < before.len() && before[k].name@ == other {
                    let k = choose|k: int| 0 <= k < before.len() && before[k].name@ == other;
                    assert(after[k].name@ == other);
                    let m = choose|m: int| 0 <= m < after.len() && after[m].name@ == other;
                    assert(m == k);
                } else {
                    if exists|m: int| 0 <= m < after.len() && after[m].name@ == other {
                        let m = choose|m: int| 0 <= m < after.len() && after[m].name@ == other;
                        assert(m < last);
                        assert(before[m].name@ == other);
                    }
                }
            }
        }
    }

    /// The value that the dependencies give to `name`, if one defines it.
    pub fn get_variable(&self, name: &str) -> (value: Option<String>)
        ensures
            value.deep_view() == self.variable(name@),
    {
        let mut i: usize = 0;
        assert(self.entries@.skip(0) == self.entries@);
        while i < self.entries.len()
            invariant
                i <= self.entries.len(),
                self.variable(name@) == first_external(self.entries@.skip(i as int), name@),
            decreases self.entries.len() - i,
        {
            let found = self.entries[i].get_variable(name);
            proof {
                let rest = self.entries@.skip(i as int);
                assert(rest[0] == self.entries@[i as int]);
                assert(rest.skip(1) == self.entries@.skip(i + 1));
            }
            if found.is_some() {
                return found;
            }
            i += 1;
        }
        None
    }
}

impl Config {
    /// The value that the configuration gives to `name`, if it defines it.
    pub open spec fn variable(&self, name: Seq<char>) -> Option<Seq<char>> {
        first_named(self.variables@, name)
    }

    /// The value that the configuration gives to `name`, if it defines it.
    pub fn get_variable(&self, name: &str) -> (value: Option<String>)
        ensures
            value.deep_view() == self.variable(name@),
    {
        let mut i: usize = 0;
        assert(self.variables@.skip(0) == self.variables@);
        while i < self.variables.len()
            invariant
                i <= self.variables.len(),
                self.variable(name@) == first_named(self.variables@.skip(i as int), name@),
            decreases self.variables.len() - i,
        {
            proof {
                let rest = self.variables@.skip(i as int);
                assert(rest[0] == self.variables@[i as int]);
                assert(rest.skip(1) == self.variables@.skip(i + 1));
            }
            if same_text(self.variables[i].name.as_str(), name) {
                return Some(self.variables[i].value.clone());
            }
            i += 1;
        }
        None
    }
}

/// The value that a build gives to the variable `name`: the output layout is
/// asked first, then the interpreter, then the external dependencies, then the
/// configuration.
pub open spec fn resolved(
    name: Seq<char>,
    output_paths: RockLayout,
    lua: LuaInstallation,
    external_dependencies: ExternalDependencies,
    config: Config,
) -> Option<Seq<char>> {
    if output_paths.variable(name) is Some {
        output_paths.variable(name)
    } else if lua.variable(name) is Some {
        lua.variable(name)
    } else if external_dependencies.variable(name) is Some {
        external_dependencies.variable(name)
    } else {
        config.variable(name)
    }
}

/// What each variable is worth in a build.
pub open spec fn build_values(
    output_paths: RockLayout,
    lua: LuaInstallation,
    external_dependencies: ExternalDependencies,
    config: Config,
) -> spec_fn(Seq<char>) -> Option<Seq<char>> {
    |name: Seq<char>| resolved(name, output_paths, lua, external_dependencies, config)
}

/// The value that a build gives to the variable `name`, if it defines it.
pub fn resolve(
    name: &str,
    output_paths: &RockLayout,
    lua: &LuaInstallation,
    external_dependencies: &ExternalDependencies,
    config: &Config,
) -> (value: Option<String>)
    ensures
        value.deep_view() == resolved(name@, *output_paths, *lua, *external_dependencies, *config),
{
    let from_layout = output_paths.get_variable(name);
    if from_layout.is_some() {
        return from_layout;
    }
    let from_lua = lua.get_variable(name);
    if from_lua.is_some() {
        return from_lua;
    }
    let from_external = external_dependencies.get_variable(name);
    if from_external.is_some() {
        return from_external;
    }
    config.get_variable(name)
}

/// How many characters of `text` stand before its first `)`: all of them if
/// it has none.
pub open spec fn name_length(text: Seq<char>) -> nat
    decreases text.len(),
{
    if text.len() == 0 || text[0] == ')' {
        0
    } else {
        1 + name_length(text.skip(1))
    }
}

/// `head` put in front of a successful substitution; a failure stays as it is.
pub open spec fn after(head: Seq<char>, rest: Result<Seq<char>, SubstitutionFault>) -> Result<
    Seq<char>,
    SubstitutionFault,
> {
    match rest {
        Ok(tail) => Ok(head + tail),
        Err(fault) => Err(fault),
    }
}

/// What substituting `template` yields when `value_of` says what each variable
/// is worth.
///
/// The template is read from the left. `$(` opens a placeholder, which runs to
/// the next `)`; the characters between are the variable's name, and the whole
/// placeholder is replaced by the variable's value, which is not read again. A
/// placeholder that is never closed, or whose variable has no value, fails the
/// substitution at once. Every other character stands for itself.
pub open spec fn substituted(
    template: Seq<char>,
    value_of: spec_fn(Seq<char>) -> Option<Seq<char>>,
) -> Result<Seq<char>, SubstitutionFault>
    decreases template.len(),
{
    if template.len() == 0 {
        Ok(Seq::empty())
    } else if template.len() >= 2 && template[0] == '$' && template[1] == '(' {
        let close = 2 + name_length(template.skip(2)) as int;
        if close >= template.len() {
            Err(SubstitutionFault::Malformed { text: template })
        } else {
            let name = template.subrange(2, close);
            match value_of(name) {
                None => Err(SubstitutionFault::Unresolved { name }),
                Some(value) => after(value, substituted(template.skip(close + 1), value_of)),
            }
        }
    } else {
        after(seq![template[0]], substituted(template.skip(1), value_of))
    }
}

fn push_all(out: &mut Vec<char>, more: &Vec<char>)
    ensures
        final(out)@ == old(out)@ + more@,
{
    let mut i: usize = 0;
    while i < more.len()
        invariant
            i <= more.len(),
            out@ == old(out)@ + more@.take(i as int),
        decreases more.len() - i,
    {
        out.push(more[i]);
        assert(more@.take(i + 1) == more@.take(i as int).push(more@[i as int]));
        i += 1;
    }
    assert(more@.take(more.len() as int) == more@);
}

/// Replaces every placeholder of `input` by the value that the build gives to
/// its variable.
pub fn substitute_variables(
    input: &str,
    output_paths: &RockLayout,
    lua: &LuaInstallation,
    external_dependencies: &ExternalDependencies,
    config: &Config,
) -> (result: Result<String, VariableSubstitutionError>)
    ensures
        viewed(result) == substituted(
            input@,
            build_values(*output_paths, *lua, *external_dependencies, *config),
        ),
{
    let ghost value_of = build_values(*output_paths, *lua, *external_dependencies, *config);
    let template = chars_of(input);
    let mut out: Vec<char> = Vec::new();
    let mut i: usize = 0;
    assert(template@.skip(0) == template@);
    assert(after(out@, substituted(template@, value_of)) == substituted(template@, value_of)) by {
        match substituted(template@, value_of) {
            Ok(tail) => {
                assert(out@ + tail == tail);
            },
            Err(_) => {},
        }
    }
    while i < template.len()
        invariant
            i <= template.len(),
            template@ == input@,
            value_of == build_values(*output_paths, *lua, *external_dependencies, *config),
            substituted(template@, value_of) == after(
                out@,
                substituted(template@.skip(i as int), value_of),
            ),
        decreases template.len() - i,
    {
        let ghost rest = template@.skip(i as int);
        let ghost before = out@;
        if template[i] == '$' && i + 1 < template.len() && template[i + 1] == '(' {
            let mut j: usize = i + 2;
            assert(rest.skip(2) == template@.skip(i + 2));
            while j < template.len() && template[j] != ')'
                invariant
                    i + 2 <= j <= template.len(),
                    rest == template@.skip(i as int),
                    template@ == input@,
                    name_length(rest.skip(2)) == (j - i - 2) + name_length(
                        template@.skip(j as int),
                    ),
                decreases template.len() - j,
            {
                assert(template@.skip(j as int).skip(1) == template@.skip(j + 1));
                j += 1;
            }
            if j >= template.len() {
                return Err(
                    VariableSubstitutionError::Malformed {
                        text: text_between(template.as_slice(), i, template.len()),
                    },
                );
            }
            assert(2 + name_length(rest.skip(2)) == j - i);
            let name = text_between(template.as_slice(), i + 2, j);
            assert(name@ == rest.subrange(2, j - i));
            match resolve(name.as_str(), output_paths, lua, external_dependencies, config) {
                None => {
                    return Err(VariableSubstitutionError::Unresolved { name });
                },
                Some(value) => {
                    let more = chars_of(value.as_str());
                    push_all(&mut out, &more);
                    proof {
                        assert(value_of(name@) == Some(more@));
                        assert(rest.skip(j - i + 1) == template@.skip(j + 1));
                        match substituted(template@.skip(j + 1), value_of) {
                            Ok(tail) => {
                                assert(before + (more@ + tail) == (before + more@) + tail);
                            },
                            Err(_) => {},
                        }
                    }
                    i = j + 1;
                },
            }
        } else {
            out.push(template[i]);
            proof {
                assert(rest.skip(1) == template@.skip(i + 1));
                match substituted(template@.skip(i + 1), value_of) {
                    Ok(tail) => {
                        assert(before + (seq![rest[0]] + tail) == before.push(rest[0]) + tail);
                    },
                    Err(_) => {},
                }
            }
            i += 1;
        }
    }
    proof {
        assert(out@ + Seq::<char>::empty() == out@);
    }
    Ok(text_of(out.as_slice()))
}

/// Whether the build defines the variable `name`: it is one of the layout's
/// or the interpreter's names, or the name of an external dependency followed
/// by `_INCDIR` or `_LIBDIR` where that directory is known, or the name of a
/// configuration variable.
pub open spec fn declared(
    name: Seq<char>,
    output_paths: RockLayout,
    lua: LuaInstallation,
    external_dependencies: ExternalDependencies,
    config: Config,
) -> bool {
    ||| name == "PREFIX"@ || name == "LIBDIR"@ || name == "LUADIR"@ || name == "BINDIR"@ || name
        == "CONFDIR"@ || name == "DOCDIR"@
    ||| name == "LUA"@ || name == "LUA_INCDIR"@ || name == "LUA_LIBDIR"@
    ||| exists|i: int|
        0 <= i < external_dependencies.entries().len() && (
        #[trigger] external_dependencies.entries()[i]).variable(name) is Some
    ||| exists|i: int|
        0 <= i < config.variables@.len() && (#[trigger] config.variables@[i]).name@ == name
}

proof fn lemma_first_external(entries: Seq<ExternalDependency>, name: Seq<char>)
    ensures
        first_external(entries, name) is Some <==> exists|i: int|
            0 <= i < entries.len() && (#[trigger] entries[i]).variable(name) is Some,
    decreases entries.len(),
{
    if entries.len() > 0 {
        let rest = entries.skip(1);
        lemma_first_external(rest, name);
        if entries[0].variable(name) is Some {
        } else if first_external(rest, name) is Some {
            let i = choose|i: int| 0 <= i < rest.len() && (#[trigger] rest[i]).variable(name) is Some;
            assert(entries[i + 1] == rest[i]);
        } else {
            assert forall|i: int| 0 <= i < entries.len() implies !((#[trigger] entries[i]).variable(
                name,
            ) is Some) by {
                if i > 0 {
                    assert(rest[i - 1] == entries[i]);
                }
            }
        }
    }
}

proof fn lemma_first_named(variables: Seq<Variable>, name: Seq<char>)
    ensures
        first_named(variables, name) is Some <==> exists|i: int|
            0 <= i < variables.len() && (#[trigger] variables[i]).name@ == name,
    decreases variables.len(),
{
    if variables.len() > 0 {
        let rest = variables.skip(1);
        lemma_first_named(rest, name);
        if variables[0].name@ == name {
        } else if first_named(rest, name) is Some {
            let i = choose|i: int| 0 <= i < rest.len() && (#[trigger] rest[i]).name@ == name;
            assert(variables[i + 1] == rest[i]);
        } else {
            assert forall|i: int| 0 <= i < variables.len() implies (#[trigger] variables[i]).name@
                != name by {
                if i > 0 {
                    assert(rest[i - 1] == variables[i]);
                }
            }
        }
    }
}

/// A variable has a value exactly when the build defines it.
pub proof fn law_declared_variables_resolve(
    name: Seq<char>,
    output_paths: RockLayout,
    lua: LuaInstallation,
    external_dependencies: ExternalDependencies,
    config: Config,
)
    ensures
        resolved(name, output_paths, lua, external_dependencies, config) is Some <==> declared(
            name,
            output_paths,
            lua,
            external_dependencies,
            config,
        ),
{
    lemma_first_external(external_dependencies.entries(), name);
    lemma_first_named(config.variables@, name);
}

proof fn lemma_name_length_closed(name: Seq<char>, rest: Seq<char>)
    requires
        !name.contains(')'),
    ensures
        name_length(name + seq![')'] + rest) == name.len(),
    decreases name.len(),
{
    let text = name + seq![')'] + rest;
    if name.len() == 0 {
        assert(text[0] == ')');
    } else {
        assert(name.contains(name[0]));
        assert(text[0] == name[0]);
        let shorter = name.skip(1);
        assert forall|c: char| shorter.contains(c) implies name.contains(c) by {
            let i = choose|i: int| 0 <= i < shorter.len() && shorter[i] == c;
            assert(name[i + 1] == c);
        }
        assert(text.skip(1) == shorter + seq![')'] + rest);
        lemma_name_length_closed(shorter, rest);
    }
}

/// A placeholder followed by more text is replaced by its variable's value,
/// and the text after it is substituted in turn; where the variable has no
/// value, the substitution fails and names it.
pub proof fn law_placeholder(
    name: Seq<char>,
    rest: Seq<char>,
    value_of: spec_fn(Seq<char>) -> Option<Seq<char>>,
)
    requires
        !name.contains(')'),
    ensures
        substituted(seq!['$', '('] + name + seq![')'] + rest, value_of) == match value_of(name) {
            Some(value) => after(value, substituted(rest, value_of)),
            None => Err(SubstitutionFault::Unresolved { name }),
        },
{
    let template = seq!['$', '('] + name + seq![')'] + rest;
    assert(template.skip(2) == name + seq![')'] + rest);
    lemma_name_length_closed(name, rest);
    let close = 2 + name.len() as int;
    assert(template.subrange(2, close) == name);
    assert(template.skip(close + 1) == rest);
}

/// A template that is one placeholder and nothing else yields the variable's
/// value, and fails for a variable without one.
pub proof fn law_lone_placeholder(
    name: Seq<char>,
    value_of: spec_fn(Seq<char>) -> Option<Seq<char>>,
)
    requires
        !name.contains(')'),
    ensures
        substituted(seq!['$', '('] + name + seq![')'], value_of) == match value_of(name) {
            Some(value) => Ok::<Seq<char>, SubstitutionFault>(value),
            None => Err(SubstitutionFault::Unresolved { name }),
        },
{
    let empty = Seq::<char>::empty();
    law_placeholder(name, empty, value_of);
    assert(seq!['$', '('] + name + seq![')'] + empty == seq!['$', '('] + name + seq![')']);
    if value_of(name) is Some {
        assert(value_of(name)->0 + empty == value_of(name)->0);
    }
}

/// Text in which no placeholder opens is left as it is.
pub proof fn law_plain_text_unchanged(
    template: Seq<char>,
    value_of: spec_fn(Seq<char>) -> Option<Seq<char>>,
)
    requires
        !template.contains('$'),
    ensures
        substituted(template, value_of) == Ok::<Seq<char>, SubstitutionFault>(template),
    decreases template.len(),
{
    if template.len() > 0 {
        assert(template.contains(template[0]));
        let rest = template.skip(1);
        assert forall|c: char| rest.contains(c) implies template.contains(c) by {
            let i = choose|i: int| 0 <= i < rest.len() && rest[i] == c;
            assert(template[i + 1] == c);
        }
        law_plain_text_unchanged(rest, value_of);
        assert(seq![template[0]] + rest == template);
    } else {
        assert(template == Seq::<char>::empty());
    }
}

} // verus!
